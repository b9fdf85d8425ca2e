use pv_datalogger::datalogger::DataLogger;
use pv_datalogger::fieldbus::{ReadRequest, RegisterRead};
use pv_datalogger::parser::types::{Bat, Const, PVSignal, PVSignalDataType, Root, Scheme};
use pv_datalogger::registers::DecodeError;
use pv_datalogger::store::{
    build_labels, build_lookup_key, build_series_key, lookup_entry, pass_result, probe,
    push_creates, push_lookup_rows, push_samples, self_test_commands, self_test_verdict,
    sort_data_redis, Arg, Label, LookupEntry, ReplyKind, StoreCommand, StoreError, WireCommand,
};

fn field(dtype: &str, addr: u16, len: u16, gain: u16, name: &str, unit: &str, category: u8) -> Const {
    Const {
        dtype: dtype.to_string(),
        addr,
        len,
        gain,
        name: name.to_string(),
        unit: unit.to_string(),
        category,
    }
}

fn signal(data: PVSignalDataType, name: &str, unit: &str, gain: u16, time: i64) -> PVSignal {
    PVSignal {
        data,
        address: 0,
        length: 2,
        name: name.to_string(),
        unit: unit.to_string(),
        gain,
        time,
    }
}

fn label(name: &str, value: &str) -> Label {
    Label { name: name.to_string(), value: value.to_string() }
}

fn create(key: &str, base: &str, category: &str) -> StoreCommand {
    StoreCommand::CreateSeries {
        key: key.to_string(),
        labels: vec![label("base", base), label("type", "solar"), label("data", category)],
    }
}

fn sample(key: &str, timestamp: i64, value: i64) -> StoreCommand {
    StoreCommand::AddSample { key: key.to_string(), timestamp, value }
}

fn row(name: &str, unit: &str, gain: u16) -> LookupEntry {
    LookupEntry { name: name.to_string(), unit: unit.to_string(), gain }
}

/// Five general signals, one template field in three packs, one PV string:
/// ten series.
fn ten_series() -> DataLogger {
    let defs = Root {
        const_field: vec![
            field("STR", 30000, 2, 1, "model", "", 0),
            field("U16", 30073, 1, 1, "rated", "W", 0),
            field("I16", 32087, 1, 10, "temp", "C", 0),
            field("U32", 32106, 2, 100, "yield", "kWh", 0),
            field("I32", 32080, 2, 1, "power", "W", 0),
            field("???", 32090, 1, 1, "dropped", "", 0),
        ],
        scheme: Scheme {
            bat: vec![Bat {
                dtype: "U16".to_string(),
                addr: 28,
                len: 1,
                gain: 10,
                name: "soc".to_string(),
                unit: "%".to_string(),
            }],
        },
    };
    let mut logger = DataLogger::new();
    logger.init(&defs, 1);
    logger
}

fn creates_in(commands: &[StoreCommand]) -> usize {
    commands.iter().filter(|c| matches!(c, StoreCommand::CreateSeries { .. })).count()
}

fn samples_in(commands: &[StoreCommand]) -> usize {
    commands.iter().filter(|c| matches!(c, StoreCommand::AddSample { .. })).count()
}

#[test]
fn probe_compares_the_count() {
    let logger = ten_series();
    assert_eq!(
        logger._get_general_data().len()
            + logger._get_storage_data().len()
            + 2 * logger._get_pvs().len(),
        10
    );
    assert!(logger.needs_provisioning(7));
    assert_eq!(creates_in(&logger.send_data("dev".to_string(), 7)), 10);
    assert!(!logger.needs_provisioning(10));
    assert_eq!(creates_in(&logger.send_data("dev".to_string(), 10)), 0);
}

#[test]
fn any_other_count_provisions_in_full() {
    let logger = ten_series();
    for found in [0usize, 1, 9, 11, 20, usize::MAX] {
        assert!(logger.needs_provisioning(found));
        assert_eq!(creates_in(&logger.send_data("dev".to_string(), found)), 10);
    }
}

#[test]
fn provisioned_store_gets_no_creates_twice() {
    let logger = ten_series();
    // The first pass on an empty store creates every series; the store then reports all ten.
    let first = logger.send_data("dev".to_string(), 0);
    let created = creates_in(&first);
    assert_eq!(created, 10);
    let second = logger.send_data("dev".to_string(), created);
    assert_eq!(creates_in(&second), 0);
    let third = logger.send_data("dev".to_string(), created);
    assert_eq!(creates_in(&third), 0);
    assert_eq!(second, third);
}

#[test]
fn empty_logger_sends_lookup_and_quit() {
    let logger = DataLogger::new();
    assert!(logger._get_pvs().is_empty());
    assert!(logger._get_general_data().is_empty());
    assert!(logger._get_storage_data().is_empty());
    assert!(!logger.needs_provisioning(0));
    assert!(logger.needs_provisioning(1));
    assert_eq!(
        logger.send_data("dev".to_string(), 0),
        vec![
            StoreCommand::SetLookup { key: "dev:lookup".to_string(), entries: vec![] },
            StoreCommand::Quit
        ]
    );
    assert_eq!(logger.send_data("dev".to_string(), 3), logger.send_data("dev".to_string(), 0));
}

#[test]
fn a_whole_cycle() {
    let defs = Root {
        const_field: vec![
            field("STR", 30000, 2, 1, "model", "", 0),
            field("I16", 32087, 1, 10, "temp", "C", 0),
            field("U32", 37780, 2, 100, "charge", "kWh", 2),
        ],
        scheme: Scheme { bat: vec![] },
    };
    let mut logger = DataLogger::new();
    logger.init(&defs, 1);
    let general = vec![
        RegisterRead::at(vec![0x5355, 0x4E32], 1000),
        RegisterRead::at(vec![0xFF9C], 1001),
    ];
    let storage = vec![RegisterRead::at(vec![0x0001, 0x0000], 1002)];
    let pv = vec![RegisterRead::at(vec![4321], 1003), RegisterRead::at(vec![0xFFFF], 1004)];
    assert_eq!(logger.read_data(&general, &storage, &pv), Ok(()));

    let commands = logger.send_data("site".to_string(), 0);
    let expected = vec![
        create("site:general:model", "site", "general"),
        create("site:general:temp", "site", "general"),
        create("site:storage:charge", "site", "storage"),
        create("site:pv:pv_0_voltage", "site", "pv"),
        create("site:pv:pv_0_current", "site", "pv"),
        StoreCommand::SetLookup {
            key: "site:lookup".to_string(),
            entries: vec![
                row("model", "", 1),
                row("temp", "C", 10),
                row("charge", "kWh", 100),
                row("pv_0_current", "A", 100),
                row("pv_0_voltage", "V", 10),
            ],
        },
        sample("site:general:temp", 1001, -100),
        sample("site:storage:charge", 1002, 65536),
        sample("site:pv:pv_0_voltage", 1003, 4321),
        sample("site:pv:pv_0_current", 1004, -1),
        StoreCommand::Quit,
    ];
    assert_eq!(commands, expected);
    // With all five series in the store, only the provisioning pass goes.
    assert_eq!(logger.send_data("site".to_string(), 5), expected[5..].to_vec());
}

#[test]
fn only_numeric_readings_are_sampled() {
    let group = vec![
        signal(PVSignalDataType::U16(1), "a", "", 1, 10),
        signal(PVSignalDataType::STR("text".to_string()), "b", "", 1, 11),
        signal(PVSignalDataType::I16(-2), "c", "", 1, 12),
        signal(PVSignalDataType::UNK(3), "d", "", 1, 13),
        signal(PVSignalDataType::U32(4), "e", "", 1, 14),
        signal(PVSignalDataType::STR(String::new()), "f", "", 1, 15),
        signal(PVSignalDataType::I32(-5), "g", "", 1, 16),
    ];
    let mut commands = Vec::new();
    push_samples(&mut commands, &"k".to_string(), "general", &group);
    assert_eq!(
        commands,
        vec![
            sample("k:general:a", 10, 1),
            sample("k:general:c", 12, -2),
            sample("k:general:e", 14, 4),
            sample("k:general:g", 16, -5),
        ]
    );
    let numeric = group.iter().filter(|s| s.data.is_numeric()).count();
    assert_eq!(samples_in(&commands), numeric);
    for (i, s) in group.iter().enumerate() {
        let one = sort_data_redis(i, &"k".to_string(), "general".to_string(), &group);
        assert_eq!(one.is_some(), s.data.is_numeric());
    }
}

#[test]
fn a_group_without_numbers_gives_no_sample() {
    let group = vec![
        signal(PVSignalDataType::STR("text".to_string()), "b", "", 1, 11),
        signal(PVSignalDataType::UNK(3), "d", "", 1, 13),
    ];
    let mut commands = vec![StoreCommand::Quit];
    push_samples(&mut commands, &"k".to_string(), "general", &group);
    assert_eq!(commands, vec![StoreCommand::Quit]);
    assert_eq!(sort_data_redis(0, &"k".to_string(), "x".to_string(), &group), None);
    assert_eq!(sort_data_redis(1, &"k".to_string(), "x".to_string(), &group), None);
}

#[test]
fn samples_hold_the_raw_integer_and_the_time() {
    let group = vec![
        signal(PVSignalDataType::U16(65535), "a", "V", 10, -1),
        signal(PVSignalDataType::U32(u32::MAX), "b", "V", 100, i64::MAX),
        signal(PVSignalDataType::I32(i32::MIN), "c", "V", 1000, i64::MIN),
    ];
    let base = "b".to_string();
    assert_eq!(
        sort_data_redis(0, &base, "pv".to_string(), &group),
        Some(sample("b:pv:a", -1, 65535))
    );
    assert_eq!(
        sort_data_redis(1, &base, "pv".to_string(), &group),
        Some(sample("b:pv:b", i64::MAX, 4294967295))
    );
    assert_eq!(
        sort_data_redis(2, &base, "pv".to_string(), &group),
        Some(sample("b:pv:c", i64::MIN, -2147483648))
    );
}

#[test]
fn keys_and_labels() {
    assert_eq!(build_series_key("base", "general", "name"), "base:general:name");
    assert_eq!(build_series_key("", "", ""), "::");
    assert_eq!(build_series_key("a:b", "pv", "pv_0_voltage"), "a:b:pv:pv_0_voltage");
    assert_eq!(build_lookup_key("base"), "base:lookup");
    assert_eq!(build_lookup_key(""), ":lookup");
    assert_eq!(probe("base"), StoreCommand::QueryIndex { filter: "base=base".to_string() });
    assert_eq!(
        build_labels("dev", "pgs"),
        vec![label("base", "dev"), label("type", "solar"), label("data", "pgs")]
    );
}

#[test]
fn creates_are_appended_one_per_signal() {
    let group = vec![
        signal(PVSignalDataType::STR(String::new()), "model", "", 1, 0),
        signal(PVSignalDataType::UNK(0), "odd", "", 1, 0),
        signal(PVSignalDataType::U16(0), "soc", "%", 10, 0),
    ];
    let mut commands = vec![StoreCommand::Quit];
    push_creates(&mut commands, "dev", "storage", &group);
    assert_eq!(
        commands,
        vec![
            StoreCommand::Quit,
            create("dev:storage:model", "dev", "storage"),
            create("dev:storage:odd", "dev", "storage"),
            create("dev:storage:soc", "dev", "storage"),
        ]
    );
}

#[test]
fn lookup_rows_of_every_signal() {
    let group = vec![
        signal(PVSignalDataType::STR(String::new()), "model", "", 1, 0),
        signal(PVSignalDataType::U16(0), "soc", "%", 10, 0),
    ];
    assert_eq!(lookup_entry(&group[1]), row("soc", "%", 10));
    let mut rows = vec![row("first", "x", 2)];
    push_lookup_rows(&mut rows, &group);
    assert_eq!(rows, vec![row("first", "x", 2), row("model", "", 1), row("soc", "%", 10)]);
}

fn text(s: &str) -> Arg {
    Arg::Text(s.to_string())
}

fn wire(name: &str, args: Vec<Arg>, reply: ReplyKind) -> WireCommand {
    WireCommand { name: name.to_string(), args, reply }
}

#[test]
fn commands_on_the_wire() {
    assert_eq!(
        probe("dev").wire(),
        wire("TS.QUERYINDEX", vec![text("base=dev")], ReplyKind::SeriesList)
    );
    assert_eq!(
        create("dev:pv:pv_0_voltage", "dev", "pv").wire(),
        wire(
            "TS.CREATE",
            vec![
                text("dev:pv:pv_0_voltage"),
                text("LABELS"),
                text("base"),
                text("dev"),
                text("type"),
                text("solar"),
                text("data"),
                text("pv"),
            ],
            ReplyKind::Nothing
        )
    );
    assert_eq!(
        StoreCommand::CreateSeries { key: "k".to_string(), labels: vec![] }.wire(),
        wire("TS.CREATE", vec![text("k"), text("LABELS")], ReplyKind::Nothing)
    );
    assert_eq!(
        StoreCommand::SetLookup {
            key: "dev:lookup".to_string(),
            entries: vec![row("temp", "C", 10), row("model", "", 1), row("max", "W", 65535)],
        }
        .wire(),
        wire(
            "HSET",
            vec![
                text("dev:lookup"),
                text("temp"),
                text("C"),
                Arg::Integer(10),
                text("model"),
                text(""),
                Arg::Integer(1),
                text("max"),
                text("W"),
                Arg::Integer(65535),
            ],
            ReplyKind::Nothing
        )
    );
    assert_eq!(
        StoreCommand::SetLookup { key: "dev:lookup".to_string(), entries: vec![] }.wire(),
        wire("HSET", vec![text("dev:lookup")], ReplyKind::Nothing)
    );
    assert_eq!(
        sample("dev:general:temp", 1_700_000_000_123, -100).wire(),
        wire(
            "TS.ADD",
            vec![text("dev:general:temp"), Arg::Integer(1_700_000_000_123), Arg::Integer(-100)],
            ReplyKind::Nothing
        )
    );
    assert_eq!(
        StoreCommand::SetKey { key: "ping".to_string(), token: u32::MAX }.wire(),
        wire("SET", vec![text("ping"), Arg::Integer(4294967295)], ReplyKind::Nothing)
    );
    assert_eq!(
        StoreCommand::GetKey { key: "ping".to_string() }.wire(),
        wire("GET", vec![text("ping")], ReplyKind::Integer)
    );
    assert_eq!(
        StoreCommand::DeleteKey { key: "ping".to_string() }.wire(),
        wire("DEL", vec![text("ping")], ReplyKind::Nothing)
    );
    assert_eq!(StoreCommand::Quit.wire(), wire("QUIT", vec![], ReplyKind::Nothing));
}

#[test]
fn a_pass_fails_once_any_command_has() {
    assert_eq!(pass_result(&vec![]), Ok(()));
    assert_eq!(pass_result(&vec![true]), Ok(()));
    assert_eq!(pass_result(&vec![true, true, true]), Ok(()));
    assert_eq!(pass_result(&vec![false]), Err(StoreError::CommandFailed));
    assert_eq!(pass_result(&vec![true, true, false]), Err(StoreError::CommandFailed));
    assert_eq!(pass_result(&vec![false, true, true]), Err(StoreError::CommandFailed));
}

#[test]
fn series_keys_of_a_catalog_are_distinct() {
    // The same name in two groups gives two keys.
    let logger = ten_series();
    let commands = logger.send_data("dev".to_string(), 0);
    let mut keys: Vec<String> = commands
        .iter()
        .filter_map(|c| match c {
            StoreCommand::CreateSeries { key, .. } => Some(key.clone()),
            _ => None,
        })
        .collect();
    assert_eq!(keys.len(), 10);
    keys.sort();
    keys.dedup();
    assert_eq!(keys.len(), 10);
    assert_ne!(
        build_series_key("dev", "general", "soc"),
        build_series_key("dev", "storage", "soc")
    );
    assert_ne!(build_series_key("dev", "pgs", "v"), build_series_key("dev", "pv", "v"));
}

#[test]
fn self_test_round_trip() {
    assert_eq!(
        self_test_commands(77),
        vec![
            StoreCommand::SetKey { key: "ping".to_string(), token: 77 },
            StoreCommand::GetKey { key: "ping".to_string() },
        ]
    );
    assert_eq!(
        self_test_verdict(77, 77),
        Ok(vec![StoreCommand::DeleteKey { key: "ping".to_string() }, StoreCommand::Quit])
    );
    assert_eq!(self_test_verdict(77, 78), Err(StoreError::SelfTestMismatch));
    assert_eq!(self_test_verdict(0, u32::MAX), Err(StoreError::SelfTestMismatch));
    assert!(self_test_verdict(u32::MAX, u32::MAX).is_ok());
}

#[test]
fn self_test_writes_the_token_it_drew() {
    let logger = DataLogger::new();
    let (token, commands) = logger._test_redis();
    assert_eq!(commands, self_test_commands(token));
    // Thirty-two draws of 32 bits are not all the same number.
    let tokens: Vec<u32> = (0..32).map(|_| logger._test_redis().0).collect();
    assert!(tokens.iter().any(|t| *t != tokens[0]));
}

#[test]
fn init_builds_the_three_groups() {
    let logger = ten_series();
    let general: Vec<&str> =
        logger._get_general_data().iter().map(|s| s.name.as_str()).collect();
    assert_eq!(general, vec!["model", "rated", "temp", "yield", "power"]);
    let storage: Vec<(&str, u16)> =
        logger._get_storage_data().iter().map(|s| (s.name.as_str(), s.address)).collect();
    assert_eq!(storage, vec![("pack0_soc", 38228), ("pack1_soc", 38270), ("pack2_soc", 38312)]);
    assert_eq!(logger._get_pvs().len(), 1);
    assert_eq!(logger._get_pvs()[0].voltage.name, "pv_0_voltage");
}

#[test]
fn init_keeps_the_low_byte_of_the_string_count() {
    let mut logger = DataLogger::new();
    logger.init(&Root::default(), 258);
    assert_eq!(logger._get_pvs().len(), 2);
    logger.init(&Root::default(), 256);
    assert_eq!(logger._get_pvs().len(), 0);
    logger.init(&Root::default(), 255);
    assert_eq!(logger._get_pvs().len(), 255);
}

#[test]
fn requests_of_each_group() {
    let logger = ten_series();
    assert_eq!(
        logger.general_requests(),
        vec![
            ReadRequest { address: 30000, count: 2 },
            ReadRequest { address: 30073, count: 1 },
            ReadRequest { address: 32087, count: 1 },
            ReadRequest { address: 32106, count: 2 },
            ReadRequest { address: 32080, count: 2 },
        ]
    );
    assert_eq!(
        logger.storage_requests(),
        vec![
            ReadRequest { address: 38228, count: 1 },
            ReadRequest { address: 38270, count: 1 },
            ReadRequest { address: 38312, count: 1 },
        ]
    );
    assert_eq!(
        logger.pv_requests(),
        vec![ReadRequest { address: 32016, count: 1 }, ReadRequest { address: 32017, count: 1 }]
    );
}

fn reads_for(requests: &[ReadRequest], fill: u16, time: i64) -> Vec<RegisterRead> {
    requests
        .iter()
        .map(|r| RegisterRead::at(vec![fill; r.count as usize], time))
        .collect()
}

#[test]
fn a_cycle_stops_at_the_first_group_that_fails() {
    let mut logger = ten_series();
    let general = reads_for(&logger.general_requests(), 1, 100);
    let storage = reads_for(&logger.storage_requests(), 2, 200);
    let pv = reads_for(&logger.pv_requests(), 3, 300);

    // Storage is one read short: general is stored, storage and PV are not.
    let short = reads_for(&logger.storage_requests()[..2], 2, 200);
    assert_eq!(logger.read_data(&general, &short, &pv), Err(DecodeError::ReadCount));
    assert_eq!(logger._get_general_data()[1].data, PVSignalDataType::U16(1));
    assert_eq!(logger._get_general_data()[1].time, 100);
    assert_eq!(logger._get_storage_data()[0].data, PVSignalDataType::U16(0));
    assert_eq!(logger._get_storage_data()[0].time, 0);
    assert_eq!(logger._get_pvs()[0].voltage.data, PVSignalDataType::I16(0));

    // General fails: nothing is stored at all.
    let mut other = ten_series();
    let empty: Vec<RegisterRead> = Vec::new();
    assert_eq!(other.read_data(&empty, &storage, &pv), Err(DecodeError::ReadCount));
    assert_eq!(other._get_storage_data()[0].time, 0);
    assert_eq!(other._get_pvs()[0].voltage.time, 0);

    // PV answers without words: the two groups before it are stored.
    let hollow = vec![RegisterRead::at(vec![], 300), RegisterRead::at(vec![], 301)];
    assert_eq!(other.read_data(&general, &storage, &hollow), Err(DecodeError::ShortRead));
    assert_eq!(other._get_general_data()[3].data, PVSignalDataType::U32(0x0001_0001));
    assert_eq!(other._get_storage_data()[2].data, PVSignalDataType::U16(2));
    assert_eq!(other._get_storage_data()[2].time, 200);
    assert_eq!(other._get_pvs()[0].voltage.time, 0);

    assert_eq!(other.read_data(&general, &storage, &pv), Ok(()));
    assert_eq!(other._get_pvs()[0].voltage.data, PVSignalDataType::I16(3));
    assert_eq!(other._get_pvs()[0].voltage.time, 300);
    assert_eq!(other._get_pvs()[0].current.data, PVSignalDataType::I16(3));
}

#[test]
fn pv_reads_come_voltage_first() {
    let mut logger = DataLogger::new();
    logger.init(&Root::default(), 2);
    let reads = vec![
        RegisterRead::at(vec![10], 1),
        RegisterRead::at(vec![20], 2),
        RegisterRead::at(vec![0xFFFE], 3),
        RegisterRead::at(vec![40], 4),
    ];
    assert_eq!(logger._read_pv_data(&reads), Ok(()));
    let pvs = logger._get_pvs();
    assert_eq!((&pvs[0].voltage.data, pvs[0].voltage.time), (&PVSignalDataType::I16(10), 1));
    assert_eq!((&pvs[0].current.data, pvs[0].current.time), (&PVSignalDataType::I16(20), 2));
    assert_eq!((&pvs[1].voltage.data, pvs[1].voltage.time), (&PVSignalDataType::I16(-2), 3));
    assert_eq!((&pvs[1].current.data, pvs[1].current.time), (&PVSignalDataType::I16(40), 4));
    assert_eq!(pvs[1].current.name, "pv_1_current");
    assert_eq!(logger._read_pv_data(&reads[..3].to_vec()), Err(DecodeError::ReadCount));
    assert_eq!(logger._get_pvs()[1].current.time, 4);
}

#[test]
fn general_and_storage_reads_are_stored_apart() {
    let mut logger = ten_series();
    let storage = reads_for(&logger.storage_requests(), 55, 9);
    assert_eq!(logger._read_storage_data(&storage), Ok(()));
    assert_eq!(logger._get_storage_data()[1].data, PVSignalDataType::U16(55));
    assert_eq!(logger._get_general_data()[1].data, PVSignalDataType::U16(0));
    let general = reads_for(&logger.general_requests(), 0x4142, 10);
    assert_eq!(logger._read_general_data(&general), Ok(()));
    assert_eq!(logger._get_general_data()[0].data, PVSignalDataType::STR("ABAB".to_string()));
    assert_eq!(logger._get_general_data()[0].time, 10);
    assert_eq!(logger._get_storage_data()[1].time, 9);
}
