//! Commands for the time-series store, as plain values.
//!
//! Nothing here talks to the store. A command says what is to be sent; the
//! caller sends it and hands back what the store answered.

use vstd::prelude::*;
use vstd::string::StringExecFns;
use crate::parser::types::{PVSignal, PVSignalDataType, SignalReading, SignalValue};

verus! {

/// A label of a series.
#[derive(Debug, Clone, PartialEq)]
pub struct Label {
    pub name: String,
    pub value: String,
}

/// Model of [`Label`].
pub struct LabelPair {
    pub name: Seq<char>,
    pub value: Seq<char>,
}

impl View for Label {
    type V = LabelPair;

    open spec fn view(&self) -> LabelPair {
        LabelPair { name: self.name@, value: self.value@ }
    }
}

impl DeepView for Label {
    type V = LabelPair;

    open spec fn deep_view(&self) -> LabelPair {
        self@
    }
}

/// One row of the lookup table: what a consumer needs to read a series.
#[derive(Debug, Clone, PartialEq)]
pub struct LookupEntry {
    pub name: String,
    pub unit: String,
    pub gain: u16,
}

/// Model of [`LookupEntry`].
pub struct LookupRow {
    pub name: Seq<char>,
    pub unit: Seq<char>,
    pub gain: u16,
}

impl View for LookupEntry {
    type V = LookupRow;

    open spec fn view(&self) -> LookupRow {
        LookupRow { name: self.name@, unit: self.unit@, gain: self.gain }
    }
}

impl DeepView for LookupEntry {
    type V = LookupRow;

    open spec fn deep_view(&self) -> LookupRow {
        self@
    }
}

/// One command for the store.
#[derive(Debug, Clone, PartialEq)]
pub enum StoreCommand {
    /// Ask for the series whose labels match `filter`.
    QueryIndex { filter: String },
    /// Create the series `key` with `labels`.
    CreateSeries { key: String, labels: Vec<Label> },
    /// Overwrite the fields of the record `key` with `entries`.
    SetLookup { key: String, entries: Vec<LookupEntry> },
    /// Append `value` to the series `key` at `timestamp` (milliseconds).
    AddSample { key: String, timestamp: i64, value: i64 },
    /// Set the plain key `key` to `token`.
    SetKey { key: String, token: u32 },
    /// Read the plain key `key`.
    GetKey { key: String },
    /// Delete the plain key `key`.
    DeleteKey { key: String },
    /// End the session.
    Quit,
}

/// Model of [`StoreCommand`].
pub enum Command {
    QueryIndex { filter: Seq<char> },
    CreateSeries { key: Seq<char>, labels: Seq<LabelPair> },
    SetLookup { key: Seq<char>, entries: Seq<LookupRow> },
    AddSample { key: Seq<char>, timestamp: int, value: int },
    SetKey { key: Seq<char>, token: u32 },
    GetKey { key: Seq<char> },
    DeleteKey { key: Seq<char> },
    Quit,
}

impl View for StoreCommand {
    type V = Command;

    open spec fn view(&self) -> Command {
        match self {
            StoreCommand::QueryIndex { filter } => Command::QueryIndex { filter: filter@ },
            StoreCommand::CreateSeries { key, labels } => Command::CreateSeries {
                key: key@,
                labels: labels.deep_view(),
            },
            StoreCommand::SetLookup { key, entries } => Command::SetLookup {
                key: key@,
                entries: entries.deep_view(),
            },
            StoreCommand::AddSample { key, timestamp, value } => Command::AddSample {
                key: key@,
                timestamp: *timestamp as int,
                value: *value as int,
            },
            StoreCommand::SetKey { key, token } => Command::SetKey { key: key@, token: *token },
            StoreCommand::GetKey { key } => Command::GetKey { key: key@ },
            StoreCommand::DeleteKey { key } => Command::DeleteKey { key: key@ },
            StoreCommand::Quit => Command::Quit,
        }
    }
}

impl DeepView for StoreCommand {
    type V = Command;

    open spec fn deep_view(&self) -> Command {
        self@
    }
}

/// One argument of a command as it is sent.
#[derive(Debug, Clone, PartialEq)]
pub enum Arg {
    Text(String),
    Integer(i64),
}

/// Model of [`Arg`].
pub enum ArgValue {
    Text(Seq<char>),
    Integer(int),
}

impl View for Arg {
    type V = ArgValue;

    open spec fn view(&self) -> ArgValue {
        match self {
            Arg::Text(text) => ArgValue::Text(text@),
            Arg::Integer(n) => ArgValue::Integer(*n as int),
        }
    }
}

impl DeepView for Arg {
    type V = ArgValue;

    open spec fn deep_view(&self) -> ArgValue {
        self@
    }
}

/// What the store answers to a command.
#[derive(Debug, Clone, Copy, PartialEq, Eq, Structural)]
pub enum ReplyKind {
    /// A list of series keys.
    SeriesList,
    /// One integer.
    Integer,
    /// Nothing that is read.
    Nothing,
}

/// A command as it is sent: its name, its arguments in order, and the kind
/// of answer to wait for.
#[derive(Debug, Clone, PartialEq)]
pub struct WireCommand {
    pub name: String,
    pub args: Vec<Arg>,
    pub reply: ReplyKind,
}

/// Model of [`WireCommand`].
pub struct Wire {
    pub name: Seq<char>,
    pub args: Seq<ArgValue>,
    pub reply: ReplyKind,
}

impl View for WireCommand {
    type V = Wire;

    open spec fn view(&self) -> Wire {
        Wire { name: self.name@, args: self.args.deep_view(), reply: self.reply }
    }
}

impl DeepView for WireCommand {
    type V = Wire;

    open spec fn deep_view(&self) -> Wire {
        self@
    }
}

/// The arguments that labels make: name and value of each, in order.
pub open spec fn label_args(labels: Seq<LabelPair>) -> Seq<ArgValue> {
    Seq::new(
        2 * labels.len(),
        |k: int|
            if k % 2 == 0 {
                ArgValue::Text(labels[k / 2].name)
            } else {
                ArgValue::Text(labels[k / 2].value)
            },
    )
}

/// The arguments that lookup rows make: name, unit and gain of each, in
/// order.
pub open spec fn lookup_args(entries: Seq<LookupRow>) -> Seq<ArgValue> {
    Seq::new(
        3 * entries.len(),
        |k: int|
            if k % 3 == 0 {
                ArgValue::Text(entries[k / 3].name)
            } else if k % 3 == 1 {
                ArgValue::Text(entries[k / 3].unit)
            } else {
                ArgValue::Integer(entries[k / 3].gain as int)
            },
    )
}

/// How a command is sent.
pub open spec fn wire_of(command: Command) -> Wire {
    match command {
        Command::QueryIndex { filter } => Wire {
            name: "TS.QUERYINDEX"@,
            args: seq![ArgValue::Text(filter)],
            reply: ReplyKind::SeriesList,
        },
        Command::CreateSeries { key, labels } => Wire {
            name: "TS.CREATE"@,
            args: seq![ArgValue::Text(key), ArgValue::Text("LABELS"@)] + label_args(labels),
            reply: ReplyKind::Nothing,
        },
        Command::SetLookup { key, entries } => Wire {
            name: "HSET"@,
            args: seq![ArgValue::Text(key)] + lookup_args(entries),
            reply: ReplyKind::Nothing,
        },
        Command::AddSample { key, timestamp, value } => Wire {
            name: "TS.ADD"@,
            args: seq![
                ArgValue::Text(key),
                ArgValue::Integer(timestamp),
                ArgValue::Integer(value),
            ],
            reply: ReplyKind::Nothing,
        },
        Command::SetKey { key, token } => Wire {
            name: "SET"@,
            args: seq![ArgValue::Text(key), ArgValue::Integer(token as int)],
            reply: ReplyKind::Nothing,
        },
        Command::GetKey { key } => Wire {
            name: "GET"@,
            args: seq![ArgValue::Text(key)],
            reply: ReplyKind::Integer,
        },
        Command::DeleteKey { key } => Wire {
            name: "DEL"@,
            args: seq![ArgValue::Text(key)],
            reply: ReplyKind::Nothing,
        },
        Command::Quit => Wire { name: "QUIT"@, args: Seq::empty(), reply: ReplyKind::Nothing },
    }
}

impl StoreCommand {
    /// The command as it is sent.
    pub fn wire(&self) -> (wire: WireCommand)
        ensures
            wire@ == wire_of(self@),
    {
        let mut args: Vec<Arg> = Vec::new();
        match self {
            StoreCommand::QueryIndex { filter } => {
                args.push(Arg::Text(filter.clone()));
                assert(args.deep_view() =~= wire_of(self@).args);
                WireCommand {
                    name: String::from_str("TS.QUERYINDEX"),
                    args,
                    reply: ReplyKind::SeriesList,
                }
            },
            StoreCommand::CreateSeries { key, labels } => {
                args.push(Arg::Text(key.clone()));
                args.push(Arg::Text(String::from_str("LABELS")));
                let ghost head = args.deep_view();
                assert(head =~= seq![ArgValue::Text(key@), ArgValue::Text("LABELS"@)]);
                let n = labels.len();
                let mut i: usize = 0;
                while i < n
                    invariant
                        n == labels.len(),
                        i <= n,
                        head.len() == 2,
                        args.len() == 2 + 2 * i,
                        forall|k: int| 0 <= k < 2 ==> (#[trigger] args[k])@ == head[k],
                        forall|k: int|
                            2 <= k < 2 + 2 * i ==> (#[trigger] args[k])@ == label_args(
                                labels.deep_view(),
                            )[k - 2],
                    decreases n - i,
                {
                    args.push(Arg::Text(labels[i].name.clone()));
                    args.push(Arg::Text(labels[i].value.clone()));
                    i = i + 1;
                }
                assert(args.deep_view() =~= head + label_args(labels.deep_view()));
                WireCommand { name: String::from_str("TS.CREATE"), args, reply: ReplyKind::Nothing }
            },
            StoreCommand::SetLookup { key, entries } => {
                args.push(Arg::Text(key.clone()));
                let n = entries.len();
                let mut i: usize = 0;
                while i < n
                    invariant
                        n == entries.len(),
                        i <= n,
                        args.len() == 1 + 3 * i,
                        args[0]@ == ArgValue::Text(key@),
                        forall|k: int|
                            1 <= k < 1 + 3 * i ==> (#[trigger] args[k])@ == lookup_args(
                                entries.deep_view(),
                            )[k - 1],
                    decreases n - i,
                {
                    args.push(Arg::Text(entries[i].name.clone()));
                    args.push(Arg::Text(entries[i].unit.clone()));
                    args.push(Arg::Integer(entries[i].gain as i64));
                    i = i + 1;
                }
                assert(args.deep_view() =~= seq![ArgValue::Text(key@)] + lookup_args(
                    entries.deep_view(),
                ));
                WireCommand { name: String::from_str("HSET"), args, reply: ReplyKind::Nothing }
            },
            StoreCommand::AddSample { key, timestamp, value } => {
                args.push(Arg::Text(key.clone()));
                args.push(Arg::Integer(*timestamp));
                args.push(Arg::Integer(*value));
                assert(args.deep_view() =~= wire_of(self@).args);
                WireCommand { name: String::from_str("TS.ADD"), args, reply: ReplyKind::Nothing }
            },
            StoreCommand::SetKey { key, token } => {
                args.push(Arg::Text(key.clone()));
                args.push(Arg::Integer(*token as i64));
                assert(args.deep_view() =~= wire_of(self@).args);
                WireCommand { name: String::from_str("SET"), args, reply: ReplyKind::Nothing }
            },
            StoreCommand::GetKey { key } => {
                args.push(Arg::Text(key.clone()));
                assert(args.deep_view() =~= wire_of(self@).args);
                WireCommand { name: String::from_str("GET"), args, reply: ReplyKind::Integer }
            },
            StoreCommand::DeleteKey { key } => {
                args.push(Arg::Text(key.clone()));
                assert(args.deep_view() =~= wire_of(self@).args);
                WireCommand { name: String::from_str("DEL"), args, reply: ReplyKind::Nothing }
            },
            StoreCommand::Quit => {
                assert(args.deep_view() =~= wire_of(self@).args);
                WireCommand { name: String::from_str("QUIT"), args, reply: ReplyKind::Nothing }
            },
        }
    }
}

/// What can go wrong between this library and the store.
#[derive(Debug, Clone, Copy, PartialEq, Eq, Structural)]
pub enum StoreError {
    /// The store did not hand back the token that was written to it.
    SelfTestMismatch,
    /// The store refused a command, or could not be reached.
    CommandFailed,
}

/// Whether `category` is the key of one of the four groups.
pub open spec fn is_category(category: Seq<char>) -> bool {
    category == "general"@ || category == "storage"@ || category == "pgs"@ || category == "pv"@
}

/// The key of a signal's series: base key, category key and signal name,
/// joined by colons.
pub open spec fn series_key(base: Seq<char>, category: Seq<char>, name: Seq<char>) -> Seq<char> {
    base + ":"@ + category + ":"@ + name
}

/// The key of the lookup table.
pub open spec fn lookup_key(base: Seq<char>) -> Seq<char> {
    base + ":lookup"@
}

/// The filter that selects the series of one device.
pub open spec fn index_filter(base: Seq<char>) -> Seq<char> {
    "base="@ + base
}

/// The labels of every series of a category.
pub open spec fn series_labels(base: Seq<char>, category: Seq<char>) -> Seq<LabelPair> {
    seq![
        LabelPair { name: "base"@, value: base },
        LabelPair { name: "type"@, value: "solar"@ },
        LabelPair { name: "data"@, value: category },
    ]
}

/// The command that creates the series of one signal.
pub open spec fn create_command(base: Seq<char>, category: Seq<char>, s: SignalReading) -> Command {
    Command::CreateSeries {
        key: series_key(base, category, s.name),
        labels: series_labels(base, category),
    }
}

/// The commands that create the series of a group: one per signal, in order.
pub open spec fn create_commands(
    base: Seq<char>,
    category: Seq<char>,
    signals: Seq<SignalReading>,
) -> Seq<Command> {
    Seq::new(signals.len(), |i: int| create_command(base, category, signals[i]))
}

/// The sample that a reading contributes: its integer at its time for a
/// numeric reading, nothing for text and untyped ones.
pub open spec fn sample_command(base: Seq<char>, category: Seq<char>, s: SignalReading) -> Option<
    Command,
> {
    match s.data.raw() {
        Some(v) => Some(
            Command::AddSample {
                key: series_key(base, category, s.name),
                timestamp: s.time as int,
                value: v,
            },
        ),
        None => None,
    }
}

/// [`sample_command`] with the keys fixed.
pub open spec fn sample_of(base: Seq<char>, category: Seq<char>) -> spec_fn(SignalReading) -> Option<
    Command,
> {
    |s: SignalReading| sample_command(base, category, s)
}

/// The samples of a group: one per numeric reading, in order.
pub open spec fn sample_commands(
    base: Seq<char>,
    category: Seq<char>,
    signals: Seq<SignalReading>,
) -> Seq<Command> {
    signals.filter_map(sample_of(base, category))
}

/// The row of one signal in the lookup table.
pub open spec fn lookup_row(s: SignalReading) -> LookupRow {
    LookupRow { name: s.name, unit: s.unit, gain: s.gain }
}

/// The rows of a group, in order.
pub open spec fn lookup_rows(signals: Seq<SignalReading>) -> Seq<LookupRow> {
    Seq::new(signals.len(), |i: int| lookup_row(signals[i]))
}

/// Whether a reading is numeric.
pub open spec fn is_numeric() -> spec_fn(SignalReading) -> bool {
    |s: SignalReading| s.data.is_numeric()
}

/// The number of numeric readings in a group.
pub open spec fn numeric_count(signals: Seq<SignalReading>) -> nat {
    signals.filter(is_numeric()).len()
}

/// Within one category, two signals have the same key only if they have the
/// same name.
pub proof fn lemma_series_key_injective(
    base: Seq<char>,
    category: Seq<char>,
    a: Seq<char>,
    b: Seq<char>,
)
    requires
        series_key(base, category, a) == series_key(base, category, b),
    ensures
        a == b,
{
    let prefix = base + ":"@ + category + ":"@;
    assert(series_key(base, category, a).len() == prefix.len() + a.len());
    assert(series_key(base, category, b).len() == prefix.len() + b.len());
    assert forall|i: int| 0 <= i < a.len() implies a[i] == b[i] by {
        assert(series_key(base, category, a)[prefix.len() + i] == a[i]);
        assert(series_key(base, category, b)[prefix.len() + i] == b[i]);
    }
    assert(a =~= b);
}

/// Signals of two different groups never have the same key, whatever their
/// names are.
pub proof fn lemma_series_keys_of_groups_differ(
    base: Seq<char>,
    first: Seq<char>,
    second: Seq<char>,
    a: Seq<char>,
    b: Seq<char>,
)
    requires
        is_category(first),
        is_category(second),
        first != second,
    ensures
        series_key(base, first, a) != series_key(base, second, b),
{
    reveal_strlit(":");
    reveal_strlit("general");
    reveal_strlit("storage");
    reveal_strlit("pgs");
    reveal_strlit("pv");
    let at = base.len() as int + 1;
    let one = series_key(base, first, a);
    let other = series_key(base, second, b);
    assert(one[at] == first[0] && one[at + 1] == first[1]);
    assert(other[at] == second[0] && other[at + 1] == second[1]);
}

/// Exactly one sample per numeric reading, and none for the others: a
/// reading gives a sample if and only if it is numeric, and the samples of a
/// group are as many as its numeric readings.
pub proof fn lemma_one_sample_per_numeric_reading(
    base: Seq<char>,
    category: Seq<char>,
    signals: Seq<SignalReading>,
)
    ensures
        forall|s: SignalReading| #[trigger]
            sample_command(base, category, s) is Some <==> s.data.is_numeric(),
        sample_commands(base, category, signals).len() == numeric_count(signals),
        forall|i: int|
            0 <= i < sample_commands(base, category, signals).len() ==> (#[trigger] sample_commands(
                base,
                category,
                signals,
            )[i]) is AddSample,
    decreases signals.len(),
{
    reveal(Seq::filter);
    if signals.len() > 0 {
        lemma_one_sample_per_numeric_reading(base, category, signals.drop_last());
    }
}

/// The first half of the connectivity self-test: write the token under the
/// key `ping`, then read that key.
pub open spec fn ping_commands(token: u32) -> Seq<Command> {
    seq![Command::SetKey { key: "ping"@, token }, Command::GetKey { key: "ping"@ }]
}

/// The second half of the self-test: delete the key and end the session.
pub open spec fn ping_cleanup() -> Seq<Command> {
    seq![Command::DeleteKey { key: "ping"@ }, Command::Quit]
}

/// The commands that write `token` to the store and read it back.
pub fn self_test_commands(token: u32) -> (commands: Vec<StoreCommand>)
    ensures
        commands.deep_view() == ping_commands(token),
{
    let mut commands: Vec<StoreCommand> = Vec::new();
    commands.push(StoreCommand::SetKey { key: String::from_str("ping"), token });
    commands.push(StoreCommand::GetKey { key: String::from_str("ping") });
    assert(commands.deep_view() =~= ping_commands(token));
    commands
}

/// Judges the self-test: the store passes when it handed back the token that
/// was written. Then the key is deleted and the session ended.
pub fn self_test_verdict(token: u32, echoed: u32) -> (res: Result<Vec<StoreCommand>, StoreError>)
    ensures
        echoed == token ==> res is Ok && res->Ok_0.deep_view() == ping_cleanup(),
        echoed != token ==> res == Err::<Vec<StoreCommand>, StoreError>(
            StoreError::SelfTestMismatch,
        ),
{
    if echoed != token {
        return Err(StoreError::SelfTestMismatch);
    }
    let mut commands: Vec<StoreCommand> = Vec::new();
    commands.push(StoreCommand::DeleteKey { key: String::from_str("ping") });
    commands.push(StoreCommand::Quit);
    assert(commands.deep_view() =~= ping_cleanup());
    Ok(commands)
}

/// The result of a pass over the store from the results of its commands,
/// one flag per command that was sent: every command is tried, and the pass
/// has failed once any of them has.
pub fn pass_result(succeeded: &Vec<bool>) -> (res: Result<(), StoreError>)
    ensures
        res is Ok <==> forall|i: int| 0 <= i < succeeded.len() ==> succeeded[i],
        res is Err ==> res == Err::<(), StoreError>(StoreError::CommandFailed),
{
    let n = succeeded.len();
    let mut i: usize = 0;
    while i < n
        invariant
            n == succeeded.len(),
            i <= n,
            forall|k: int| 0 <= k < i ==> succeeded[k],
        decreases n - i,
    {
        if !succeeded[i] {
            return Err(StoreError::CommandFailed);
        }
        i = i + 1;
    }
    Ok(())
}

/// Builds the key of a signal's series.
pub fn build_series_key(base_key: &str, cat_key: &str, name: &str) -> (key: String)
    ensures
        key@ == series_key(base_key@, cat_key@, name@),
{
    let mut key = String::from_str(base_key);
    key.append(":");
    key.append(cat_key);
    key.append(":");
    key.append(name);
    key
}

/// Builds the key of the lookup table.
pub fn build_lookup_key(base_key: &str) -> (key: String)
    ensures
        key@ == lookup_key(base_key@),
{
    let mut key = String::from_str(base_key);
    key.append(":lookup");
    key
}

/// The command that asks the store which series of this device exist.
pub fn probe(base_key: &str) -> (cmd: StoreCommand)
    ensures
        cmd@ == (Command::QueryIndex { filter: index_filter(base_key@) }),
{
    let mut filter = String::from_str("base=");
    filter.append(base_key);
    StoreCommand::QueryIndex { filter }
}

/// Builds the labels of a series.
pub fn build_labels(base_key: &str, cat_key: &str) -> (labels: Vec<Label>)
    ensures
        labels.deep_view() == series_labels(base_key@, cat_key@),
{
    let mut labels: Vec<Label> = Vec::new();
    labels.push(Label { name: String::from_str("base"), value: String::from_str(base_key) });
    labels.push(Label { name: String::from_str("type"), value: String::from_str("solar") });
    labels.push(Label { name: String::from_str("data"), value: String::from_str(cat_key) });
    assert(labels.deep_view() =~= series_labels(base_key@, cat_key@));
    labels
}

/// Adds to `out` the commands that create the series of a group.
pub fn push_creates(
    out: &mut Vec<StoreCommand>,
    base_key: &str,
    cat_key: &str,
    base_data: &Vec<PVSignal>,
)
    ensures
        final(out).deep_view() == old(out).deep_view() + create_commands(
            base_key@,
            cat_key@,
            base_data.deep_view(),
        ),
{
    let n = base_data.len();
    let mut i: usize = 0;
    while i < n
        invariant
            n == base_data.len(),
            i <= n,
            out.deep_view() == old(out).deep_view() + create_commands(
                base_key@,
                cat_key@,
                base_data.deep_view().take(i as int),
            ),
        decreases n - i,
    {
        let ghost before = out.deep_view();
        let cmd = StoreCommand::CreateSeries {
            key: build_series_key(base_key, cat_key, base_data[i].name.as_str()),
            labels: build_labels(base_key, cat_key),
        };
        out.push(cmd);
        proof {
            assert(cmd@ == create_command(base_key@, cat_key@, base_data.deep_view()[i as int]));
            assert(out.deep_view() =~= before.push(cmd@));
            assert(create_commands(
                base_key@,
                cat_key@,
                base_data.deep_view().take(i as int + 1),
            ) =~= create_commands(base_key@, cat_key@, base_data.deep_view().take(i as int)).push(
                cmd@,
            ));
        }
        i = i + 1;
    }
    assert(base_data.deep_view().take(n as int) =~= base_data.deep_view());
}

/// The sample that signal `i` of a group contributes, if it is numeric.
pub fn sort_data_redis(i: usize, base_key: &String, cat_key: String, base_data: &Vec<PVSignal>) -> (cmd:
    Option<StoreCommand>)
    requires
        i < base_data.len(),
    ensures
        cmd.deep_view() == sample_command(base_key@, cat_key@, base_data[i as int]@),
{
    let signal = &base_data[i];
    match signal.data.raw_value() {
        Some(value) => Some(
            StoreCommand::AddSample {
                key: build_series_key(base_key.as_str(), cat_key.as_str(), signal.name.as_str()),
                timestamp: signal.time,
                value,
            },
        ),
        None => None,
    }
}

/// Adds to `out` the samples of a group.
pub fn push_samples(
    out: &mut Vec<StoreCommand>,
    base_key: &String,
    cat_key: &str,
    base_data: &Vec<PVSignal>,
)
    ensures
        final(out).deep_view() == old(out).deep_view() + sample_commands(
            base_key@,
            cat_key@,
            base_data.deep_view(),
        ),
{
    let n = base_data.len();
    let mut i: usize = 0;
    while i < n
        invariant
            n == base_data.len(),
            i <= n,
            out.deep_view() == old(out).deep_view() + sample_commands(
                base_key@,
                cat_key@,
                base_data.deep_view().take(i as int),
            ),
        decreases n - i,
    {
        let ghost before = out.deep_view();
        proof {
            base_data.deep_view().lemma_filter_map_take_succ(
                sample_of(base_key@, cat_key@),
                i as int,
            );
        }
        match sort_data_redis(i, base_key, String::from_str(cat_key), base_data) {
            Some(cmd) => {
                out.push(cmd);
                assert(out.deep_view() =~= before.push(cmd@));
            },
            None => {},
        }
        assert(out.deep_view() =~= old(out).deep_view() + sample_commands(
            base_key@,
            cat_key@,
            base_data.deep_view().take(i as int + 1),
        ));
        i = i + 1;
    }
    assert(base_data.deep_view().take(n as int) =~= base_data.deep_view());
}

/// Adds to `out` the lookup rows of a group.
pub fn push_lookup_rows(out: &mut Vec<LookupEntry>, base_data: &Vec<PVSignal>)
    ensures
        final(out).deep_view() == old(out).deep_view() + lookup_rows(base_data.deep_view()),
{
    let n = base_data.len();
    let mut i: usize = 0;
    while i < n
        invariant
            n == base_data.len(),
            i <= n,
            out.deep_view() == old(out).deep_view() + lookup_rows(
                base_data.deep_view().take(i as int),
            ),
        decreases n - i,
    {
        let ghost before = out.deep_view();
        let entry = lookup_entry(&base_data[i]);
        out.push(entry);
        proof {
            assert(out.deep_view() =~= before.push(entry@));
            assert(lookup_rows(base_data.deep_view().take(i as int + 1)) =~= lookup_rows(
                base_data.deep_view().take(i as int),
            ).push(entry@));
        }
        i = i + 1;
    }
    assert(base_data.deep_view().take(n as int) =~= base_data.deep_view());
}

/// The lookup row of one signal.
pub fn lookup_entry(signal: &PVSignal) -> (entry: LookupEntry)
    ensures
        entry@ == lookup_row(signal@),
{
    LookupEntry { name: signal.name.clone(), unit: signal.unit.clone(), gain: signal.gain }
}

} // verus!
