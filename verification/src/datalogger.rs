//! The data logger: the catalog of one device, the readings that each poll
//! cycle stores in it, and the commands that keep the time-series store in
//! step with it.

use vstd::prelude::*;
use vstd::string::StringExecFns;
use crate::fieldbus::{
    read_outcome, read_requests, requests_of, store_reads, Fetched, ReadRequest, RegisterRead,
};
use crate::parser::types::{PVSignal, PVString, SignalReading, StringReading};
use crate::registers::DecodeError;
use crate::parser::{
    const_signals, gen_constdata, gen_pvdata, gen_storagedata, pv_strings, storage_fits,
    storage_signals,
};
use crate::parser::types::Root;
use crate::store::{
    build_lookup_key, create_commands, is_category, lemma_series_key_injective,
    lemma_series_keys_of_groups_differ, lookup_key, lookup_rows, ping_commands, push_creates,
    push_lookup_rows, push_samples, sample_commands, self_test_commands, series_key, Command,
    LookupEntry, StoreCommand,
};

verus! {

/// The signals of all PV strings in the order in which they are read:
/// voltage, then current, string by string.
pub open spec fn voltage_first(pvs: Seq<StringReading>) -> Seq<SignalReading> {
    Seq::new(
        2 * pvs.len(),
        |k: int|
            if k % 2 == 0 {
                pvs[k / 2].voltage
            } else {
                pvs[k / 2].current
            },
    )
}

/// The signals of all PV strings in the order of the lookup table: current,
/// then voltage, string by string.
pub open spec fn current_first(pvs: Seq<StringReading>) -> Seq<SignalReading> {
    Seq::new(
        2 * pvs.len(),
        |k: int|
            if k % 2 == 0 {
                pvs[k / 2].current
            } else {
                pvs[k / 2].voltage
            },
    )
}

/// The category of the constant fields that belong to the general group.
pub const GENERAL_CATEGORY: u8 = 0;

/// The names of a group, in order.
pub open spec fn names(signals: Seq<SignalReading>) -> Seq<Seq<char>> {
    Seq::new(signals.len(), |i: int| signals[i].name)
}

/// The PV strings that a series of signals makes, two by two.
pub open spec fn paired(signals: Seq<SignalReading>) -> Seq<StringReading> {
    Seq::new(
        signals.len() / 2,
        |i: int| StringReading { voltage: signals[2 * i], current: signals[2 * i + 1] },
    )
}

/// Model of [`DataLogger`]: the groups of the catalog with their readings.
pub struct Catalog {
    pub pvs: Seq<StringReading>,
    pub general: Seq<SignalReading>,
    pub pgs: Seq<SignalReading>,
    pub storage: Seq<SignalReading>,
}

impl Catalog {
    /// The catalog without signals.
    pub open spec fn empty() -> Catalog {
        Catalog {
            pvs: Seq::empty(),
            general: Seq::empty(),
            pgs: Seq::empty(),
            storage: Seq::empty(),
        }
    }

    /// The number of series that the store holds once it is provisioned: one
    /// per signal of every group, two per PV string.
    pub open spec fn expected_series(self) -> nat {
        self.general.len() + self.storage.len() + self.pgs.len() + 2 * self.pvs.len()
    }

    /// One create command per signal of the catalog.
    pub open spec fn creates(self, base: Seq<char>) -> Seq<Command> {
        create_commands(base, "general"@, self.general) + create_commands(
            base,
            "storage"@,
            self.storage,
        ) + create_commands(base, "pgs"@, self.pgs) + create_commands(
            base,
            "pv"@,
            voltage_first(self.pvs),
        )
    }

    /// Whether no group holds two signals of one name.
    pub open spec fn names_distinct(self) -> bool {
        &&& names(self.general).no_duplicates()
        &&& names(self.storage).no_duplicates()
        &&& names(self.pgs).no_duplicates()
        &&& names(voltage_first(self.pvs)).no_duplicates()
    }

    /// The category and the name of the signal whose series is created as
    /// number `i`.
    pub open spec fn series_at(self, i: int) -> (Seq<char>, Seq<char>) {
        let g = self.general.len();
        let s = self.storage.len();
        let p = self.pgs.len();
        if i < g {
            ("general"@, self.general[i].name)
        } else if i < g + s {
            ("storage"@, self.storage[i - g].name)
        } else if i < g + s + p {
            ("pgs"@, self.pgs[i - g - s].name)
        } else {
            ("pv"@, voltage_first(self.pvs)[i - g - s - p].name)
        }
    }

    /// The keys of the series of the catalog, in the order of their create
    /// commands.
    pub open spec fn series_keys(self, base: Seq<char>) -> Seq<Seq<char>> {
        Seq::new(self.creates(base).len(), |i: int| self.creates(base)[i]->CreateSeries_key)
    }

    /// The provisioning pass, given the number of series that the store
    /// reported: nothing when the count is the expected one, else one create
    /// command per signal.
    pub open spec fn provisioning(self, base: Seq<char>, found: nat) -> Seq<Command> {
        if found == self.expected_series() {
            Seq::empty()
        } else {
            self.creates(base)
        }
    }

    /// The command that rewrites the lookup table in full.
    pub open spec fn lookup(self, base: Seq<char>) -> Command {
        Command::SetLookup {
            key: lookup_key(base),
            entries: lookup_rows(self.general) + lookup_rows(self.storage) + lookup_rows(self.pgs)
                + lookup_rows(current_first(self.pvs)),
        }
    }

    /// One sample per numeric reading of the catalog.
    pub open spec fn samples(self, base: Seq<char>) -> Seq<Command> {
        sample_commands(base, "general"@, self.general) + sample_commands(
            base,
            "storage"@,
            self.storage,
        ) + sample_commands(base, "pgs"@, self.pgs) + sample_commands(
            base,
            "pv"@,
            voltage_first(self.pvs),
        )
    }

    /// The catalog after the answers `reads` were stored in the general
    /// group.
    pub open spec fn read_general(self, reads: Seq<Fetched>) -> Result<Catalog, DecodeError> {
        match read_outcome(self.general, reads) {
            Ok(readings) => Ok(Catalog { general: readings, ..self }),
            Err(e) => Err(e),
        }
    }

    /// The catalog after the answers `reads` were stored in the storage
    /// group.
    pub open spec fn read_storage(self, reads: Seq<Fetched>) -> Result<Catalog, DecodeError> {
        match read_outcome(self.storage, reads) {
            Ok(readings) => Ok(Catalog { storage: readings, ..self }),
            Err(e) => Err(e),
        }
    }

    /// The catalog after the answers `reads` were stored in the PV strings:
    /// the answers come voltage first, string by string.
    pub open spec fn read_pv(self, reads: Seq<Fetched>) -> Result<Catalog, DecodeError> {
        match read_outcome(voltage_first(self.pvs), reads) {
            Ok(readings) => Ok(Catalog { pvs: paired(readings), ..self }),
            Err(e) => Err(e),
        }
    }

    /// Everything that one cycle sends after the probe: the provisioning pass,
    /// the lookup table, the samples, and the end of the session.
    pub open spec fn cycle(self, base: Seq<char>, found: nat) -> Seq<Command> {
        self.provisioning(base, found).push(self.lookup(base)) + self.samples(base).push(
            Command::Quit,
        )
    }
}

/// The series that a plan creates.
pub open spec fn created_keys(plan: Seq<Command>) -> Set<Seq<char>> {
    Set::new(
        |key: Seq<char>|
            exists|i: int|
                0 <= i < plan.len() && (#[trigger] plan[i]) is CreateSeries
                    && plan[i]->CreateSeries_key == key,
    )
}

/// The series of a store after a plan ran on it.
pub open spec fn store_after(store: Set<Seq<char>>, plan: Seq<Command>) -> Set<Seq<char>> {
    store.union(created_keys(plan))
}

/// A store that reports the expected number of series gets no create
/// command; any other count gets one per signal of the catalog.
pub proof fn lemma_provisioning_by_count(catalog: Catalog, base: Seq<char>, found: nat)
    ensures
        found == catalog.expected_series() ==> catalog.provisioning(base, found).len() == 0,
        found != catalog.expected_series() ==> catalog.provisioning(base, found).len()
            == catalog.expected_series(),
        forall|i: int|
            0 <= i < catalog.provisioning(base, found).len() ==> (#[trigger] catalog.provisioning(
                base,
                found,
            )[i]) is CreateSeries,
{
}

/// Where no group holds two signals of one name, no two series of the
/// catalog have the same key.
pub proof fn lemma_series_keys_distinct(catalog: Catalog, base: Seq<char>)
    requires
        catalog.names_distinct(),
    ensures
        catalog.series_keys(base).len() == catalog.expected_series(),
        catalog.series_keys(base).no_duplicates(),
{
    let keys = catalog.series_keys(base);
    let g = catalog.general.len() as int;
    let s = catalog.storage.len() as int;
    let p = catalog.pgs.len() as int;
    assert forall|i: int| 0 <= i < keys.len() implies #[trigger] keys[i] == series_key(
        base,
        catalog.series_at(i).0,
        catalog.series_at(i).1,
    ) && is_category(catalog.series_at(i).0) by {}
    assert forall|i: int, j: int| 0 <= i < keys.len() && 0 <= j < keys.len() && i != j implies keys[i]
        != keys[j] by {
        let (first, a) = catalog.series_at(i);
        let (second, b) = catalog.series_at(j);
        assert(keys[i] == series_key(base, first, a));
        assert(keys[j] == series_key(base, second, b));
        if first != second {
            lemma_series_keys_of_groups_differ(base, first, second, a, b);
        } else {
            reveal_strlit("general");
            reveal_strlit("storage");
            reveal_strlit("pgs");
            reveal_strlit("pv");
            assert("general"@[0] != "storage"@[0]);
            assert("general"@.len() == 7 && "pgs"@.len() == 3 && "pv"@.len() == 2);
            if i < g {
                assert(j < g);
                assert(names(catalog.general)[i] != names(catalog.general)[j]);
            } else if i < g + s {
                assert(g <= j < g + s);
                assert(names(catalog.storage)[i - g] != names(catalog.storage)[j - g]);
            } else if i < g + s + p {
                assert(g + s <= j < g + s + p);
                assert(names(catalog.pgs)[i - g - s] != names(catalog.pgs)[j - g - s]);
            } else {
                assert(g + s + p <= j);
                assert(names(voltage_first(catalog.pvs))[i - g - s - p] != names(
                    voltage_first(catalog.pvs),
                )[j - g - s - p]);
            }
            assert(a != b);
            if keys[i] == keys[j] {
                lemma_series_key_injective(base, first, a, b);
            }
        }
    }
}

/// Provisioning twice creates nothing the second time. Of a catalog in which
/// no group holds two signals of one name, and of a store that holds no
/// series but those of the catalog: after one pass on what the store
/// reported, the store holds every series, and the next pass is empty.
pub proof fn lemma_second_pass_creates_nothing(
    catalog: Catalog,
    base: Seq<char>,
    store: Set<Seq<char>>,
)
    requires
        catalog.names_distinct(),
        store.finite(),
        store.subset_of(catalog.series_keys(base).to_set()),
    ensures
        ({
            let after = store_after(store, catalog.provisioning(base, store.len()));
            &&& after.finite()
            &&& store.len() != catalog.expected_series() ==> after == catalog.series_keys(
                base,
            ).to_set()
            &&& after.len() == catalog.expected_series()
            &&& catalog.provisioning(base, after.len()).len() == 0
        }),
{
    let keys = catalog.series_keys(base);
    let plan = catalog.provisioning(base, store.len());
    lemma_series_keys_distinct(catalog, base);
    if store.len() == catalog.expected_series() {
        assert(created_keys(plan) =~= Set::<Seq<char>>::empty());
        assert(store_after(store, plan) =~= store);
    } else {
        assert forall|key: Seq<char>| created_keys(plan).contains(key) implies keys.to_set().contains(
            key,
        ) by {
            let i = choose|i: int|
                0 <= i < plan.len() && (#[trigger] plan[i]) is CreateSeries
                    && plan[i]->CreateSeries_key == key;
            assert(keys[i] == key);
        }
        assert forall|key: Seq<char>| keys.to_set().contains(key) implies created_keys(
            plan,
        ).contains(key) by {
            let i = choose|i: int| 0 <= i < keys.len() && keys[i] == key;
            assert(plan[i] is CreateSeries && plan[i]->CreateSeries_key == key);
        }
        assert(created_keys(plan) =~= keys.to_set());
        assert(store_after(store, plan) =~= keys.to_set());
        keys.unique_seq_to_set();
    }
}

/// The catalog of one device with the readings of the last poll cycle.
#[derive(Debug)]
pub struct DataLogger {
    pvs: Vec<PVString>,
    general_data: Vec<PVSignal>,
    pgs_data: Vec<PVSignal>,
    storage_data: Vec<PVSignal>,
}

impl View for DataLogger {
    type V = Catalog;

    closed spec fn view(&self) -> Catalog {
        Catalog {
            pvs: self.pvs.deep_view(),
            general: self.general_data.deep_view(),
            pgs: self.pgs_data.deep_view(),
            storage: self.storage_data.deep_view(),
        }
    }
}

/// The signals of `pvs`, voltage before current.
pub fn signals_voltage_first(pvs: &Vec<PVString>) -> (out: Vec<PVSignal>)
    ensures
        out.deep_view() == voltage_first(pvs.deep_view()),
{
    let mut out: Vec<PVSignal> = Vec::new();
    let n = pvs.len();
    let mut i: usize = 0;
    while i < n
        invariant
            n == pvs.len(),
            i <= n,
            out.len() == 2 * i,
            forall|k: int|
                0 <= k < 2 * i ==> (#[trigger] out[k])@ == voltage_first(pvs.deep_view())[k],
        decreases n - i,
    {
        out.push(pvs[i].voltage.clone());
        out.push(pvs[i].current.clone());
        i = i + 1;
    }
    assert(out.deep_view() =~= voltage_first(pvs.deep_view()));
    out
}

/// The signals of `pvs`, current before voltage.
pub fn signals_current_first(pvs: &Vec<PVString>) -> (out: Vec<PVSignal>)
    ensures
        out.deep_view() == current_first(pvs.deep_view()),
{
    let mut out: Vec<PVSignal> = Vec::new();
    let n = pvs.len();
    let mut i: usize = 0;
    while i < n
        invariant
            n == pvs.len(),
            i <= n,
            out.len() == 2 * i,
            forall|k: int|
                0 <= k < 2 * i ==> (#[trigger] out[k])@ == current_first(pvs.deep_view())[k],
        decreases n - i,
    {
        out.push(pvs[i].current.clone());
        out.push(pvs[i].voltage.clone());
        i = i + 1;
    }
    assert(out.deep_view() =~= current_first(pvs.deep_view()));
    out
}

/// The PV strings that `signals` make, two by two.
pub fn pair_signals(signals: &Vec<PVSignal>) -> (pvs: Vec<PVString>)
    ensures
        pvs.deep_view() == paired(signals.deep_view()),
{
    let mut pvs: Vec<PVString> = Vec::new();
    let n = signals.len() / 2;
    let mut i: usize = 0;
    while i < n
        invariant
            n == signals.len() / 2,
            i <= n,
            pvs.len() == i,
            forall|k: int| 0 <= k < i ==> (#[trigger] pvs[k])@ == paired(signals.deep_view())[k],
        decreases n - i,
    {
        pvs.push(
            PVString { voltage: signals[2 * i].clone(), current: signals[2 * i + 1].clone() },
        );
        i = i + 1;
    }
    assert(pvs.deep_view() =~= paired(signals.deep_view()));
    pvs
}

/// `rand::thread_rng` and `Rng::gen`: a number drawn from the thread's
/// generator. Nothing is claimed of the number. The call panics where the
/// operating system gives the generator no seed.
#[verifier::external_body]
fn random_token() -> u32 {
    rand::Rng::gen::<u32>(&mut rand::thread_rng())
}

impl DataLogger {
    /// A logger with an empty catalog.
    pub fn new() -> (logger: DataLogger)
        ensures
            logger@ == Catalog::empty(),
    {
        let logger = DataLogger {
            pvs: Vec::new(),
            general_data: Vec::new(),
            pgs_data: Vec::new(),
            storage_data: Vec::new(),
        };
        assert(logger@.pvs =~= Seq::empty() && logger@.general =~= Seq::empty() && logger@.pgs
            =~= Seq::empty() && logger@.storage =~= Seq::empty());
        logger
    }

    /// Builds the catalog from the definition source and the number of PV
    /// strings that the device reported: the strings' signals, the general
    /// group and the storage group. Every reading starts at its placeholder.
    pub fn init(&mut self, defs: &Root, num_pvs: u16)
        requires
            storage_fits(defs@),
        ensures
            final(self)@ == (Catalog {
                pvs: pv_strings((num_pvs % 256) as u8),
                general: const_signals(defs@.const_field, GENERAL_CATEGORY),
                pgs: old(self)@.pgs,
                storage: storage_signals(defs@),
            }),
    {
        assert(num_pvs as u8 == num_pvs % 256) by (bit_vector);
        self.pvs = gen_pvdata(num_pvs as u8);
        self.general_data = gen_constdata(defs, GENERAL_CATEGORY);
        self.storage_data = gen_storagedata(defs);
    }

    /// Draws a token for the connectivity self-test of the store, and gives
    /// the commands that write it and read it back.
    pub fn _test_redis(&self) -> (test: (u32, Vec<StoreCommand>))
        ensures
            test.1.deep_view() == ping_commands(test.0),
    {
        let token = random_token();
        (token, self_test_commands(token))
    }

    /// The requests that fetch the general group.
    pub fn general_requests(&self) -> (requests: Vec<ReadRequest>)
        ensures
            requests@ == requests_of(self@.general),
    {
        read_requests(&self.general_data)
    }

    /// The requests that fetch the storage group.
    pub fn storage_requests(&self) -> (requests: Vec<ReadRequest>)
        ensures
            requests@ == requests_of(self@.storage),
    {
        read_requests(&self.storage_data)
    }

    /// The requests that fetch the PV strings: voltage, then current, string
    /// by string.
    pub fn pv_requests(&self) -> (requests: Vec<ReadRequest>)
        ensures
            requests@ == requests_of(voltage_first(self@.pvs)),
    {
        read_requests(&signals_voltage_first(&self.pvs))
    }

    /// Stores the answers of one poll of the general group.
    pub fn _read_general_data(&mut self, reads: &Vec<RegisterRead>) -> (res: Result<
        (),
        DecodeError,
    >)
        ensures
            match old(self)@.read_general(reads.deep_view()) {
                Ok(catalog) => res is Ok && final(self)@ == catalog,
                Err(e) => res == Err::<(), DecodeError>(e) && final(self)@ == old(self)@,
            },
    {
        store_reads(&mut self.general_data, reads)
    }

    /// Stores the answers of one poll of the storage group.
    pub fn _read_storage_data(&mut self, reads: &Vec<RegisterRead>) -> (res: Result<
        (),
        DecodeError,
    >)
        ensures
            match old(self)@.read_storage(reads.deep_view()) {
                Ok(catalog) => res is Ok && final(self)@ == catalog,
                Err(e) => res == Err::<(), DecodeError>(e) && final(self)@ == old(self)@,
            },
    {
        store_reads(&mut self.storage_data, reads)
    }

    /// Stores the answers of one poll of the PV strings.
    pub fn _read_pv_data(&mut self, reads: &Vec<RegisterRead>) -> (res: Result<(), DecodeError>)
        ensures
            match old(self)@.read_pv(reads.deep_view()) {
                Ok(catalog) => res is Ok && final(self)@ == catalog,
                Err(e) => res == Err::<(), DecodeError>(e) && final(self)@ == old(self)@,
            },
    {
        let mut signals = signals_voltage_first(&self.pvs);
        match store_reads(&mut signals, reads) {
            Err(e) => Err(e),
            Ok(()) => {
                self.pvs = pair_signals(&signals);
                Ok(())
            },
        }
    }

    /// Stores the answers of one poll cycle: the general group, then the
    /// storage group, then the PV strings. The first group that fails ends
    /// the cycle; the groups before it keep what was stored in them.
    pub fn read_data(
        &mut self,
        general: &Vec<RegisterRead>,
        storage: &Vec<RegisterRead>,
        pv: &Vec<RegisterRead>,
    ) -> (res: Result<(), DecodeError>)
        ensures
            match old(self)@.read_general(general.deep_view()) {
                Err(e) => res == Err::<(), DecodeError>(e) && final(self)@ == old(self)@,
                Ok(first) => match first.read_storage(storage.deep_view()) {
                    Err(e) => res == Err::<(), DecodeError>(e) && final(self)@ == first,
                    Ok(second) => match second.read_pv(pv.deep_view()) {
                        Err(e) => res == Err::<(), DecodeError>(e) && final(self)@ == second,
                        Ok(third) => res is Ok && final(self)@ == third,
                    },
                },
            },
    {
        match self._read_general_data(general) {
            Err(e) => {
                return Err(e);
            },
            Ok(()) => {},
        }
        match self._read_storage_data(storage) {
            Err(e) => {
                return Err(e);
            },
            Ok(()) => {},
        }
        self._read_pv_data(pv)
    }

    pub fn _get_pvs(&self) -> (pvs: &Vec<PVString>)
        ensures
            pvs.deep_view() == self@.pvs,
    {
        &self.pvs
    }

    pub fn _get_general_data(&self) -> (signals: &Vec<PVSignal>)
        ensures
            signals.deep_view() == self@.general,
    {
        &self.general_data
    }

    pub fn _get_storage_data(&self) -> (signals: &Vec<PVSignal>)
        ensures
            signals.deep_view() == self@.storage,
    {
        &self.storage_data
    }

    /// Whether the store, which reported `series_found` series of this
    /// device, has to be provisioned: the count is all that is compared.
    pub fn needs_provisioning(&self, series_found: usize) -> (needed: bool)
        ensures
            needed == (series_found as nat != self@.expected_series()),
    {
        let expected: u128 = self.general_data.len() as u128 + self.storage_data.len() as u128
            + self.pgs_data.len() as u128 + 2 * (self.pvs.len() as u128);
        series_found as u128 != expected
    }

    /// The commands of one cycle, after the store answered the probe with
    /// `series_found` series: the provisioning pass where the count differs
    /// from the expected one, the lookup table, one sample per numeric
    /// reading, and the end of the session.
    pub fn send_data(&self, base_key: String, series_found: usize) -> (commands: Vec<StoreCommand>)
        ensures
            commands.deep_view() == self@.cycle(base_key@, series_found as nat),
    {
        let mut commands: Vec<StoreCommand> = Vec::new();
        let pv_signals = signals_voltage_first(&self.pvs);
        assert(commands.deep_view() =~= Seq::<Command>::empty());
        if self.needs_provisioning(series_found) {
            push_creates(&mut commands, base_key.as_str(), "general", &self.general_data);
            push_creates(&mut commands, base_key.as_str(), "storage", &self.storage_data);
            push_creates(&mut commands, base_key.as_str(), "pgs", &self.pgs_data);
            push_creates(&mut commands, base_key.as_str(), "pv", &pv_signals);
            assert(commands.deep_view() =~= self@.creates(base_key@));
        }
        assert(commands.deep_view() == self@.provisioning(base_key@, series_found as nat));

        let mut entries: Vec<LookupEntry> = Vec::new();
        push_lookup_rows(&mut entries, &self.general_data);
        push_lookup_rows(&mut entries, &self.storage_data);
        push_lookup_rows(&mut entries, &self.pgs_data);
        push_lookup_rows(&mut entries, &signals_current_first(&self.pvs));
        let lookup = StoreCommand::SetLookup { key: build_lookup_key(base_key.as_str()), entries };
        assert(lookup@->entries =~= self@.lookup(base_key@)->entries);
        let ghost before_lookup = commands.deep_view();
        commands.push(lookup);
        assert(commands.deep_view() =~= before_lookup.push(lookup@));
        let ghost head = commands.deep_view();

        push_samples(&mut commands, &base_key, "general", &self.general_data);
        push_samples(&mut commands, &base_key, "storage", &self.storage_data);
        push_samples(&mut commands, &base_key, "pgs", &self.pgs_data);
        push_samples(&mut commands, &base_key, "pv", &pv_signals);
        assert(commands.deep_view() =~= head + self@.samples(base_key@));
        let ghost before_quit = commands.deep_view();
        commands.push(StoreCommand::Quit);
        assert(commands.deep_view() =~= before_quit.push(Command::Quit));
        assert(commands.deep_view() =~= self@.cycle(base_key@, series_found as nat));
        commands
    }
}

} // verus!
