//! The fieldbus side of a poll: which registers to ask for, and what the
//! answers make of a group of signals.
//!
//! Nothing here talks to the device. The caller performs each request, in
//! order, and hands back the answers.

use vstd::prelude::*;
use crate::parser::types::{PVSignal, SignalReading};
use crate::registers::{
    all_cover_type, decode_outcome, decode_value, lemma_words_before_monotonic, sort_data_store,
    total_words, words_before, DecodeError,
};

verus! {

/// One request to the device: `count` registers from `address` on.
#[derive(Debug, Clone, Copy, PartialEq, Eq, Structural)]
pub struct ReadRequest {
    pub address: u16,
    pub count: u16,
}

/// One answer of the device: the words of one signal, and the time in
/// milliseconds at which they were fetched.
#[derive(Debug, Clone, PartialEq)]
pub struct RegisterRead {
    pub words: Vec<u16>,
    pub time: i64,
}

/// Model of [`RegisterRead`].
pub struct Fetched {
    pub words: Seq<u16>,
    pub time: i64,
}

impl View for RegisterRead {
    type V = Fetched;

    open spec fn view(&self) -> Fetched {
        Fetched { words: self.words@, time: self.time }
    }
}

impl DeepView for RegisterRead {
    type V = Fetched;

    open spec fn deep_view(&self) -> Fetched {
        self@
    }
}

/// `chrono::Utc::now` and `DateTime::timestamp_millis`: the system clock in
/// milliseconds since the Unix epoch. Nothing is claimed of the number: the
/// clock may stand anywhere and may be set back between two calls. The call
/// panics where the clock stands before the epoch.
#[verifier::external_body]
fn utc_now_millis() -> i64 {
    chrono::Utc::now().timestamp_millis()
}

impl RegisterRead {
    /// The answer `words`, fetched at `time`.
    pub fn at(words: Vec<u16>, time: i64) -> (read: RegisterRead)
        ensures
            read@ == (Fetched { words: words@, time }),
    {
        RegisterRead { words, time }
    }

    /// The answer `words`, fetched at this moment by the system clock.
    pub fn now(words: Vec<u16>) -> (read: RegisterRead)
        ensures
            read@.words == words@,
    {
        RegisterRead::at(words, utc_now_millis())
    }
}

/// The request for the device's identification text.
pub fn device_id_request() -> (request: ReadRequest)
    ensures
        request == (ReadRequest { address: 30000, count: 15 }),
{
    ReadRequest { address: 30000, count: 15 }
}

/// The request for the number of PV strings.
pub fn num_pvs_request() -> (request: ReadRequest)
    ensures
        request == (ReadRequest { address: 30071, count: 1 }),
{
    ReadRequest { address: 30071, count: 1 }
}

/// The number of PV strings in the answer to [`num_pvs_request`]: its first
/// word. An answer without words holds none.
pub fn _get_num_pvs(answer: &Vec<u16>) -> (num_pvs: Option<u16>)
    ensures
        num_pvs == if answer.len() > 0 {
            Some(answer[0])
        } else {
            None
        },
{
    if answer.len() > 0 {
        Some(answer[0])
    } else {
        None
    }
}

/// The requests that fetch a group: one per signal, in order, for the
/// signal's declared registers.
pub open spec fn requests_of(signals: Seq<SignalReading>) -> Seq<ReadRequest> {
    Seq::new(
        signals.len(),
        |i: int| ReadRequest { address: signals[i].address, count: signals[i].length },
    )
}

/// The words of each answer.
pub open spec fn answers_of(reads: Seq<Fetched>) -> Seq<Seq<u16>> {
    Seq::new(reads.len(), |i: int| reads[i].words)
}

/// The words of a series of answers, one answer after another.
pub open spec fn flat_words(reads: Seq<Fetched>) -> Seq<u16> {
    answers_of(reads).flatten()
}

/// Whether there is one answer per signal, each with as many words as its
/// signal declares.
pub open spec fn answers_complete(signals: Seq<SignalReading>, reads: Seq<Fetched>) -> bool {
    &&& reads.len() == signals.len()
    &&& forall|i: int|
        0 <= i < signals.len() ==> (#[trigger] reads[i]).words.len() == signals[i].length
}

/// The readings with the times of their answers.
pub open spec fn stamped(signals: Seq<SignalReading>, reads: Seq<Fetched>) -> Seq<SignalReading> {
    Seq::new(signals.len(), |i: int| SignalReading { time: reads[i].time, ..signals[i] })
}

/// What storing the answers `reads` in a group gives: there must be one
/// answer per signal, and their words together must decode.
pub open spec fn read_outcome(signals: Seq<SignalReading>, reads: Seq<Fetched>) -> Result<
    Seq<SignalReading>,
    DecodeError,
> {
    if reads.len() != signals.len() {
        Err(DecodeError::ReadCount)
    } else {
        match decode_outcome(signals, flat_words(reads)) {
            Ok(readings) => Ok(stamped(readings, reads)),
            Err(e) => Err(e),
        }
    }
}

/// Storing a poll keeps the schema of every signal: its tag, address,
/// length, name, unit and gain. Only the payload and the time are new.
pub proof fn lemma_read_keeps_schema(signals: Seq<SignalReading>, reads: Seq<Fetched>)
    requires
        read_outcome(signals, reads) is Ok,
    ensures
        read_outcome(signals, reads)->Ok_0.len() == signals.len(),
        forall|i: int|
            0 <= i < signals.len() ==> (#[trigger] read_outcome(signals, reads)->Ok_0[i]).same_schema(
                signals[i],
            ),
{
}

/// Every signal gets the time of its own answer. So where no answer is
/// older than what its signal held, no signal's time goes back.
pub proof fn lemma_read_times(signals: Seq<SignalReading>, reads: Seq<Fetched>)
    requires
        read_outcome(signals, reads) is Ok,
    ensures
        forall|i: int|
            0 <= i < signals.len() ==> (#[trigger] read_outcome(signals, reads)->Ok_0[i]).time
                == reads[i].time,
        (forall|i: int| 0 <= i < signals.len() ==> (#[trigger] signals[i]).time <= reads[i].time)
            ==> forall|i: int|
            0 <= i < signals.len() ==> signals[i].time <= (#[trigger] read_outcome(
                signals,
                reads,
            )->Ok_0[i]).time,
{
}

/// Where the answers are complete, the words of the first `i` answers are
/// as many as the first `i` signals declare, and each answer lies where its
/// signal's words start.
proof fn lemma_answers_layout(signals: Seq<SignalReading>, reads: Seq<Fetched>, i: int)
    requires
        answers_complete(signals, reads),
        0 <= i <= signals.len(),
    ensures
        answers_of(reads).take(i).flatten().len() == words_before(signals, i),
        forall|j: int, k: int|
            0 <= j < i && 0 <= k < signals[j].length ==> answers_of(reads).take(i).flatten()[words_before(
                signals,
                j,
            ) + k] == #[trigger] reads[j].words[k],
    decreases i,
{
    let answers = answers_of(reads);
    if i == 0 {
        assert(answers.take(0) =~= Seq::<Seq<u16>>::empty());
    } else {
        lemma_answers_layout(signals, reads, i - 1);
        let before = answers.take(i - 1);
        let last = reads[i - 1].words;
        assert(answers.take(i) =~= before.push(last));
        before.lemma_flatten_push(last);
        let flat = answers.take(i).flatten();
        assert(flat =~= before.flatten() + last);
        assert forall|j: int, k: int| 0 <= j < i && 0 <= k < signals[j].length implies flat[words_before(
            signals,
            j,
        ) + k] == #[trigger] reads[j].words[k] by {
            assert(words_before(signals, j + 1) == words_before(signals, j) + signals[j].length);
            lemma_words_before_monotonic(signals, 0, j);
            if j < i - 1 {
                lemma_words_before_monotonic(signals, j + 1, i - 1);
                assert(before.flatten()[words_before(signals, j) + k] == reads[j].words[k]);
            } else {
                assert(reads[i - 1].words.len() == signals[i - 1].length);
                assert(last[k] == reads[j].words[k]);
            }
        }
    }
}

/// Complete answers always decode, and each signal is then read from its own
/// answer: the cursor over the flat words and the answers agree.
pub proof fn lemma_complete_answers_decode(signals: Seq<SignalReading>, reads: Seq<Fetched>)
    requires
        all_cover_type(signals),
        answers_complete(signals, reads),
    ensures
        flat_words(reads).len() == total_words(signals),
        read_outcome(signals, reads) is Ok,
        forall|i: int|
            0 <= i < signals.len() ==> (#[trigger] read_outcome(signals, reads)->Ok_0[i]).data
                == decode_value(signals[i].data, signals[i].length, reads[i].words, 0),
{
    let n = signals.len() as int;
    let flat = flat_words(reads);
    lemma_answers_layout(signals, reads, n);
    assert(answers_of(reads).take(n) =~= answers_of(reads));
    assert forall|i: int| 0 <= i < n implies (#[trigger] read_outcome(signals, reads)->Ok_0[i]).data
        == decode_value(signals[i].data, signals[i].length, reads[i].words, 0) by {
        let at = words_before(signals, i);
        let words = reads[i].words;
        let length = signals[i].length;
        assert(signals[i].covers_type());
        lemma_words_before_monotonic(signals, i + 1, n);
        lemma_words_before_monotonic(signals, 0, i);
        assert(words_before(signals, i + 1) == at + length);
        assert(words.len() == length);
        assert forall|k: int| 0 <= k < length implies flat[at + k] == words[k] by {
            assert(reads[i].words[k] == words[k]);
        }
        assert(flat.subrange(at, at + length) =~= words.subrange(0, 0 + length));
    }
}

/// The requests that fetch a group.
pub fn read_requests(base_data: &Vec<PVSignal>) -> (requests: Vec<ReadRequest>)
    ensures
        requests@ == requests_of(base_data.deep_view()),
{
    let mut requests: Vec<ReadRequest> = Vec::new();
    let n = base_data.len();
    let mut i: usize = 0;
    while i < n
        invariant
            n == base_data.len(),
            i <= n,
            requests.len() == i,
            forall|k: int| 0 <= k < i ==> #[trigger] requests[k] == requests_of(base_data.deep_view())[k],
        decreases n - i,
    {
        requests.push(ReadRequest { address: base_data[i].address, count: base_data[i].length });
        i = i + 1;
    }
    assert(requests@ =~= requests_of(base_data.deep_view()));
    requests
}

/// The words of `reads`, one answer after another.
pub fn concat_words(reads: &Vec<RegisterRead>) -> (data: Vec<u16>)
    ensures
        data@ == flat_words(reads.deep_view()),
{
    let ghost answers = answers_of(reads.deep_view());
    let mut data: Vec<u16> = Vec::new();
    let n = reads.len();
    let mut i: usize = 0;
    while i < n
        invariant
            n == reads.len(),
            i <= n,
            answers == answers_of(reads.deep_view()),
            data@ == answers.take(i as int).flatten(),
        decreases n - i,
    {
        let words = &reads[i].words;
        let m = words.len();
        let ghost before = data@;
        let mut j: usize = 0;
        while j < m
            invariant
                m == words.len(),
                j <= m,
                data@ == before + words@.take(j as int),
            decreases m - j,
        {
            data.push(words[j]);
            assert(words@.take(j as int + 1) =~= words@.take(j as int).push(words@[j as int]));
            j = j + 1;
        }
        proof {
            assert(words@.take(m as int) =~= words@);
            assert(answers.take(i as int + 1) =~= answers.take(i as int).push(words@));
            answers.take(i as int).lemma_flatten_push(words@);
        }
        i = i + 1;
    }
    assert(answers.take(n as int) =~= answers);
    data
}

/// Stores the answers of one poll in a group: decodes their words into the
/// signals and gives each signal the time of its answer. Where there is not
/// one answer per signal, or the words do not decode, nothing is changed.
pub fn store_reads(base_data: &mut Vec<PVSignal>, reads: &Vec<RegisterRead>) -> (res: Result<
    (),
    DecodeError,
>)
    ensures
        match read_outcome(old(base_data).deep_view(), reads.deep_view()) {
            Ok(readings) => res is Ok && final(base_data).deep_view() == readings,
            Err(e) => res == Err::<(), DecodeError>(e) && *final(base_data) == *old(base_data),
        },
{
    let n = base_data.len();
    if reads.len() != n {
        return Err(DecodeError::ReadCount);
    }
    match sort_data_store(base_data, concat_words(reads)) {
        Err(e) => {
            return Err(e);
        },
        Ok(()) => {},
    }
    let ghost decoded = base_data.deep_view();
    let mut i: usize = 0;
    while i < n
        invariant
            i <= n,
            n == base_data.len(),
            n == reads.len(),
            decoded.len() == n,
            forall|k: int|
                0 <= k < i ==> (#[trigger] base_data[k])@ == stamped(decoded, reads.deep_view())[k],
            forall|k: int| i <= k < n ==> (#[trigger] base_data[k])@ == decoded[k],
        decreases n - i,
    {
        base_data[i].time = reads[i].time;
        i = i + 1;
    }
    assert(base_data.deep_view() =~= stamped(decoded, reads.deep_view()));
    Ok(())
}

} // verus!
