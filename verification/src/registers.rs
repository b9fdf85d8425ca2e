//! From raw 16-bit registers to typed values.
//!
//! A group of signals is read as one flat sequence of words: the words of the
//! first signal, then those of the second, and so on. A signal's words start
//! where those of its predecessors end, whatever its register address is.

use vstd::prelude::*;
use crate::parser::types::{PVSignal, PVSignalDataType, SignalReading, SignalValue};
use crate::text::{byte_char, push_char};

verus! {

/// Why a block of registers could not be decoded.
#[derive(Debug, Clone, Copy, PartialEq, Eq, Structural)]
pub enum DecodeError {
    /// A signal declares fewer registers than its type occupies.
    NarrowSignal,
    /// There are fewer words than the signals declare together.
    ShortRead,
    /// The number of reads is not the number of signals.
    ReadCount,
}

/// The 32-bit value of two registers: the earlier one is the high half.
pub open spec fn word_pair(hi: u16, lo: u16) -> u32 {
    (hi * 0x1_0000 + lo) as u32
}

/// The two's-complement reading of a 16-bit pattern.
pub open spec fn signed16(w: u16) -> i16 {
    if w >= 0x8000 {
        (w - 0x1_0000) as i16
    } else {
        w as i16
    }
}

/// The two's-complement reading of a 32-bit pattern.
pub open spec fn signed32(v: u32) -> i32 {
    if v >= 0x8000_0000 {
        (v - 0x1_0000_0000) as i32
    } else {
        v as i32
    }
}

/// The high byte of a register.
pub open spec fn high_byte(w: u16) -> u8 {
    (w / 256) as u8
}

/// The low byte of a register.
pub open spec fn low_byte(w: u16) -> u8 {
    (w % 256) as u8
}

/// The text that registers hold: two characters per register, the high byte
/// first, each byte taken as one character.
pub open spec fn text_of(words: Seq<u16>) -> Seq<char> {
    Seq::new(
        2 * words.len(),
        |k: int|
            if k % 2 == 0 {
                byte_char(high_byte(words[k / 2]) as int)
            } else {
                byte_char(low_byte(words[k / 2]) as int)
            },
    )
}

/// The number of words that the first `i` signals of a group declare.
pub open spec fn words_before(signals: Seq<SignalReading>, i: int) -> int
    decreases i,
{
    if i <= 0 {
        0
    } else {
        words_before(signals, i - 1) + signals[i - 1].length
    }
}

/// The number of words that a group declares.
pub open spec fn total_words(signals: Seq<SignalReading>) -> int {
    words_before(signals, signals.len() as int)
}

/// Whether every signal of the group declares as many registers as its type
/// occupies.
pub open spec fn all_cover_type(signals: Seq<SignalReading>) -> bool {
    forall|i: int| 0 <= i < signals.len() ==> (#[trigger] signals[i]).covers_type()
}

/// The value of a signal whose words start at `at`: the tag stays, the
/// payload is read from the words.
pub open spec fn decode_value(held: SignalValue, length: u16, words: Seq<u16>, at: int) -> SignalValue {
    match held {
        SignalValue::U16(_) => SignalValue::U16(words[at]),
        SignalValue::I16(_) => SignalValue::I16(signed16(words[at])),
        SignalValue::U32(_) => SignalValue::U32(word_pair(words[at], words[at + 1])),
        SignalValue::I32(_) => SignalValue::I32(signed32(word_pair(words[at], words[at + 1]))),
        SignalValue::Text(_) => SignalValue::Text(text_of(words.subrange(at, at + length))),
        SignalValue::Unknown(_) => SignalValue::Unknown(words[at]),
    }
}

/// The reading of a signal whose words start at `at`.
pub open spec fn decode_signal(s: SignalReading, words: Seq<u16>, at: int) -> SignalReading {
    SignalReading { data: decode_value(s.data, s.length, words, at), ..s }
}

/// The readings of a group: each signal decoded from where its
/// predecessors' words end.
pub open spec fn decode_group(signals: Seq<SignalReading>, words: Seq<u16>) -> Seq<SignalReading> {
    Seq::new(
        signals.len(),
        |i: int| decode_signal(signals[i], words, words_before(signals, i)),
    )
}

/// What decoding a group from `words` gives. A narrow signal anywhere in the
/// group is found before the words are counted.
pub open spec fn decode_outcome(signals: Seq<SignalReading>, words: Seq<u16>) -> Result<
    Seq<SignalReading>,
    DecodeError,
> {
    if !all_cover_type(signals) {
        Err(DecodeError::NarrowSignal)
    } else if words.len() < total_words(signals) {
        Err(DecodeError::ShortRead)
    } else {
        Ok(decode_group(signals, words))
    }
}

/// The words before a signal never decrease along the group.
pub proof fn lemma_words_before_monotonic(signals: Seq<SignalReading>, i: int, j: int)
    requires
        0 <= i <= j,
    ensures
        0 <= words_before(signals, i) <= words_before(signals, j),
    decreases j,
{
    if j > 0 {
        if i < j {
            lemma_words_before_monotonic(signals, i, j - 1);
        } else {
            lemma_words_before_monotonic(signals, i - 1, j - 1);
        }
    }
}

/// Composes two registers into one 32-bit value, the first being the high
/// half.
pub fn compose_u32(hi: u16, lo: u16) -> (v: u32)
    ensures
        v == word_pair(hi, lo),
        v == hi * 0x1_0000 + lo,
{
    assert(((hi as u32) << 16) | (lo as u32) == hi * 0x1_0000 + lo) by (bit_vector);
    ((hi as u32) << 16) | (lo as u32)
}

/// Reads a 16-bit pattern as a signed number.
pub fn reinterpret_i16(w: u16) -> (v: i16)
    ensures
        v == signed16(w),
{
    assert(w as i16 == if w >= 0x8000 {
        w - 0x1_0000
    } else {
        w as int
    }) by (bit_vector);
    w as i16
}

/// Reads a 32-bit pattern as a signed number.
pub fn reinterpret_i32(v: u32) -> (r: i32)
    ensures
        r == signed32(v),
{
    assert(v as i32 == if v >= 0x8000_0000 {
        v - 0x1_0000_0000
    } else {
        v as int
    }) by (bit_vector);
    v as i32
}

/// Decodes the text of `count` registers that start at `start`.
pub fn decode_text(words: &Vec<u16>, start: usize, count: usize) -> (text: String)
    requires
        start + count <= words.len(),
    ensures
        text@ == text_of(words@.subrange(start as int, start + count)),
{
    let ghost held = words@.subrange(start as int, start + count);
    let mut text = String::new();
    let mut j: usize = 0;
    while j < count
        invariant
            j <= count,
            start + count <= words.len(),
            held == words@.subrange(start as int, start + count),
            text@.len() == 2 * j,
            forall|k: int| 0 <= k < 2 * j ==> #[trigger] text@[k] == text_of(held)[k],
        decreases count - j,
    {
        let w = words[start + j];
        assert(w >> 8 == w / 256 && (w >> 8) < 256) by (bit_vector);
        assert(w & 0xFF == w % 256 && (w & 0xFF) < 256) by (bit_vector);
        assert(held[j as int] == w);
        push_char(&mut text, (w >> 8) as u8 as char);
        push_char(&mut text, (w & 0xFF) as u8 as char);
        j = j + 1;
    }
    assert(text@ =~= text_of(held));
    text
}

/// Decodes the words of one group into its signals, in place.
///
/// `data` holds the words of the signals one after another, in the order of
/// the group. Each signal keeps its schema and its tag; its payload is read
/// from where the words of its predecessors end. Where a signal declares
/// fewer registers than its type occupies, or `data` is shorter than the
/// signals declare together, nothing is changed.
pub fn sort_data_store(base_data: &mut Vec<PVSignal>, data: Vec<u16>) -> (res: Result<
    (),
    DecodeError,
>)
    ensures
        match decode_outcome(old(base_data).deep_view(), data@) {
            Ok(readings) => res is Ok && final(base_data).deep_view() == readings,
            Err(e) => res == Err::<(), DecodeError>(e) && *final(base_data) == *old(base_data),
        },
{
    let n = base_data.len();
    let ghost held = base_data.deep_view();
    let mut i: usize = 0;
    while i < n
        invariant
            i <= n,
            n == base_data.len(),
            *base_data == *old(base_data),
            held == base_data.deep_view(),
            forall|k: int| 0 <= k < i ==> (#[trigger] held[k]).covers_type(),
        decreases n - i,
    {
        if base_data[i].width() > base_data[i].length {
            assert(!held[i as int].covers_type());
            return Err(DecodeError::NarrowSignal);
        }
        i = i + 1;
    }
    let mut cursor: usize = 0;
    i = 0;
    while i < n
        invariant
            i <= n,
            n == base_data.len(),
            *base_data == *old(base_data),
            held == base_data.deep_view(),
            all_cover_type(held),
            cursor == words_before(held, i as int),
            cursor <= data.len(),
        decreases n - i,
    {
        let length = base_data[i].length as usize;
        if length > data.len() - cursor {
            proof {
                lemma_words_before_monotonic(held, i as int + 1, n as int);
            }
            return Err(DecodeError::ShortRead);
        }
        cursor = cursor + length;
        i = i + 1;
    }
    cursor = 0;
    i = 0;
    while i < n
        invariant
            i <= n,
            n == base_data.len(),
            held.len() == n,
            held == old(base_data).deep_view(),
            all_cover_type(held),
            total_words(held) <= data.len(),
            cursor == words_before(held, i as int),
            forall|k: int|
                0 <= k < i ==> (#[trigger] base_data[k])@ == decode_signal(
                    held[k],
                    data@,
                    words_before(held, k),
                ),
            forall|k: int| i <= k < n ==> (#[trigger] base_data[k])@ == held[k],
        decreases n - i,
    {
        let length = base_data[i].length;
        proof {
            lemma_words_before_monotonic(held, i as int + 1, n as int);
            assert(held[i as int].covers_type());
        }
        let value = match &base_data[i].data {
            PVSignalDataType::U16(_) => PVSignalDataType::U16(data[cursor]),
            PVSignalDataType::I16(_) => PVSignalDataType::I16(reinterpret_i16(data[cursor])),
            PVSignalDataType::U32(_) => PVSignalDataType::U32(
                compose_u32(data[cursor], data[cursor + 1]),
            ),
            PVSignalDataType::I32(_) => PVSignalDataType::I32(
                reinterpret_i32(compose_u32(data[cursor], data[cursor + 1])),
            ),
            PVSignalDataType::STR(_) => PVSignalDataType::STR(
                decode_text(&data, cursor, length as usize),
            ),
            PVSignalDataType::UNK(_) => PVSignalDataType::UNK(data[cursor]),
        };
        base_data[i].data = value;
        cursor = cursor + length as usize;
        i = i + 1;
    }
    assert(base_data.deep_view() =~= decode_group(held, data@));
    Ok(())
}

/// A 32-bit signal whose words are `[hi, lo]` holds `(hi << 16) | lo`. For
/// `I32` the sign is read from the composed value, not from either word.
pub proof fn lemma_decode_word_pair(held: SignalValue, length: u16, words: Seq<u16>, at: int)
    requires
        held is U32 || held is I32,
    ensures
        ({
            let hi = words[at];
            let lo = words[at + 1];
            let composed = ((hi as u32) << 16) | (lo as u32);
            &&& composed == hi * 0x1_0000 + lo
            &&& held is U32 ==> decode_value(held, length, words, at) == SignalValue::U32(composed)
            &&& held is I32 ==> decode_value(held, length, words, at) == SignalValue::I32(
                composed as i32,
            )
            &&& composed as i32 == if composed >= 0x8000_0000 {
                composed - 0x1_0000_0000
            } else {
                composed as int
            }
        }),
{
    let hi = words[at];
    let lo = words[at + 1];
    let composed = ((hi as u32) << 16) | (lo as u32);
    assert(((hi as u32) << 16) | (lo as u32) == hi * 0x1_0000 + lo) by (bit_vector);
    assert(composed as i32 == if composed >= 0x8000_0000 {
        composed - 0x1_0000_0000
    } else {
        composed as int
    }) by (bit_vector);
}

/// A text signal of length `L` holds a string of exactly `2 * L` characters:
/// its register `j` gives the characters `2 * j` and `2 * j + 1`, the high
/// byte first, each byte read as one character.
pub proof fn lemma_decode_text(held: SignalValue, length: u16, words: Seq<u16>, at: int)
    requires
        held is Text,
        0 <= at,
        at + length <= words.len(),
    ensures
        decode_value(held, length, words, at) is Text,
        ({
            let text = decode_value(held, length, words, at)->Text_0;
            &&& text.len() == 2 * length
            &&& forall|j: int|
                0 <= j < length ==> text[2 * j] == byte_char(
                    ((#[trigger] words[at + j]) >> 8) as int,
                ) && text[2 * j + 1] == byte_char((words[at + j] & 0xFF) as int)
        }),
{
    let held_words = words.subrange(at, at + length);
    let text = text_of(held_words);
    assert forall|j: int| 0 <= j < length implies text[2 * j] == byte_char(
        ((#[trigger] words[at + j]) >> 8) as int,
    ) && text[2 * j + 1] == byte_char((words[at + j] & 0xFF) as int) by {
        let w = words[at + j];
        assert(held_words[j] == w);
        assert(w >> 8 == w / 256 && (w >> 8) < 256) by (bit_vector);
        assert(w & 0xFF == w % 256 && (w & 0xFF) < 256) by (bit_vector);
        assert((2 * j) % 2 == 0 && (2 * j) / 2 == j);
        assert((2 * j + 1) % 2 == 1 && (2 * j + 1) / 2 == j);
    }
}

/// Decoding keeps the schema of every signal: the tag, the address, the
/// length, the name, the unit and the gain. Only the payload is new.
pub proof fn lemma_decode_keeps_schema(signals: Seq<SignalReading>, words: Seq<u16>, i: int)
    requires
        0 <= i < signals.len(),
    ensures
        decode_group(signals, words).len() == signals.len(),
        decode_group(signals, words)[i].same_schema(signals[i]),
        decode_group(signals, words)[i].time == signals[i].time,
{
}

} // verus!
