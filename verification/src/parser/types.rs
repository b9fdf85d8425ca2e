//! The signal schema model: what one addressable quantity of the device is,
//! what it currently holds, and the records of the definition source that
//! signals are built from.
//!
//! Every executable type has a mathematical model (its view), in which strings
//! are sequences of characters and vectors are sequences. The contracts of the
//! crate are stated over these models.

use vstd::prelude::*;

verus! {

/// The declared type of a signal, without a payload.
#[derive(Debug, Clone, Copy, PartialEq, Eq, Structural)]
pub enum SignalKind {
    U16,
    I16,
    U32,
    I32,
    Text,
    Unknown,
}

/// What a signal holds: a tag with the payload of the last decode.
#[derive(Debug, PartialEq)]
pub enum PVSignalDataType {
    U16(u16),
    I16(i16),
    U32(u32),
    I32(i32),
    STR(String),
    UNK(u16),
}

/// Model of [`PVSignalDataType`].
pub enum SignalValue {
    U16(u16),
    I16(i16),
    U32(u32),
    I32(i32),
    Text(Seq<char>),
    Unknown(u16),
}

impl SignalValue {
    /// The tag of the value.
    pub open spec fn kind(self) -> SignalKind {
        match self {
            SignalValue::U16(_) => SignalKind::U16,
            SignalValue::I16(_) => SignalKind::I16,
            SignalValue::U32(_) => SignalKind::U32,
            SignalValue::I32(_) => SignalKind::I32,
            SignalValue::Text(_) => SignalKind::Text,
            SignalValue::Unknown(_) => SignalKind::Unknown,
        }
    }

    /// Whether the value is one of the four integer types.
    pub open spec fn is_numeric(self) -> bool {
        self is U16 || self is I16 || self is U32 || self is I32
    }

    /// The integer a numeric value holds; text and untyped values have none.
    pub open spec fn raw(self) -> Option<int> {
        match self {
            SignalValue::U16(v) => Some(v as int),
            SignalValue::I16(v) => Some(v as int),
            SignalValue::U32(v) => Some(v as int),
            SignalValue::I32(v) => Some(v as int),
            SignalValue::Text(_) => None,
            SignalValue::Unknown(_) => None,
        }
    }
}

impl View for PVSignalDataType {
    type V = SignalValue;

    open spec fn view(&self) -> SignalValue {
        match self {
            PVSignalDataType::U16(v) => SignalValue::U16(*v),
            PVSignalDataType::I16(v) => SignalValue::I16(*v),
            PVSignalDataType::U32(v) => SignalValue::U32(*v),
            PVSignalDataType::I32(v) => SignalValue::I32(*v),
            PVSignalDataType::STR(s) => SignalValue::Text(s@),
            PVSignalDataType::UNK(v) => SignalValue::Unknown(*v),
        }
    }
}

impl DeepView for PVSignalDataType {
    type V = SignalValue;

    open spec fn deep_view(&self) -> SignalValue {
        self@
    }
}

impl Clone for PVSignalDataType {
    fn clone(&self) -> (r: Self)
        ensures
            r == *self,
    {
        match self {
            PVSignalDataType::U16(v) => PVSignalDataType::U16(*v),
            PVSignalDataType::I16(v) => PVSignalDataType::I16(*v),
            PVSignalDataType::U32(v) => PVSignalDataType::U32(*v),
            PVSignalDataType::I32(v) => PVSignalDataType::I32(*v),
            PVSignalDataType::STR(s) => PVSignalDataType::STR(s.clone()),
            PVSignalDataType::UNK(v) => PVSignalDataType::UNK(*v),
        }
    }
}

impl PVSignalDataType {
    /// The tag of the value.
    pub fn kind(&self) -> (k: SignalKind)
        ensures
            k == self@.kind(),
    {
        match self {
            PVSignalDataType::U16(_) => SignalKind::U16,
            PVSignalDataType::I16(_) => SignalKind::I16,
            PVSignalDataType::U32(_) => SignalKind::U32,
            PVSignalDataType::I32(_) => SignalKind::I32,
            PVSignalDataType::STR(_) => SignalKind::Text,
            PVSignalDataType::UNK(_) => SignalKind::Unknown,
        }
    }

    /// Whether the value is one of the four integer types.
    pub fn is_numeric(&self) -> (b: bool)
        ensures
            b == self@.is_numeric(),
    {
        match self {
            PVSignalDataType::U16(_) => true,
            PVSignalDataType::I16(_) => true,
            PVSignalDataType::U32(_) => true,
            PVSignalDataType::I32(_) => true,
            PVSignalDataType::STR(_) => false,
            PVSignalDataType::UNK(_) => false,
        }
    }

    /// The integer that a numeric value holds, before any scaling by the
    /// signal's gain. Text and untyped values have no such integer: `None`.
    pub fn raw_value(&self) -> (r: Option<i64>)
        ensures
            r is Some <==> self@.is_numeric(),
            r matches Some(v) ==> self@.raw() == Some(v as int),
    {
        match self {
            PVSignalDataType::U16(v) => Some(*v as i64),
            PVSignalDataType::I16(v) => Some(*v as i64),
            PVSignalDataType::U32(v) => Some(*v as i64),
            PVSignalDataType::I32(v) => Some(*v as i64),
            PVSignalDataType::STR(_) => None,
            PVSignalDataType::UNK(_) => None,
        }
    }
}

/// One addressable quantity of the device, with the value last read from it.
#[derive(Debug, PartialEq)]
pub struct PVSignal {
    pub data: PVSignalDataType,
    pub address: u16,
    pub length: u16,
    pub name: String,
    pub unit: String,
    pub gain: u16,
    pub time: i64,
}

/// Model of [`PVSignal`].
pub struct SignalReading {
    pub data: SignalValue,
    pub address: u16,
    pub length: u16,
    pub name: Seq<char>,
    pub unit: Seq<char>,
    pub gain: u16,
    pub time: i64,
}

impl SignalReading {
    /// The number of registers that the signal's type occupies: one for the
    /// 16-bit types and for an untyped value, two for the 32-bit types, the
    /// declared length for text.
    pub open spec fn width(self) -> int {
        match self.data {
            SignalValue::U16(_) => 1,
            SignalValue::I16(_) => 1,
            SignalValue::U32(_) => 2,
            SignalValue::I32(_) => 2,
            SignalValue::Text(_) => self.length as int,
            SignalValue::Unknown(_) => 1,
        }
    }

    /// Whether the declared register count covers what the type occupies.
    pub open spec fn covers_type(self) -> bool {
        self.width() <= self.length
    }

    /// Whether `other` describes the same signal: every field of the schema
    /// agrees, and the value has the same tag. Only the payload and the time
    /// may differ.
    pub open spec fn same_schema(self, other: SignalReading) -> bool {
        &&& self.data.kind() == other.data.kind()
        &&& self.address == other.address
        &&& self.length == other.length
        &&& self.name == other.name
        &&& self.unit == other.unit
        &&& self.gain == other.gain
    }
}

impl View for PVSignal {
    type V = SignalReading;

    open spec fn view(&self) -> SignalReading {
        SignalReading {
            data: self.data@,
            address: self.address,
            length: self.length,
            name: self.name@,
            unit: self.unit@,
            gain: self.gain,
            time: self.time,
        }
    }
}

impl DeepView for PVSignal {
    type V = SignalReading;

    open spec fn deep_view(&self) -> SignalReading {
        self@
    }
}

impl Clone for PVSignal {
    fn clone(&self) -> (r: Self)
        ensures
            r == *self,
    {
        PVSignal {
            data: self.data.clone(),
            address: self.address,
            length: self.length,
            name: self.name.clone(),
            unit: self.unit.clone(),
            gain: self.gain,
            time: self.time,
        }
    }
}

impl PVSignal {
    /// The number of registers that the signal's type occupies.
    pub fn width(&self) -> (w: u16)
        ensures
            w == self@.width(),
    {
        match self.data {
            PVSignalDataType::U16(_) => 1,
            PVSignalDataType::I16(_) => 1,
            PVSignalDataType::U32(_) => 2,
            PVSignalDataType::I32(_) => 2,
            PVSignalDataType::STR(_) => self.length,
            PVSignalDataType::UNK(_) => 1,
        }
    }
}

/// The two signals of one PV string.
#[derive(Debug, PartialEq)]
pub struct PVString {
    pub voltage: PVSignal,
    pub current: PVSignal,
}

/// Model of [`PVString`].
pub struct StringReading {
    pub voltage: SignalReading,
    pub current: SignalReading,
}

impl View for PVString {
    type V = StringReading;

    open spec fn view(&self) -> StringReading {
        StringReading { voltage: self.voltage@, current: self.current@ }
    }
}

impl DeepView for PVString {
    type V = StringReading;

    open spec fn deep_view(&self) -> StringReading {
        self@
    }
}

impl Clone for PVString {
    fn clone(&self) -> (r: Self)
        ensures
            r == *self,
    {
        PVString { voltage: self.voltage.clone(), current: self.current.clone() }
    }
}

/// The definition source: constant fields, and the templates of sub-units.
#[derive(Default, Debug, Clone, PartialEq)]
pub struct Root {
    pub const_field: Vec<Const>,
    pub scheme: Scheme,
}

/// One constant field of the definition source.
#[derive(Default, Debug, Clone, PartialEq)]
pub struct Const {
    pub dtype: String,
    pub addr: u16,
    pub len: u16,
    pub gain: u16,
    pub name: String,
    pub unit: String,
    pub category: u8,
}

/// The templates that are instantiated once per sub-unit.
#[derive(Default, Debug, Clone, PartialEq)]
pub struct Scheme {
    pub bat: Vec<Bat>,
}

/// One field of the battery-pack template; `addr` is an offset from the
/// pack's base address.
#[derive(Default, Debug, Clone, PartialEq)]
pub struct Bat {
    pub dtype: String,
    pub addr: u16,
    pub len: u16,
    pub gain: u16,
    pub name: String,
    pub unit: String,
}

/// Model of [`Const`].
pub struct FieldDef {
    pub dtype: Seq<char>,
    pub addr: u16,
    pub len: u16,
    pub gain: u16,
    pub name: Seq<char>,
    pub unit: Seq<char>,
    pub category: u8,
}

/// Model of [`Bat`].
pub struct TemplateDef {
    pub dtype: Seq<char>,
    pub addr: u16,
    pub len: u16,
    pub gain: u16,
    pub name: Seq<char>,
    pub unit: Seq<char>,
}

/// Model of [`Scheme`].
pub struct SchemeDef {
    pub bat: Seq<TemplateDef>,
}

/// Model of [`Root`].
pub struct Definitions {
    pub const_field: Seq<FieldDef>,
    pub scheme: SchemeDef,
}

impl View for Const {
    type V = FieldDef;

    open spec fn view(&self) -> FieldDef {
        FieldDef {
            dtype: self.dtype@,
            addr: self.addr,
            len: self.len,
            gain: self.gain,
            name: self.name@,
            unit: self.unit@,
            category: self.category,
        }
    }
}

impl DeepView for Const {
    type V = FieldDef;

    open spec fn deep_view(&self) -> FieldDef {
        self@
    }
}

impl View for Bat {
    type V = TemplateDef;

    open spec fn view(&self) -> TemplateDef {
        TemplateDef {
            dtype: self.dtype@,
            addr: self.addr,
            len: self.len,
            gain: self.gain,
            name: self.name@,
            unit: self.unit@,
        }
    }
}

impl DeepView for Bat {
    type V = TemplateDef;

    open spec fn deep_view(&self) -> TemplateDef {
        self@
    }
}

impl View for Scheme {
    type V = SchemeDef;

    open spec fn view(&self) -> SchemeDef {
        SchemeDef { bat: self.bat.deep_view() }
    }
}

impl DeepView for Scheme {
    type V = SchemeDef;

    open spec fn deep_view(&self) -> SchemeDef {
        self@
    }
}

impl View for Root {
    type V = Definitions;

    open spec fn view(&self) -> Definitions {
        Definitions { const_field: self.const_field.deep_view(), scheme: self.scheme@ }
    }
}

impl DeepView for Root {
    type V = Definitions;

    open spec fn deep_view(&self) -> Definitions {
        self@
    }
}

} // verus!
