//! The schema catalog builder: from the records of a definition source to
//! the signals of a device.
//!
//! Building is a function of its arguments. Each signal starts with the
//! zero or empty value of its declared type and the time 0.

use vstd::prelude::*;
use vstd::string::StringExecFns;
use self::types::{
    Bat, Const, Definitions, FieldDef, PVSignal, PVSignalDataType, PVString, Root, SignalReading,
    SignalValue, StringReading, TemplateDef,
};
use crate::text::{decimal, decimal_string};

pub mod types;

verus! {

/// The category of the constant fields that belong to the storage group.
pub const STORAGE_CATEGORY: u8 = 2;

/// The base address of the voltage register of the first PV string.
pub const PV_BASE_ADDRESS: u16 = 32016;

/// The base addresses of the battery packs 0, 1 and 2.
pub const PACK_0_ADDRESS: u16 = 38200;

pub const PACK_1_ADDRESS: u16 = 38242;

pub const PACK_2_ADDRESS: u16 = 38284;

/// The placeholder that a type name of the definition source declares: the
/// zero or empty value of that type. Other names declare nothing.
pub open spec fn declared_value(dtype: Seq<char>) -> Option<SignalValue> {
    if dtype == "U16"@ {
        Some(SignalValue::U16(0))
    } else if dtype == "U32"@ {
        Some(SignalValue::U32(0))
    } else if dtype == "I16"@ {
        Some(SignalValue::I16(0))
    } else if dtype == "I32"@ {
        Some(SignalValue::I32(0))
    } else if dtype == "STR"@ {
        Some(SignalValue::Text(Seq::empty()))
    } else {
        None
    }
}

/// Whether a constant field belongs to `category`.
pub open spec fn in_category(category: u8) -> spec_fn(FieldDef) -> bool {
    |f: FieldDef| f.category == category
}

/// The signal of a constant field; a field of an unrecognized type has none.
pub open spec fn const_signal(f: FieldDef) -> Option<SignalReading> {
    match declared_value(f.dtype) {
        Some(data) => Some(
            SignalReading {
                data,
                address: f.addr,
                length: f.len,
                name: f.name,
                unit: f.unit,
                gain: f.gain,
                time: 0,
            },
        ),
        None => None,
    }
}

/// [`const_signal`] as a function value.
pub open spec fn const_signal_fn() -> spec_fn(FieldDef) -> Option<SignalReading> {
    |f: FieldDef| const_signal(f)
}

/// The signals of a category: those of its fields whose type is recognized,
/// in the order of the definition source.
pub open spec fn const_signals(fields: Seq<FieldDef>, category: u8) -> Seq<SignalReading> {
    fields.filter(in_category(category)).filter_map(const_signal_fn())
}

/// The name of a template field in the pack `ident`.
pub open spec fn pack_name(ident: u8, name: Seq<char>) -> Seq<char> {
    "pack"@ + decimal(ident as nat) + "_"@ + name
}

/// The signal of a template field in the pack `ident` at `base_addr`. A
/// field of an unrecognized type is kept, as an untyped signal.
pub open spec fn template_signal(t: TemplateDef, base_addr: u16, ident: u8) -> SignalReading {
    SignalReading {
        data: match declared_value(t.dtype) {
            Some(data) => data,
            None => SignalValue::Unknown(0),
        },
        address: (base_addr + t.addr) as u16,
        length: t.len,
        name: pack_name(ident, t.name),
        unit: t.unit,
        gain: t.gain,
        time: 0,
    }
}

/// Whether every field of the template has a register address when the
/// template is placed at `base_addr`.
pub open spec fn template_fits(template: Seq<TemplateDef>, base_addr: u16) -> bool {
    forall|i: int| 0 <= i < template.len() ==> base_addr + (#[trigger] template[i]).addr <= u16::MAX
}

/// The signals of one pack: one per field of the template, in order.
pub open spec fn template_signals(template: Seq<TemplateDef>, base_addr: u16, ident: u8) -> Seq<
    SignalReading,
> {
    Seq::new(template.len(), |i: int| template_signal(template[i], base_addr, ident))
}

/// The name of a signal of the PV string `i`.
pub open spec fn pv_name(i: nat, quantity: Seq<char>) -> Seq<char> {
    "pv_"@ + decimal(i) + "_"@ + quantity
}

/// The two signals of the PV string `i`.
pub open spec fn pv_string(i: nat) -> StringReading {
    StringReading {
        voltage: SignalReading {
            data: SignalValue::I16(0),
            address: (PV_BASE_ADDRESS + 2 * i) as u16,
            length: 1,
            name: pv_name(i, "voltage"@),
            unit: "V"@,
            gain: 10,
            time: 0,
        },
        current: SignalReading {
            data: SignalValue::I16(0),
            address: (PV_BASE_ADDRESS + 1 + 2 * i) as u16,
            length: 1,
            name: pv_name(i, "current"@),
            unit: "A"@,
            gain: 100,
            time: 0,
        },
    }
}

/// The signals of `count` PV strings.
pub open spec fn pv_strings(count: u8) -> Seq<StringReading> {
    Seq::new(count as nat, |i: int| pv_string(i as nat))
}

/// The storage group: the constant fields of the storage category, then the
/// three battery packs.
pub open spec fn storage_signals(defs: Definitions) -> Seq<SignalReading> {
    const_signals(defs.const_field, STORAGE_CATEGORY) + template_signals(
        defs.scheme.bat,
        PACK_0_ADDRESS,
        0,
    ) + template_signals(defs.scheme.bat, PACK_1_ADDRESS, 1) + template_signals(
        defs.scheme.bat,
        PACK_2_ADDRESS,
        2,
    )
}

/// Whether the template fits at the base address of each battery pack.
pub open spec fn storage_fits(defs: Definitions) -> bool {
    template_fits(defs.scheme.bat, PACK_2_ADDRESS)
}

/// The catalog is a function of the definition source and of the numbers
/// handed to the builders: two sources that hold the same records, character
/// by character, give the same signals.
pub proof fn lemma_build_is_deterministic(
    a: Root,
    b: Root,
    category: u8,
    base_addr: u16,
    ident: u8,
)
    requires
        a@ == b@,
    ensures
        const_signals(a@.const_field, category) == const_signals(b@.const_field, category),
        template_signals(a@.scheme.bat, base_addr, ident) == template_signals(
            b@.scheme.bat,
            base_addr,
            ident,
        ),
        storage_signals(a@) == storage_signals(b@),
{
}

/// Filtering a prefix that is one longer keeps or drops the new last item.
proof fn lemma_filter_take_succ<A>(s: Seq<A>, pred: spec_fn(A) -> bool, i: int)
    requires
        0 <= i < s.len(),
    ensures
        s.take(i + 1).filter(pred) == if pred(s[i]) {
            s.take(i).filter(pred).push(s[i])
        } else {
            s.take(i).filter(pred)
        },
{
    reveal(Seq::filter);
    assert(s.take(i + 1).drop_last() =~= s.take(i));
}

/// Mapping a sequence that is one longer adds what the new last item gives.
proof fn lemma_filter_map_push<A, B>(s: Seq<A>, f: spec_fn(A) -> Option<B>, x: A)
    ensures
        s.push(x).filter_map(f) == match f(x) {
            Some(y) => s.filter_map(f).push(y),
            None => s.filter_map(f),
        },
{
    assert(s.push(x).drop_last() =~= s);
    match f(x) {
        Some(y) => {
            assert(s.filter_map(f) + seq![y] =~= s.filter_map(f).push(y));
        },
        None => {},
    }
}

/// The placeholder that the type name `dtype` declares.
pub fn declared(dtype: &String) -> (data: Option<PVSignalDataType>)
    ensures
        data.deep_view() == declared_value(dtype@),
{
    if *dtype == String::from_str("U16") {
        Some(PVSignalDataType::U16(0))
    } else if *dtype == String::from_str("U32") {
        Some(PVSignalDataType::U32(0))
    } else if *dtype == String::from_str("I16") {
        Some(PVSignalDataType::I16(0))
    } else if *dtype == String::from_str("I32") {
        Some(PVSignalDataType::I32(0))
    } else if *dtype == String::from_str("STR") {
        Some(PVSignalDataType::STR(String::new()))
    } else {
        None
    }
}

/// The constant fields of `category`, in order.
pub fn filter_category(data: &Vec<Const>, category: u8) -> (filtered: Vec<&Const>)
    ensures
        filtered.deep_view() == data.deep_view().filter(in_category(category)),
{
    let mut filtered: Vec<&Const> = Vec::new();
    let n = data.len();
    let mut i: usize = 0;
    assert(data.deep_view().take(0) =~= Seq::<FieldDef>::empty());
    assert(filtered.deep_view() =~= data.deep_view().take(0).filter(in_category(category))) by {
        reveal(Seq::filter);
    }
    while i < n
        invariant
            n == data.len(),
            i <= n,
            filtered.deep_view() == data.deep_view().take(i as int).filter(in_category(category)),
        decreases n - i,
    {
        let ghost before = filtered.deep_view();
        proof {
            lemma_filter_take_succ(data.deep_view(), in_category(category), i as int);
        }
        if data[i].category == category {
            filtered.push(&data[i]);
            assert(filtered.deep_view() =~= before.push(data[i as int]@));
        }
        i = i + 1;
    }
    assert(data.deep_view().take(n as int) =~= data.deep_view());
    filtered
}

/// Whether the template of `defs` fits at `base_addr`.
pub fn template_fits_at(defs: &Root, base_addr: u16) -> (fits: bool)
    ensures
        fits == template_fits(defs@.scheme.bat, base_addr),
{
    let n = defs.scheme.bat.len();
    let mut i: usize = 0;
    while i < n
        invariant
            n == defs.scheme.bat.len(),
            i <= n,
            forall|k: int|
                0 <= k < i ==> base_addr + (#[trigger] defs@.scheme.bat[k]).addr <= u16::MAX,
        decreases n - i,
    {
        if defs.scheme.bat[i].addr > u16::MAX - base_addr {
            assert(base_addr + defs@.scheme.bat[i as int].addr > u16::MAX);
            return false;
        }
        i = i + 1;
    }
    true
}

/// Whether the storage group of `defs` can be built.
pub fn storage_fits_in(defs: &Root) -> (fits: bool)
    ensures
        fits == storage_fits(defs@),
{
    template_fits_at(defs, PACK_2_ADDRESS)
}

/// Instantiates the battery-pack template for the pack `ident` at
/// `base_addr`: one signal per field, at the base address plus the field's
/// offset, named by the pack and the field.
pub fn gen_batdata(defs: &Root, base_addr: u16, ident: u8) -> (out: Vec<PVSignal>)
    requires
        template_fits(defs@.scheme.bat, base_addr),
    ensures
        out.deep_view() == template_signals(defs@.scheme.bat, base_addr, ident),
{
    let mut out: Vec<PVSignal> = Vec::new();
    let scheme = &defs.scheme.bat;
    let n = scheme.len();
    let mut i: usize = 0;
    while i < n
        invariant
            n == scheme.len(),
            scheme == &defs.scheme.bat,
            template_fits(defs@.scheme.bat, base_addr),
            i <= n,
            out.len() == i,
            forall|k: int|
                0 <= k < i ==> (#[trigger] out[k])@ == template_signal(
                    defs@.scheme.bat[k],
                    base_addr,
                    ident,
                ),
        decreases n - i,
    {
        let b: &Bat = &scheme[i];
        assert(b@ == defs@.scheme.bat[i as int]);
        let mut name = String::from_str("pack");
        name.append(decimal_string(ident).as_str());
        name.append("_");
        name.append(b.name.as_str());
        let data = match declared(&b.dtype) {
            Some(data) => data,
            None => PVSignalDataType::UNK(0),
        };
        let signal = PVSignal {
            data,
            address: base_addr + b.addr,
            length: b.len,
            name,
            unit: b.unit.clone(),
            gain: b.gain,
            time: 0,
        };
        out.push(signal);
        i = i + 1;
    }
    assert(out.deep_view() =~= template_signals(defs@.scheme.bat, base_addr, ident));
    out
}

/// The signals of `num_pvs` PV strings: a voltage and a current for each,
/// one register wide, at consecutive addresses.
pub fn gen_pvdata(num_pvs: u8) -> (pvs: Vec<PVString>)
    ensures
        pvs.deep_view() == pv_strings(num_pvs),
{
    let mut pvs: Vec<PVString> = Vec::new();
    let mut i: u8 = 0;
    while i < num_pvs
        invariant
            i <= num_pvs,
            pvs.len() == i,
            forall|k: int| 0 <= k < i ==> (#[trigger] pvs[k])@ == pv_string(k as nat),
        decreases num_pvs - i,
    {
        let mut voltage_name = String::from_str("pv_");
        voltage_name.append(decimal_string(i).as_str());
        voltage_name.append("_");
        voltage_name.append("voltage");
        let mut current_name = String::from_str("pv_");
        current_name.append(decimal_string(i).as_str());
        current_name.append("_");
        current_name.append("current");
        let pv = PVString {
            voltage: PVSignal {
                data: PVSignalDataType::I16(0),
                address: PV_BASE_ADDRESS + i as u16 * 2,
                length: 1,
                name: voltage_name,
                unit: String::from_str("V"),
                gain: 10,
                time: 0,
            },
            current: PVSignal {
                data: PVSignalDataType::I16(0),
                address: PV_BASE_ADDRESS + 1 + i as u16 * 2,
                length: 1,
                name: current_name,
                unit: String::from_str("A"),
                gain: 100,
                time: 0,
            },
        };
        pvs.push(pv);
        i = i + 1;
    }
    assert(pvs.deep_view() =~= pv_strings(num_pvs));
    pvs
}

/// The signals of one category of constant fields. A field whose type is
/// not recognized is left out.
pub fn gen_constdata(defs: &Root, category: u8) -> (signals: Vec<PVSignal>)
    ensures
        signals.deep_view() == const_signals(defs@.const_field, category),
{
    let fields = filter_category(&defs.const_field, category);
    let ghost chosen = fields.deep_view();
    let mut signals: Vec<PVSignal> = Vec::new();
    let n = fields.len();
    let mut i: usize = 0;
    assert(chosen.take(0) =~= Seq::<FieldDef>::empty());
    assert(signals.deep_view() =~= chosen.take(0).filter_map(const_signal_fn()));
    while i < n
        invariant
            n == fields.len(),
            chosen == fields.deep_view(),
            i <= n,
            signals.deep_view() == chosen.take(i as int).filter_map(const_signal_fn()),
        decreases n - i,
    {
        let ghost before = signals.deep_view();
        let c: &Const = fields[i];
        proof {
            assert(c@ == chosen[i as int]);
            assert(chosen.take(i as int + 1) =~= chosen.take(i as int).push(c@));
            lemma_filter_map_push(chosen.take(i as int), const_signal_fn(), c@);
        }
        match declared(&c.dtype) {
            Some(data) => {
                let signal = PVSignal {
                    data,
                    address: c.addr,
                    length: c.len,
                    name: c.name.clone(),
                    unit: c.unit.clone(),
                    gain: c.gain,
                    time: 0,
                };
                signals.push(signal);
                assert(signals.deep_view() =~= before.push(signal@));
            },
            None => {},
        }
        i = i + 1;
    }
    assert(chosen.take(n as int) =~= chosen);
    signals
}

/// The storage group: the constant fields of the storage category, then the
/// packs 0, 1 and 2 of the battery template.
pub fn gen_storagedata(defs: &Root) -> (signals: Vec<PVSignal>)
    requires
        storage_fits(defs@),
    ensures
        signals.deep_view() == storage_signals(defs@),
{
    let mut signals = gen_constdata(defs, STORAGE_CATEGORY);
    let mut pack0 = gen_batdata(defs, PACK_0_ADDRESS, 0);
    let mut pack1 = gen_batdata(defs, PACK_1_ADDRESS, 1);
    let mut pack2 = gen_batdata(defs, PACK_2_ADDRESS, 2);
    let ghost a = signals.deep_view();
    let ghost b = pack0.deep_view();
    let ghost c = pack1.deep_view();
    let ghost d = pack2.deep_view();
    signals.append(&mut pack0);
    signals.append(&mut pack1);
    signals.append(&mut pack2);
    assert(signals.deep_view() =~= a + b + c + d);
    signals
}

} // verus!
