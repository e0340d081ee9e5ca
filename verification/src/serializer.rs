//! The field serializer: converts one key and one typed source value into
//! one attribute-map entry, applied field by field across a field list.
use crate::attr::{AttrMap, AttrValue, AttrValueModel};
use crate::decimal::{dec_seq, dec_seq_int, i128_to_decimal, u128_to_decimal};
use vstd::prelude::*;

verus! {

/// A typed source field value, one variant per value type the field
/// protocol can hand over. A floating-point value is carried as the bit
/// pattern of the IEEE 754 double it denotes; a message-template
/// substitution arrives already rendered, as `Arguments`; a structured
/// value arrives already encoded.
#[derive(Debug, Clone, PartialEq)]
pub enum FieldValue {
    U8(u8),
    I8(i8),
    U16(u16),
    I16(i16),
    U32(u32),
    I32(i32),
    U64(u64),
    I64(i64),
    Usize(usize),
    Isize(isize),
    U128(u128),
    I128(i128),
    DoubleBits(u64),
    Str(String),
    Bool(bool),
    Arguments(String),
    Structured(serde_json::Value),
}

/// The attribute a source field value converts to. Total: an integer within
/// the backend's signed 64-bit range is stored numerically and exactly; one
/// outside it degrades to its canonical decimal rendering, never an error
/// and never a truncation.
pub open spec fn field_attr(v: FieldValue) -> AttrValueModel {
    match v {
        FieldValue::U8(x) => AttrValueModel::Int(x as int),
        FieldValue::I8(x) => AttrValueModel::Int(x as int),
        FieldValue::U16(x) => AttrValueModel::Int(x as int),
        FieldValue::I16(x) => AttrValueModel::Int(x as int),
        FieldValue::U32(x) => AttrValueModel::Int(x as int),
        FieldValue::I32(x) => AttrValueModel::Int(x as int),
        FieldValue::I64(x) => AttrValueModel::Int(x as int),
        FieldValue::U64(x) => if x as int <= i64::MAX as int {
            AttrValueModel::Int(x as int)
        } else {
            AttrValueModel::Str(dec_seq(x as nat))
        },
        FieldValue::Usize(x) => if x as int <= i64::MAX as int {
            AttrValueModel::Int(x as int)
        } else {
            AttrValueModel::Str(dec_seq(x as nat))
        },
        FieldValue::Isize(x) => if x as int <= i64::MAX as int {
            AttrValueModel::Int(x as int)
        } else {
            AttrValueModel::Str(dec_seq_int(x as int))
        },
        FieldValue::U128(x) => if x as int <= i64::MAX as int {
            AttrValueModel::Int(x as int)
        } else {
            AttrValueModel::Str(dec_seq(x as nat))
        },
        FieldValue::I128(x) => if i64::MIN as int <= x as int && x as int <= i64::MAX as int {
            AttrValueModel::Int(x as int)
        } else {
            AttrValueModel::Str(dec_seq_int(x as int))
        },
        FieldValue::DoubleBits(b) => AttrValueModel::DoubleBits(b),
        FieldValue::Str(s) => AttrValueModel::Str(s@),
        FieldValue::Bool(b) => AttrValueModel::Bool(b),
        FieldValue::Arguments(s) => AttrValueModel::Str(s@),
        FieldValue::Structured(v) => AttrValueModel::Structured(v),
    }
}

/// The mapping after a field list is serialized on top of `m`, field by
/// field in list order, the later write to a key winning.
pub open spec fn fold_fields(
    m: Map<Seq<char>, AttrValueModel>,
    s: Seq<(String, FieldValue)>,
) -> Map<Seq<char>, AttrValueModel>
    decreases s.len(),
{
    if s.len() == 0 {
        m
    } else {
        fold_fields(m, s.drop_last()).insert(s.last().0@, field_attr(s.last().1))
    }
}

/// A key no field writes keeps the mapping's verdict on it: present exactly
/// when it was, with its value unchanged.
pub proof fn lemma_fold_fields_no_key(
    m: Map<Seq<char>, AttrValueModel>,
    s: Seq<(String, FieldValue)>,
    k: Seq<char>,
)
    requires
        forall|i: int| 0 <= i < s.len() ==> s[i].0@ != k,
    ensures
        fold_fields(m, s).dom().contains(k) == m.dom().contains(k),
        m.dom().contains(k) ==> fold_fields(m, s)[k] == m[k],
    decreases s.len(),
{
    if s.len() > 0 {
        lemma_fold_fields_no_key(m, s.drop_last(), k);
    }
}

/// A key some field writes ends up with the value of the last field that
/// writes it, whatever the mapping held before.
pub proof fn lemma_fold_fields_last_occurrence(
    m: Map<Seq<char>, AttrValueModel>,
    s: Seq<(String, FieldValue)>,
    i: int,
)
    requires
        0 <= i < s.len(),
        forall|j: int| i < j < s.len() ==> s[j].0@ != s[i].0@,
    ensures
        fold_fields(m, s).dom().contains(s[i].0@),
        fold_fields(m, s)[s[i].0@] == field_attr(s[i].1),
    decreases s.len(),
{
    if i < s.len() - 1 {
        lemma_fold_fields_last_occurrence(m, s.drop_last(), i);
    }
}

/// Serializing fields never removes a key.
pub proof fn lemma_fold_fields_keeps_dom(
    m: Map<Seq<char>, AttrValueModel>,
    s: Seq<(String, FieldValue)>,
)
    ensures
        forall|k: Seq<char>| m.dom().contains(k) ==> #[trigger] fold_fields(m, s).dom().contains(k),
    decreases s.len(),
{
    if s.len() > 0 {
        lemma_fold_fields_keeps_dom(m, s.drop_last());
        assert forall|k: Seq<char>| m.dom().contains(k) implies #[trigger] fold_fields(
            m,
            s,
        ).dom().contains(k) by {
            assert(fold_fields(m, s.drop_last()).dom().contains(k));
        }
    }
}

/// The visitor that accumulates converted fields into one attribute map.
pub struct OtelSerializer {
    map: AttrMap,
}

impl View for OtelSerializer {
    type V = Map<Seq<char>, AttrValueModel>;

    closed spec fn view(&self) -> Map<Seq<char>, AttrValueModel> {
        self.map@
    }
}

impl OtelSerializer {
    /// Well-formedness of the accumulated map.
    pub closed spec fn wf(self) -> bool {
        self.map.wf()
    }

    /// A serializer over an empty attribute map.
    pub fn new() -> (r: OtelSerializer)
        ensures
            r.wf(),
            r@ == Map::<Seq<char>, AttrValueModel>::empty(),
    {
        OtelSerializer { map: AttrMap::new() }
    }

    /// A serializer that accumulates on top of `map`.
    pub fn over(map: AttrMap) -> (r: OtelSerializer)
        requires
            map.wf(),
        ensures
            r.wf(),
            r@ == map@,
    {
        OtelSerializer { map }
    }

    /// The accumulated attribute map.
    pub fn into_map(self) -> (r: AttrMap)
        requires
            self.wf(),
        ensures
            r.wf(),
            r@ == self@,
    {
        self.map
    }

    /// Store an already-rendered message-template substitution as a string
    /// attribute.
    pub fn emit_arguments(&mut self, key: String, val: &str)
        requires
            old(self).wf(),
        ensures
            final(self).wf(),
            final(self)@ == old(self)@.insert(key@, AttrValueModel::Str(val@)),
    {
        self.map.insert(key, AttrValue::Str(val.to_owned()));
    }

    /// Store a string attribute.
    pub fn emit_str(&mut self, key: String, val: &str)
        requires
            old(self).wf(),
        ensures
            final(self).wf(),
            final(self)@ == old(self)@.insert(key@, AttrValueModel::Str(val@)),
    {
        self.map.insert(key, AttrValue::Str(val.to_owned()));
    }

    /// Store a boolean attribute.
    pub fn emit_bool(&mut self, key: String, val: bool)
        requires
            old(self).wf(),
        ensures
            final(self).wf(),
            final(self)@ == old(self)@.insert(key@, field_attr(FieldValue::Bool(val))),
    {
        self.map.insert(key, AttrValue::Bool(val));
    }

    /// Store a floating-point attribute, carried as the bit pattern of the
    /// IEEE 754 double it denotes.
    pub fn emit_double_bits(&mut self, key: String, bits: u64)
        requires
            old(self).wf(),
        ensures
            final(self).wf(),
            final(self)@ == old(self)@.insert(key@, field_attr(FieldValue::DoubleBits(bits))),
    {
        self.map.insert(key, AttrValue::DoubleBits(bits));
    }

    /// Store an 8-bit unsigned integer: always representable.
    pub fn emit_u8(&mut self, key: String, val: u8)
        requires
            old(self).wf(),
        ensures
            final(self).wf(),
            final(self)@ == old(self)@.insert(key@, field_attr(FieldValue::U8(val))),
    {
        self.map.insert(key, AttrValue::Int(val as i64));
    }

    /// Store an 8-bit signed integer: always representable.
    pub fn emit_i8(&mut self, key: String, val: i8)
        requires
            old(self).wf(),
        ensures
            final(self).wf(),
            final(self)@ == old(self)@.insert(key@, field_attr(FieldValue::I8(val))),
    {
        self.map.insert(key, AttrValue::Int(val as i64));
    }

    /// Store a 16-bit unsigned integer: always representable.
    pub fn emit_u16(&mut self, key: String, val: u16)
        requires
            old(self).wf(),
        ensures
            final(self).wf(),
            final(self)@ == old(self)@.insert(key@, field_attr(FieldValue::U16(val))),
    {
        self.map.insert(key, AttrValue::Int(val as i64));
    }

    /// Store a 16-bit signed integer: always representable.
    pub fn emit_i16(&mut self, key: String, val: i16)
        requires
            old(self).wf(),
        ensures
            final(self).wf(),
            final(self)@ == old(self)@.insert(key@, field_attr(FieldValue::I16(val))),
    {
        self.map.insert(key, AttrValue::Int(val as i64));
    }

    /// Store a 32-bit unsigned integer: always representable.
    pub fn emit_u32(&mut self, key: String, val: u32)
        requires
            old(self).wf(),
        ensures
            final(self).wf(),
            final(self)@ == old(self)@.insert(key@, field_attr(FieldValue::U32(val))),
    {
        self.map.insert(key, AttrValue::Int(val as i64));
    }

    /// Store a 32-bit signed integer: always representable.
    pub fn emit_i32(&mut self, key: String, val: i32)
        requires
            old(self).wf(),
        ensures
            final(self).wf(),
            final(self)@ == old(self)@.insert(key@, field_attr(FieldValue::I32(val))),
    {
        self.map.insert(key, AttrValue::Int(val as i64));
    }

    /// Store a 64-bit signed integer: always representable.
    pub fn emit_i64(&mut self, key: String, val: i64)
        requires
            old(self).wf(),
        ensures
            final(self).wf(),
            final(self)@ == old(self)@.insert(key@, field_attr(FieldValue::I64(val))),
    {
        self.map.insert(key, AttrValue::Int(val));
    }

    /// Store a 64-bit unsigned integer: numeric when it fits the signed
    /// 64-bit range, its decimal rendering otherwise.
    pub fn emit_u64(&mut self, key: String, val: u64)
        requires
            old(self).wf(),
        ensures
            final(self).wf(),
            final(self)@ == old(self)@.insert(key@, field_attr(FieldValue::U64(val))),
    {
        if val > i64::MAX as u64 {
            self.map.insert(key, AttrValue::Str(u128_to_decimal(val as u128)));
        } else {
            self.map.insert(key, AttrValue::Int(val as i64));
        }
    }

    /// Store a platform-width unsigned integer: numeric when it fits the
    /// signed 64-bit range, its decimal rendering otherwise.
    pub fn emit_usize(&mut self, key: String, val: usize)
        requires
            old(self).wf(),
        ensures
            final(self).wf(),
            final(self)@ == old(self)@.insert(key@, field_attr(FieldValue::Usize(val))),
    {
        if val as u128 > i64::MAX as u128 {
            self.map.insert(key, AttrValue::Str(u128_to_decimal(val as u128)));
        } else {
            self.map.insert(key, AttrValue::Int(val as i64));
        }
    }

    /// Store a platform-width signed integer: numeric when it fits the
    /// signed 64-bit range, its decimal rendering otherwise.
    pub fn emit_isize(&mut self, key: String, val: isize)
        requires
            old(self).wf(),
        ensures
            final(self).wf(),
            final(self)@ == old(self)@.insert(key@, field_attr(FieldValue::Isize(val))),
    {
        if val as i128 > i64::MAX as i128 {
            self.map.insert(key, AttrValue::Str(i128_to_decimal(val as i128)));
        } else {
            self.map.insert(key, AttrValue::Int(val as i64));
        }
    }

    /// Store a 128-bit unsigned integer: numeric when it fits the signed
    /// 64-bit range, its decimal rendering otherwise.
    pub fn emit_u128(&mut self, key: String, val: u128)
        requires
            old(self).wf(),
        ensures
            final(self).wf(),
            final(self)@ == old(self)@.insert(key@, field_attr(FieldValue::U128(val))),
    {
        if val > i64::MAX as u128 {
            self.map.insert(key, AttrValue::Str(u128_to_decimal(val)));
        } else {
            self.map.insert(key, AttrValue::Int(val as i64));
        }
    }

    /// Store a 128-bit signed integer: numeric when it fits the signed
    /// 64-bit range, its decimal rendering otherwise.
    pub fn emit_i128(&mut self, key: String, val: i128)
        requires
            old(self).wf(),
        ensures
            final(self).wf(),
            final(self)@ == old(self)@.insert(key@, field_attr(FieldValue::I128(val))),
    {
        if val > i64::MAX as i128 || val < i64::MIN as i128 {
            self.map.insert(key, AttrValue::Str(i128_to_decimal(val)));
        } else {
            self.map.insert(key, AttrValue::Int(val as i64));
        }
    }

    /// Store a structured value's encoding as a structured attribute. The
    /// one field-level error path: an encoding that failed leaves the map
    /// untouched and surfaces the field protocol's error with its message.
    pub fn emit_serde(&mut self, key: String, encoded: Result<serde_json::Value, String>) -> (r:
        Result<(), crate::Error>)
        requires
            old(self).wf(),
        ensures
            final(self).wf(),
            match encoded {
                Ok(v) => r is Ok && final(self)@ == old(self)@.insert(
                    key@,
                    AttrValueModel::Structured(v),
                ),
                Err(m) => (r matches Err(e) && e == crate::Error::Slog(m)) && final(self)@ == old(
                    self,
                )@,
            },
    {
        match encoded {
            Ok(v) => {
                self.map.insert(key, AttrValue::Structured(v));
                Ok(())
            },
            Err(m) => Err(crate::Error::Slog(m)),
        }
    }

    /// Convert one field and store it under its key.
    pub fn serialize_field(&mut self, key: &String, value: &FieldValue)
        requires
            old(self).wf(),
        ensures
            final(self).wf(),
            final(self)@ == old(self)@.insert(key@, field_attr(*value)),
    {
        match value {
            FieldValue::U8(x) => self.emit_u8(key.clone(), *x),
            FieldValue::I8(x) => self.emit_i8(key.clone(), *x),
            FieldValue::U16(x) => self.emit_u16(key.clone(), *x),
            FieldValue::I16(x) => self.emit_i16(key.clone(), *x),
            FieldValue::U32(x) => self.emit_u32(key.clone(), *x),
            FieldValue::I32(x) => self.emit_i32(key.clone(), *x),
            FieldValue::U64(x) => self.emit_u64(key.clone(), *x),
            FieldValue::I64(x) => self.emit_i64(key.clone(), *x),
            FieldValue::Usize(x) => self.emit_usize(key.clone(), *x),
            FieldValue::Isize(x) => self.emit_isize(key.clone(), *x),
            FieldValue::U128(x) => self.emit_u128(key.clone(), *x),
            FieldValue::I128(x) => self.emit_i128(key.clone(), *x),
            FieldValue::DoubleBits(b) => self.emit_double_bits(key.clone(), *b),
            FieldValue::Str(s) => self.emit_str(key.clone(), s.as_str()),
            FieldValue::Bool(b) => self.emit_bool(key.clone(), *b),
            FieldValue::Arguments(s) => self.emit_arguments(key.clone(), s.as_str()),
            FieldValue::Structured(v) => self.map.insert(key.clone(), AttrValue::Structured(
                v.clone(),
            )),
        }
    }

    /// Serialize a whole field list, in order, on top of what the map
    /// already holds.
    pub fn serialize_fields(&mut self, fields: &Vec<(String, FieldValue)>)
        requires
            old(self).wf(),
        ensures
            final(self).wf(),
            final(self)@ == fold_fields(old(self)@, fields@),
    {
        let n = fields.len();
        let mut i: usize = 0;
        while i < n
            invariant
                n == fields@.len(),
                i <= n,
                self.wf(),
                self@ == fold_fields(old(self)@, fields@.take(i as int)),
            decreases n - i,
        {
            let e = &fields[i];
            self.serialize_field(&e.0, &e.1);
            proof {
                assert(fields@.take(i as int + 1).drop_last() =~= fields@.take(i as int));
                assert(fields@.take(i as int + 1).last() == fields@[i as int]);
            }
            i += 1;
        }
        proof {
            assert(fields@.take(n as int) =~= fields@);
        }
    }
}

} // verus!
