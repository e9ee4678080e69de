//! The decoding engine: storage values back to structured values.
//!
//! A single storage value is decoded against a requested shape
//! ([`DecodeTarget`]) by [`decode_value`]; a whole row is decoded against a
//! [`RowTarget`] by [`RowDeserializer::decode`], which drives the per-column
//! decode and annotates every field or element failure with its column name.

use vstd::prelude::*;
use vstd::string::StrSliceExecFns;

use crate::error::{res_view, spec_de_unsupported_msg, Error, SpecError};
use crate::value::{
    spec_f64_is_zero, spec_strings, spec_values, SpecValue, StorageValue, F32_NAN_BITS,
    F64_NAN_BITS,
};

verus! {

/// How one variant of a target enumeration is shaped.
#[derive(Debug, PartialEq)]
pub enum VariantKind {
    /// A payload-less variant: the only kind this engine can produce.
    Unit,
    Newtype,
    Tuple,
    Struct,
}

/// One variant of a target enumeration.
#[derive(Debug, PartialEq)]
pub struct EnumVariant {
    /// The variant's name, matched exactly against the stored text.
    pub name: String,
    /// The variant's shape.
    pub kind: VariantKind,
}

/// The shape one column value is decoded into.
#[derive(Debug, PartialEq)]
pub enum DecodeTarget {
    Bool,
    /// A single-precision float; the decoded bits are IEEE-754 patterns.
    F32,
    /// A double-precision float; the decoded bits are IEEE-754 patterns.
    F64,
    /// A 64-bit signed integer consumer, reached through the generic-any
    /// fallback.
    Integer,
    /// A character consumer: exactly one-character text.
    Char,
    /// A string consumer.
    Text,
    /// A byte-sequence consumer, reached through the generic-any fallback.
    Bytes,
    /// The optimized byte-buffer path: the accessor itself insists on a blob.
    ByteBuf,
    /// An optional value: null decodes to absent.
    Optional(Box<DecodeTarget>),
    Unit,
    /// A unit struct: text equal to the struct name.
    UnitStruct(String),
    /// An enumeration with the given variants.
    Enum(Vec<EnumVariant>),
    /// No known target shape: the generic-any fallback.
    Any,
}

/// A decoded structured value: the closed output set of the decoding engine.
///
/// `Integer` under a float-typed target means the stored value was an
/// integer; widening it is the consumer's own step, outside this engine.
#[derive(Debug, PartialEq)]
pub enum DecodedValue {
    /// A null decoded under an optional or generic-any target.
    Absent,
    Bool(bool),
    Integer(i64),
    /// A double, as its IEEE-754 bit pattern.
    Real(u64),
    /// A single-precision float, as its IEEE-754 bit pattern.
    Real32(u32),
    Char(char),
    Text(String),
    Bytes(Vec<u8>),
    Unit,
    /// The selected unit variant of a target enumeration.
    Variant(String),
    /// A present optional value.
    Present(Box<DecodedValue>),
}

/// Mathematical model of a [`DecodedValue`].
pub enum SpecDecoded {
    Absent,
    Bool(bool),
    Integer(int),
    Real(u64),
    Real32(u32),
    Char(char),
    Text(Seq<char>),
    Bytes(Seq<u8>),
    Unit,
    Variant(Seq<char>),
    Present(Box<SpecDecoded>),
}

impl View for DecodedValue {
    type V = SpecDecoded;

    open spec fn view(&self) -> SpecDecoded
        decreases self,
    {
        match self {
            DecodedValue::Absent => SpecDecoded::Absent,
            DecodedValue::Bool(b) => SpecDecoded::Bool(*b),
            DecodedValue::Integer(i) => SpecDecoded::Integer(*i as int),
            DecodedValue::Real(b) => SpecDecoded::Real(*b),
            DecodedValue::Real32(b) => SpecDecoded::Real32(*b),
            DecodedValue::Char(c) => SpecDecoded::Char(*c),
            DecodedValue::Text(s) => SpecDecoded::Text(s@),
            DecodedValue::Bytes(b) => SpecDecoded::Bytes(b@),
            DecodedValue::Unit => SpecDecoded::Unit,
            DecodedValue::Variant(s) => SpecDecoded::Variant(s@),
            DecodedValue::Present(inner) => SpecDecoded::Present(Box::new((**inner)@)),
        }
    }
}

/// The result of selecting a variant of a target enumeration by the stored
/// text: the first variant whose name matches, a failure naming the variant
/// shape when that variant carries a payload, and an unannotated decode
/// failure when no variant matches.
pub open spec fn spec_select_variant(variants: Seq<EnumVariant>, s: Seq<char>) -> Result<
    SpecDecoded,
    SpecError,
>
    decreases variants.len(),
{
    if variants.len() == 0 {
        Err(SpecError::Deserialization(None))
    } else if variants.first().name@ == s {
        match variants.first().kind {
            VariantKind::Unit => Ok(SpecDecoded::Variant(s)),
            VariantKind::Newtype => Err(
                SpecError::Unsupported(spec_de_unsupported_msg("newtype_variant"@)),
            ),
            VariantKind::Tuple => Err(
                SpecError::Unsupported(spec_de_unsupported_msg("tuple_variant"@)),
            ),
            VariantKind::Struct => Err(
                SpecError::Unsupported(spec_de_unsupported_msg("struct_variant"@)),
            ),
        }
    } else {
        spec_select_variant(variants.drop_first(), s)
    }
}

/// Skipping variants whose names do not match leaves the selection
/// unchanged.
pub proof fn lemma_select_variant_skip(variants: Seq<EnumVariant>, s: Seq<char>, i: int)
    requires
        0 <= i <= variants.len(),
        forall|k: int| 0 <= k < i ==> variants[k].name@ != s,
    ensures
        spec_select_variant(variants, s) == spec_select_variant(variants.subrange(i, variants.len() as int), s),
    decreases i,
{
    if i > 0 {
        lemma_select_variant_skip(variants.drop_first(), s, i - 1);
        assert(variants.drop_first().subrange(i - 1, variants.drop_first().len() as int)
            =~= variants.subrange(i, variants.len() as int));
    } else {
        assert(variants.subrange(0, variants.len() as int) =~= variants);
    }
}

/// What one storage value decodes to under one target shape, per the
/// coercion policy:
///
/// - booleans accept integers and reals, zero meaning false;
/// - float targets turn null into NaN, pass reals through, and hand an
///   integer to the consumer to widen;
/// - optional targets turn null into absent and are otherwise transparent;
/// - unit accepts null only; a unit struct accepts exactly its own name as
///   text;
/// - an enumeration insists on text (anything else is the accessor's own
///   type failure) and selects a unit variant by exact name;
/// - the byte-buffer path insists on a blob at the accessor;
/// - integer, character, string and byte-sequence consumers accept exactly
///   the matching generic-any outcome;
/// - the generic-any fallback maps the five storage kinds onto
///   absent / integer / real bits / text / bytes.
pub open spec fn spec_decode_value(t: DecodeTarget, v: SpecValue) -> Result<
    SpecDecoded,
    SpecError,
>
    decreases t,
{
    match t {
        DecodeTarget::Bool => match v {
            SpecValue::Integer(i) => Ok(SpecDecoded::Bool(i != 0)),
            SpecValue::Real(b) => Ok(SpecDecoded::Bool(!spec_f64_is_zero(b))),
            _ => Err(SpecError::Deserialization(None)),
        },
        DecodeTarget::F32 => match v {
            SpecValue::Null => Ok(SpecDecoded::Real32(F32_NAN_BITS)),
            SpecValue::Integer(i) => Ok(SpecDecoded::Integer(i)),
            SpecValue::Real(b) => Ok(SpecDecoded::Real(b)),
            _ => Err(SpecError::Deserialization(None)),
        },
        DecodeTarget::F64 => match v {
            SpecValue::Null => Ok(SpecDecoded::Real(F64_NAN_BITS)),
            SpecValue::Integer(i) => Ok(SpecDecoded::Integer(i)),
            SpecValue::Real(b) => Ok(SpecDecoded::Real(b)),
            _ => Err(SpecError::Deserialization(None)),
        },
        DecodeTarget::Integer => match v {
            SpecValue::Integer(i) => Ok(SpecDecoded::Integer(i)),
            _ => Err(SpecError::Deserialization(None)),
        },
        DecodeTarget::Char => match v {
            SpecValue::Text(s) => if s.len() == 1 {
                Ok(SpecDecoded::Char(s[0]))
            } else {
                Err(SpecError::Deserialization(None))
            },
            _ => Err(SpecError::Deserialization(None)),
        },
        DecodeTarget::Text => match v {
            SpecValue::Text(s) => Ok(SpecDecoded::Text(s)),
            _ => Err(SpecError::Deserialization(None)),
        },
        DecodeTarget::Bytes => match v {
            SpecValue::Blob(b) => Ok(SpecDecoded::Bytes(b)),
            _ => Err(SpecError::Deserialization(None)),
        },
        DecodeTarget::ByteBuf => match v {
            SpecValue::Blob(b) => Ok(SpecDecoded::Bytes(b)),
            _ => Err(SpecError::Driver),
        },
        DecodeTarget::Optional(inner) => match v {
            SpecValue::Null => Ok(SpecDecoded::Absent),
            _ => match spec_decode_value(*inner, v) {
                Ok(d) => Ok(SpecDecoded::Present(Box::new(d))),
                Err(e) => Err(e),
            },
        },
        DecodeTarget::Unit => match v {
            SpecValue::Null => Ok(SpecDecoded::Unit),
            _ => Err(SpecError::Deserialization(None)),
        },
        DecodeTarget::UnitStruct(name) => match v {
            SpecValue::Text(s) => if s == name@ {
                Ok(SpecDecoded::Unit)
            } else {
                Err(SpecError::Deserialization(None))
            },
            _ => Err(SpecError::Deserialization(None)),
        },
        DecodeTarget::Enum(variants) => match v {
            SpecValue::Text(s) => spec_select_variant(variants@, s),
            _ => Err(SpecError::Driver),
        },
        DecodeTarget::Any => match v {
            SpecValue::Null => Ok(SpecDecoded::Absent),
            SpecValue::Integer(i) => Ok(SpecDecoded::Integer(i)),
            SpecValue::Real(b) => Ok(SpecDecoded::Real(b)),
            SpecValue::Text(s) => Ok(SpecDecoded::Text(s)),
            SpecValue::Blob(b) => Ok(SpecDecoded::Bytes(b)),
        },
    }
}

/// Decode one storage value against one target shape, per
/// [`spec_decode_value`].
#[verifier::loop_isolation(false)]
pub fn decode_value(t: &DecodeTarget, v: &StorageValue) -> (r: Result<DecodedValue, Error>)
    ensures
        res_view(r) == spec_decode_value(*t, v@),
    decreases t,
{
    match t {
        DecodeTarget::Bool => match v {
            StorageValue::Integer(i) => Ok(DecodedValue::Bool(*i != 0)),
            StorageValue::Real(b) => Ok(
                DecodedValue::Bool(!crate::value::f64_bits_is_zero(*b)),
            ),
            _ => Err(Error::de_failure("invalid type for a boolean")),
        },
        DecodeTarget::F32 => match v {
            StorageValue::Null => Ok(DecodedValue::Real32(F32_NAN_BITS)),
            StorageValue::Integer(i) => Ok(DecodedValue::Integer(*i)),
            StorageValue::Real(b) => Ok(DecodedValue::Real(*b)),
            _ => Err(Error::de_failure("invalid type for a float")),
        },
        DecodeTarget::F64 => match v {
            StorageValue::Null => Ok(DecodedValue::Real(F64_NAN_BITS)),
            StorageValue::Integer(i) => Ok(DecodedValue::Integer(*i)),
            StorageValue::Real(b) => Ok(DecodedValue::Real(*b)),
            _ => Err(Error::de_failure("invalid type for a float")),
        },
        DecodeTarget::Integer => match v {
            StorageValue::Integer(i) => Ok(DecodedValue::Integer(*i)),
            _ => Err(Error::de_failure("invalid type for an integer")),
        },
        DecodeTarget::Char => match v {
            StorageValue::Text(s) => {
                if s.as_str().unicode_len() == 1 {
                    Ok(DecodedValue::Char(s.as_str().get_char(0)))
                } else {
                    Err(Error::de_failure("expected text holding one character"))
                }
            },
            _ => Err(Error::de_failure("invalid type for a character")),
        },
        DecodeTarget::Text => match v {
            StorageValue::Text(s) => Ok(DecodedValue::Text(s.clone())),
            _ => Err(Error::de_failure("invalid type for a string")),
        },
        DecodeTarget::Bytes => match v {
            StorageValue::Blob(b) => Ok(DecodedValue::Bytes(b.clone())),
            _ => Err(Error::de_failure("invalid type for a byte sequence")),
        },
        DecodeTarget::ByteBuf => match v {
            StorageValue::Blob(b) => Ok(DecodedValue::Bytes(b.clone())),
            _ => Err(Error::driver("Invalid column type")),
        },
        DecodeTarget::Optional(inner) => match v {
            StorageValue::Null => Ok(DecodedValue::Absent),
            _ => match decode_value(&**inner, v) {
                Ok(d) => Ok(DecodedValue::Present(Box::new(d))),
                Err(e) => Err(e),
            },
        },
        DecodeTarget::Unit => match v {
            StorageValue::Null => Ok(DecodedValue::Unit),
            _ => Err(Error::de_failure("invalid type for a unit")),
        },
        DecodeTarget::UnitStruct(name) => match v {
            StorageValue::Text(s) => {
                if *s == *name {
                    Ok(DecodedValue::Unit)
                } else {
                    Err(Error::de_failure("text does not match the unit struct name"))
                }
            },
            _ => Err(Error::de_failure("invalid type for a unit struct")),
        },
        DecodeTarget::Enum(variants) => match v {
            StorageValue::Text(s) => {
                let mut j: usize = 0;
                while j < variants.len()
                    invariant
                        j <= variants.len(),
                        forall|k: int| 0 <= k < j ==> variants@[k].name@ != s@,
                    decreases variants.len() - j,
                {
                    if variants[j].name == *s {
                        proof {
                            lemma_select_variant_skip(variants@, s@, j as int);
                        }
                        return match variants[j].kind {
                            VariantKind::Unit => Ok(DecodedValue::Variant(s.clone())),
                            VariantKind::Newtype => Err(Error::de_unsupported("newtype_variant")),
                            VariantKind::Tuple => Err(Error::de_unsupported("tuple_variant")),
                            VariantKind::Struct => Err(Error::de_unsupported("struct_variant")),
                        };
                    }
                    j += 1;
                }
                proof {
                    lemma_select_variant_skip(variants@, s@, variants@.len() as int);
                }
                Err(Error::de_failure("unknown variant"))
            },
            _ => Err(Error::driver("Invalid column type")),
        },
        DecodeTarget::Any => match v {
            StorageValue::Null => Ok(DecodedValue::Absent),
            StorageValue::Integer(i) => Ok(DecodedValue::Integer(*i)),
            StorageValue::Real(b) => Ok(DecodedValue::Real(*b)),
            StorageValue::Text(s) => Ok(DecodedValue::Text(s.clone())),
            StorageValue::Blob(b) => Ok(DecodedValue::Bytes(b.clone())),
        },
    }
}

/// The shape a whole row is decoded into.
#[derive(Debug, PartialEq)]
pub enum RowTarget {
    /// A single wrapped value: column 0 decoded against one target shape.
    Single(DecodeTarget),
    /// A tuple or sequence: one target shape per element, from column 0.
    Tuple(Vec<DecodeTarget>),
    /// A map keyed by column name, every value under one target shape.
    Mapping(DecodeTarget),
    /// A record: each column is matched against the named fields, and
    /// columns naming no field are ignored.
    Struct(Vec<(String, DecodeTarget)>),
}

/// A decoded row.
#[derive(Debug, PartialEq)]
pub enum RowDecoded {
    /// The single wrapped value of column 0.
    Single(DecodedValue),
    /// The elements of a tuple or sequence, in column order.
    Tuple(Vec<DecodedValue>),
    /// (column name, value) entries, in column order.
    Mapping(Vec<(String, DecodedValue)>),
}

/// Mathematical model of a [`RowDecoded`].
pub enum SpecRow {
    Single(SpecDecoded),
    Tuple(Seq<SpecDecoded>),
    Mapping(Seq<(Seq<char>, SpecDecoded)>),
}

/// The views of a sequence of decoded values.
pub open spec fn spec_decoded_seq(s: Seq<DecodedValue>) -> Seq<SpecDecoded> {
    s.map_values(|d: DecodedValue| d@)
}

/// The views of a sequence of decoded (column name, value) entries.
pub open spec fn spec_decoded_entries(s: Seq<(String, DecodedValue)>) -> Seq<
    (Seq<char>, SpecDecoded),
> {
    s.map_values(|p: (String, DecodedValue)| (p.0@, p.1@))
}

impl View for RowDecoded {
    type V = SpecRow;

    open spec fn view(&self) -> SpecRow {
        match self {
            RowDecoded::Single(d) => SpecRow::Single(d@),
            RowDecoded::Tuple(ds) => SpecRow::Tuple(spec_decoded_seq(ds@)),
            RowDecoded::Mapping(es) => SpecRow::Mapping(spec_decoded_entries(es@)),
        }
    }
}

/// Attach a column name to a decode failure; every other error kind passes
/// through unchanged.
pub open spec fn spec_annotate(e: SpecError, col: Seq<char>) -> SpecError {
    match e {
        SpecError::Deserialization(_) => SpecError::Deserialization(Some(col)),
        _ => e,
    }
}

/// Attach the column name to a decode failure, per [`spec_annotate`]: a
/// generic decode failure gains the name of the column it arose in, nearest
/// to its origin; any other error is returned unchanged.
pub fn add_field_to_error(e: Error, error_column: &String) -> (r: Error)
    ensures
        r@ == spec_annotate(e@, error_column@),
{
    match e {
        Error::Deserialization { column: _, message } => Error::Deserialization {
            column: Some(error_column.clone()),
            message,
        },
        other => other,
    }
}

/// The first named field a column name selects, if any.
pub open spec fn spec_field_target(fields: Seq<(String, DecodeTarget)>, name: Seq<char>) -> Option<
    DecodeTarget,
>
    decreases fields.len(),
{
    if fields.len() == 0 {
        None
    } else if fields.first().0@ == name {
        Some(fields.first().1)
    } else {
        spec_field_target(fields.drop_first(), name)
    }
}

/// Skipping fields whose names do not match leaves the selection unchanged.
pub proof fn lemma_field_target_skip(fields: Seq<(String, DecodeTarget)>, name: Seq<char>, i: int)
    requires
        0 <= i <= fields.len(),
        forall|k: int| 0 <= k < i ==> fields[k].0@ != name,
    ensures
        spec_field_target(fields, name) == spec_field_target(
            fields.subrange(i, fields.len() as int),
            name,
        ),
    decreases i,
{
    if i > 0 {
        lemma_field_target_skip(fields.drop_first(), name, i - 1);
        assert(fields.drop_first().subrange(i - 1, fields.drop_first().len() as int)
            =~= fields.subrange(i, fields.len() as int));
    } else {
        assert(fields.subrange(0, fields.len() as int) =~= fields);
    }
}

/// The elements a tuple-shaped row decode produces: element `i` comes from
/// column `i`; asking for more elements than the row holds surfaces the
/// accessor's own out-of-range failure; a decode failure is annotated with
/// the column's name where one is known.
pub open spec fn spec_decode_tuple(
    ts: Seq<DecodeTarget>,
    row: Seq<SpecValue>,
    cols: Seq<Seq<char>>,
) -> Result<Seq<SpecDecoded>, SpecError>
    decreases ts.len(),
{
    if ts.len() == 0 {
        Ok(Seq::empty())
    } else {
        match spec_decode_tuple(ts.drop_last(), row, cols) {
            Err(e) => Err(e),
            Ok(pre) => {
                let i = ts.len() - 1;
                if i >= row.len() {
                    Err(SpecError::Driver)
                } else {
                    match spec_decode_value(ts.last(), row[i as int]) {
                        Ok(d) => Ok(pre.push(d)),
                        Err(e) => Err(
                            if i < cols.len() {
                                spec_annotate(e, cols[i as int])
                            } else {
                                e
                            },
                        ),
                    }
                }
            },
        }
    }
}

/// A failure in a prefix settles the whole tuple decode.
pub proof fn lemma_decode_tuple_err_prefix(
    ts: Seq<DecodeTarget>,
    row: Seq<SpecValue>,
    cols: Seq<Seq<char>>,
    i: int,
)
    requires
        0 <= i <= ts.len(),
        spec_decode_tuple(ts.subrange(0, i), row, cols) is Err,
    ensures
        spec_decode_tuple(ts, row, cols) == spec_decode_tuple(ts.subrange(0, i), row, cols),
    decreases ts.len() - i,
{
    if i == ts.len() {
        assert(ts.subrange(0, i) =~= ts);
    } else {
        assert(ts.subrange(0, i + 1).drop_last() =~= ts.subrange(0, i));
        lemma_decode_tuple_err_prefix(ts, row, cols, i + 1);
    }
}

/// The entries a map-shaped row decode produces: one entry per column name,
/// keyed by it, the value of column `i` decoded under the map's value shape;
/// a decode failure is annotated with the column's name.
pub open spec fn spec_decode_map(
    vt: DecodeTarget,
    row: Seq<SpecValue>,
    cols: Seq<Seq<char>>,
) -> Result<Seq<(Seq<char>, SpecDecoded)>, SpecError>
    decreases cols.len(),
{
    if cols.len() == 0 {
        Ok(Seq::empty())
    } else {
        match spec_decode_map(vt, row, cols.drop_last()) {
            Err(e) => Err(e),
            Ok(pre) => {
                let i = cols.len() - 1;
                if i >= row.len() {
                    Err(SpecError::Driver)
                } else {
                    match spec_decode_value(vt, row[i as int]) {
                        Ok(d) => Ok(pre.push((cols.last(), d))),
                        Err(e) => Err(spec_annotate(e, cols.last())),
                    }
                }
            },
        }
    }
}

/// Columns that all decode settle the map decode of their prefix.
pub proof fn lemma_decode_map_prefix_ok(
    vt: DecodeTarget,
    row: Seq<SpecValue>,
    cols: Seq<Seq<char>>,
    i: int,
)
    requires
        0 <= i <= cols.len(),
        i <= row.len(),
        forall|j: int| 0 <= j < i ==> spec_decode_value(vt, row[j]) is Ok,
    ensures
        spec_decode_map(vt, row, cols.subrange(0, i)) is Ok,
    decreases i,
{
    if i > 0 {
        lemma_decode_map_prefix_ok(vt, row, cols, i - 1);
        assert(cols.subrange(0, i).drop_last() =~= cols.subrange(0, i - 1));
    }
}

/// A failure in a prefix settles the whole map decode.
pub proof fn lemma_decode_map_err_prefix(
    vt: DecodeTarget,
    row: Seq<SpecValue>,
    cols: Seq<Seq<char>>,
    i: int,
)
    requires
        0 <= i <= cols.len(),
        spec_decode_map(vt, row, cols.subrange(0, i)) is Err,
    ensures
        spec_decode_map(vt, row, cols) == spec_decode_map(vt, row, cols.subrange(0, i)),
    decreases cols.len() - i,
{
    if i == cols.len() {
        assert(cols.subrange(0, i) =~= cols);
    } else {
        assert(cols.subrange(0, i + 1).drop_last() =~= cols.subrange(0, i));
        lemma_decode_map_err_prefix(vt, row, cols, i + 1);
    }
}

/// The entries a record-shaped row decode produces: each column selects the
/// first field of its name and decodes under that field's shape; a column
/// naming no field is ignored; a decode failure is annotated with the
/// column's name.
pub open spec fn spec_decode_struct(
    fields: Seq<(String, DecodeTarget)>,
    row: Seq<SpecValue>,
    cols: Seq<Seq<char>>,
) -> Result<Seq<(Seq<char>, SpecDecoded)>, SpecError>
    decreases cols.len(),
{
    if cols.len() == 0 {
        Ok(Seq::empty())
    } else {
        match spec_decode_struct(fields, row, cols.drop_last()) {
            Err(e) => Err(e),
            Ok(pre) => {
                let i = cols.len() - 1;
                if i >= row.len() {
                    Err(SpecError::Driver)
                } else {
                    match spec_field_target(fields, cols.last()) {
                        None => Ok(pre),
                        Some(ft) => match spec_decode_value(ft, row[i as int]) {
                            Ok(d) => Ok(pre.push((cols.last(), d))),
                            Err(e) => Err(spec_annotate(e, cols.last())),
                        },
                    }
                }
            },
        }
    }
}

/// A failure in a prefix settles the whole record decode.
pub proof fn lemma_decode_struct_err_prefix(
    fields: Seq<(String, DecodeTarget)>,
    row: Seq<SpecValue>,
    cols: Seq<Seq<char>>,
    i: int,
)
    requires
        0 <= i <= cols.len(),
        spec_decode_struct(fields, row, cols.subrange(0, i)) is Err,
    ensures
        spec_decode_struct(fields, row, cols) == spec_decode_struct(
            fields,
            row,
            cols.subrange(0, i),
        ),
    decreases cols.len() - i,
{
    if i == cols.len() {
        assert(cols.subrange(0, i) =~= cols);
    } else {
        assert(cols.subrange(0, i + 1).drop_last() =~= cols.subrange(0, i));
        lemma_decode_struct_err_prefix(fields, row, cols, i + 1);
    }
}

/// What a whole row decodes to under a row target, per the row decoding
/// policy: a single wrapped value delegates to column 0 (an empty row is the
/// accessor's own failure), a tuple takes one column per element, a map or
/// record takes the columns in order.
pub open spec fn spec_decode_row(
    t: RowTarget,
    row: Seq<SpecValue>,
    cols: Seq<Seq<char>>,
) -> Result<SpecRow, SpecError> {
    match t {
        RowTarget::Single(dt) => if row.len() == 0 {
            Err(SpecError::Driver)
        } else {
            match spec_decode_value(dt, row[0]) {
                Ok(d) => Ok(SpecRow::Single(d)),
                Err(e) => Err(e),
            }
        },
        RowTarget::Tuple(ts) => match spec_decode_tuple(ts@, row, cols) {
            Ok(ds) => Ok(SpecRow::Tuple(ds)),
            Err(e) => Err(e),
        },
        RowTarget::Mapping(vt) => match spec_decode_map(vt, row, cols) {
            Ok(es) => Ok(SpecRow::Mapping(es)),
            Err(e) => Err(e),
        },
        RowTarget::Struct(fields) => match spec_decode_struct(fields@, row, cols) {
            Ok(es) => Ok(SpecRow::Mapping(es)),
            Err(e) => Err(e),
        },
    }
}

/// The first field of `fields` named `name`, if any.
fn field_target<'a>(fields: &'a Vec<(String, DecodeTarget)>, name: &String) -> (r: Option<
    &'a DecodeTarget,
>)
    ensures
        match spec_field_target(fields@, name@) {
            Some(ft) => r matches Some(x) && *x == ft,
            None => r is None,
        },
{
    let mut j: usize = 0;
    while j < fields.len()
        invariant
            j <= fields.len(),
            forall|k: int| 0 <= k < j ==> fields@[k].0@ != name@,
        decreases fields.len() - j,
    {
        if fields[j].0 == *name {
            proof {
                lemma_field_target_skip(fields@, name@, j as int);
            }
            return Some(&fields[j].1);
        }
        j += 1;
    }
    proof {
        lemma_field_target_skip(fields@, name@, fields@.len() as int);
    }
    None
}

/// Decoder for one fetched row against an owned column name list.
pub struct RowDeserializer {
    /// The row's storage values, one per column.
    pub row: Vec<StorageValue>,
    /// The column names; for a full-row decode their number equals the row
    /// width.
    pub columns: Vec<String>,
}

impl RowDeserializer {
    /// A decoder over one row and its column names.
    pub fn from_row_with_columns(row: Vec<StorageValue>, columns: Vec<String>) -> (r: Self)
        ensures
            r.row@ == row@,
            r.columns@ == columns@,
    {
        RowDeserializer { row, columns }
    }

    /// Decode the whole row against a row target, per [`spec_decode_row`]:
    /// every field or element decode failure carries the name of the column
    /// it arose in, attached exactly once, nearest to its origin.
    #[verifier::loop_isolation(false)]
    pub fn decode(&self, t: &RowTarget) -> (r: Result<RowDecoded, Error>)
        ensures
            res_view(r) == spec_decode_row(*t, spec_values(self.row@), spec_strings(self.columns@)),
    {
        let ghost grow = spec_values(self.row@);
        let ghost gcols = spec_strings(self.columns@);
        match t {
            RowTarget::Single(dt) => {
                if self.row.len() == 0 {
                    Err(Error::driver("Invalid column index"))
                } else {
                    match decode_value(dt, &self.row[0]) {
                        Ok(d) => Ok(RowDecoded::Single(d)),
                        Err(e) => Err(e),
                    }
                }
            },
            RowTarget::Tuple(ts) => {
                let mut out: Vec<DecodedValue> = Vec::new();
                let mut i: usize = 0;
                while i < ts.len()
                    invariant
                        i <= ts.len(),
                        spec_decode_tuple(ts@.subrange(0, i as int), grow, gcols) matches Ok(pre)
                            && spec_decoded_seq(out@) == pre,
                    decreases ts.len() - i,
                {
                    proof {
                        assert(ts@.subrange(0, i + 1).drop_last() =~= ts@.subrange(0, i as int));
                    }
                    if i >= self.row.len() {
                        proof {
                            lemma_decode_tuple_err_prefix(ts@, grow, gcols, i + 1);
                        }
                        return Err(Error::driver("Invalid column index"));
                    }
                    let ghost pre_out = out@;
                    match decode_value(&ts[i], &self.row[i]) {
                        Ok(d) => {
                            out.push(d);
                            proof {
                                assert(spec_decoded_seq(pre_out.push(d)) =~= spec_decoded_seq(
                                    pre_out,
                                ).push(d@));
                            }
                            i += 1;
                        },
                        Err(e) => {
                            proof {
                                lemma_decode_tuple_err_prefix(ts@, grow, gcols, i + 1);
                            }
                            if i < self.columns.len() {
                                return Err(add_field_to_error(e, &self.columns[i]));
                            } else {
                                return Err(e);
                            }
                        },
                    }
                }
                proof {
                    assert(ts@.subrange(0, ts@.len() as int) =~= ts@);
                }
                Ok(RowDecoded::Tuple(out))
            },
            RowTarget::Mapping(vt) => {
                let mut out: Vec<(String, DecodedValue)> = Vec::new();
                let mut i: usize = 0;
                while i < self.columns.len()
                    invariant
                        i <= self.columns.len(),
                        spec_decode_map(*vt, grow, gcols.subrange(0, i as int)) matches Ok(pre)
                            && spec_decoded_entries(out@) == pre,
                    decreases self.columns.len() - i,
                {
                    proof {
                        assert(gcols.subrange(0, i + 1).drop_last() =~= gcols.subrange(
                            0,
                            i as int,
                        ));
                    }
                    if i >= self.row.len() {
                        proof {
                            lemma_decode_map_err_prefix(*vt, grow, gcols, i + 1);
                        }
                        return Err(Error::driver("Invalid column index"));
                    }
                    let ghost pre_out = out@;
                    match decode_value(vt, &self.row[i]) {
                        Ok(d) => {
                            let name = self.columns[i].clone();
                            out.push((name, d));
                            proof {
                                assert(spec_decoded_entries(pre_out.push((name, d)))
                                    =~= spec_decoded_entries(pre_out).push((name@, d@)));
                            }
                            i += 1;
                        },
                        Err(e) => {
                            proof {
                                lemma_decode_map_err_prefix(*vt, grow, gcols, i + 1);
                            }
                            return Err(add_field_to_error(e, &self.columns[i]));
                        },
                    }
                }
                proof {
                    assert(gcols.subrange(0, gcols.len() as int) =~= gcols);
                }
                Ok(RowDecoded::Mapping(out))
            },
            RowTarget::Struct(fields) => {
                let mut out: Vec<(String, DecodedValue)> = Vec::new();
                let mut i: usize = 0;
                while i < self.columns.len()
                    invariant
                        i <= self.columns.len(),
                        spec_decode_struct(fields@, grow, gcols.subrange(0, i as int)) matches Ok(
                            pre,
                        ) && spec_decoded_entries(out@) == pre,
                    decreases self.columns.len() - i,
                {
                    proof {
                        assert(gcols.subrange(0, i + 1).drop_last() =~= gcols.subrange(
                            0,
                            i as int,
                        ));
                    }
                    if i >= self.row.len() {
                        proof {
                            lemma_decode_struct_err_prefix(fields@, grow, gcols, i + 1);
                        }
                        return Err(Error::driver("Invalid column index"));
                    }
                    let ghost pre_out = out@;
                    match field_target(fields, &self.columns[i]) {
                        None => {
                            i += 1;
                        },
                        Some(ft) => {
                            match decode_value(ft, &self.row[i]) {
                                Ok(d) => {
                                    let name = self.columns[i].clone();
                                    out.push((name, d));
                                    proof {
                                        assert(spec_decoded_entries(pre_out.push((name, d)))
                                            =~= spec_decoded_entries(pre_out).push((name@, d@)));
                                    }
                                    i += 1;
                                },
                                Err(e) => {
                                    proof {
                                        lemma_decode_struct_err_prefix(fields@, grow, gcols, i + 1);
                                    }
                                    return Err(add_field_to_error(e, &self.columns[i]));
                                },
                            }
                        },
                    }
                }
                proof {
                    assert(gcols.subrange(0, gcols.len() as int) =~= gcols);
                }
                Ok(RowDecoded::Mapping(out))
            },
        }
    }
}

} // verus!
