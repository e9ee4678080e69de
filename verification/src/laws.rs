//! Laws relating the encoding and the decoding engine: what a stored value
//! gives back when decoded under the shape it was encoded from.

use vstd::prelude::*;

use crate::de::{
    spec_decode_value, spec_select_variant, DecodeTarget, EnumVariant, SpecDecoded, VariantKind,
};
use crate::error::{spec_de_unsupported_msg, SpecError};
use crate::ser::tosql::spec_encode_value;
use crate::source::SourceValue;
use crate::value::{lemma_nan_bits_facts, spec_f64_is_nan, SpecValue, F64_NAN_BITS};

verus! {

/// The primitive shapes whose encoding round-trips: every bare primitive
/// with a storable value — an unsigned 64-bit value no larger than the
/// signed 64-bit maximum, and a double that is not NaN (NaN round-trips to
/// NaN, stated separately).
pub open spec fn spec_roundtrip_primitive(v: SourceValue) -> bool {
    match v {
        SourceValue::Bool(_) => true,
        SourceValue::I8(_) => true,
        SourceValue::I16(_) => true,
        SourceValue::I32(_) => true,
        SourceValue::I64(_) => true,
        SourceValue::U8(_) => true,
        SourceValue::U16(_) => true,
        SourceValue::U32(_) => true,
        SourceValue::U64(x) => x <= i64::MAX as u64,
        SourceValue::F64Bits(b) => !spec_f64_is_nan(b),
        SourceValue::Char(_) => true,
        SourceValue::Text(_) => true,
        SourceValue::Bytes(_) => true,
        SourceValue::Unit => true,
        SourceValue::UnitStruct(_) => true,
        _ => false,
    }
}

/// The shape a primitive is decoded back under.
pub open spec fn spec_primitive_target(v: SourceValue) -> DecodeTarget {
    match v {
        SourceValue::Bool(_) => DecodeTarget::Bool,
        SourceValue::F64Bits(_) => DecodeTarget::F64,
        SourceValue::Char(_) => DecodeTarget::Char,
        SourceValue::Text(_) => DecodeTarget::Text,
        SourceValue::Bytes(_) => DecodeTarget::ByteBuf,
        SourceValue::Unit => DecodeTarget::Unit,
        SourceValue::UnitStruct(name) => DecodeTarget::UnitStruct(name),
        _ => DecodeTarget::Integer,
    }
}

/// The decoded form of a primitive's original value.
pub open spec fn spec_primitive_decoded(v: SourceValue) -> SpecDecoded {
    match v {
        SourceValue::Bool(b) => SpecDecoded::Bool(b),
        SourceValue::I8(x) => SpecDecoded::Integer(x as int),
        SourceValue::I16(x) => SpecDecoded::Integer(x as int),
        SourceValue::I32(x) => SpecDecoded::Integer(x as int),
        SourceValue::I64(x) => SpecDecoded::Integer(x as int),
        SourceValue::U8(x) => SpecDecoded::Integer(x as int),
        SourceValue::U16(x) => SpecDecoded::Integer(x as int),
        SourceValue::U32(x) => SpecDecoded::Integer(x as int),
        SourceValue::U64(x) => SpecDecoded::Integer(x as int),
        SourceValue::F64Bits(b) => SpecDecoded::Real(b),
        SourceValue::Char(c) => SpecDecoded::Char(c),
        SourceValue::Text(s) => SpecDecoded::Text(s@),
        SourceValue::Bytes(b) => SpecDecoded::Bytes(b@),
        _ => SpecDecoded::Unit,
    }
}

/// Encode-then-decode returns the original value, for every supported
/// primitive shape and storable value: a boolean comes back as itself, an
/// integer of any width as its 64-bit value, a double as the same bit
/// pattern, a character, string and byte buffer as themselves, and unit and
/// a unit struct as unit.
pub proof fn lemma_primitive_round_trip(v: SourceValue)
    requires
        spec_roundtrip_primitive(v),
    ensures
        spec_encode_value(v) matches Ok(sv) && spec_decode_value(spec_primitive_target(v), sv)
            == Ok::<SpecDecoded, SpecError>(spec_primitive_decoded(v)),
{
}

/// A NaN double encodes to null, and decoding that same null under a
/// double-typed target returns a NaN bit pattern again.
pub proof fn lemma_nan_round_trip(b: u64)
    requires
        spec_f64_is_nan(b),
    ensures
        spec_encode_value(SourceValue::F64Bits(b)) == Ok::<SpecValue, SpecError>(SpecValue::Null),
        spec_decode_value(DecodeTarget::F64, SpecValue::Null) matches Ok(d) && d matches
            SpecDecoded::Real(r) && spec_f64_is_nan(r),
{
    lemma_nan_bits_facts();
    assert(spec_f64_is_nan(F64_NAN_BITS));
}

/// A payload-less enum variant round-trips: its name encodes to text, and
/// selecting by that text in an enumeration whose first variant of that
/// name is the unit variant itself yields that variant back.
pub proof fn lemma_unit_enum_round_trip(variants: Seq<EnumVariant>, i: int)
    requires
        0 <= i < variants.len(),
        forall|k: int| 0 <= k < i ==> variants[k].name@ != variants[i].name@,
        variants[i].kind is Unit,
    ensures
        spec_encode_value(SourceValue::UnitVariant(variants[i].name)) == Ok::<
            SpecValue,
            SpecError,
        >(SpecValue::Text(variants[i].name@)),
        spec_select_variant(variants, variants[i].name@) == Ok::<SpecDecoded, SpecError>(
            SpecDecoded::Variant(variants[i].name@),
        ),
{
    crate::de::lemma_select_variant_skip(variants, variants[i].name@, i);
    assert(variants.subrange(i, variants.len() as int).first() == variants[i]);
}

/// A failing column decode is annotated with exactly that column's name,
/// nearest to its origin: when every column before `i` decodes and column
/// `i` is the first to fail with a decode failure, the whole map-shaped row
/// decode fails carrying exactly the name of column `i`.
pub proof fn lemma_map_failure_names_its_column(
    vt: DecodeTarget,
    row: Seq<SpecValue>,
    cols: Seq<Seq<char>>,
    i: int,
)
    requires
        0 <= i < cols.len(),
        i < row.len(),
        forall|j: int| 0 <= j < i ==> crate::de::spec_decode_value(vt, row[j]) is Ok,
        crate::de::spec_decode_value(vt, row[i]) == Err::<SpecDecoded, SpecError>(
            SpecError::Deserialization(None),
        ),
    ensures
        crate::de::spec_decode_map(vt, row, cols) == Err::<
            Seq<(Seq<char>, SpecDecoded)>,
            SpecError,
        >(SpecError::Deserialization(Some(cols[i]))),
{
    crate::de::lemma_decode_map_prefix_ok(vt, row, cols, i);
    assert(cols.subrange(0, i + 1).drop_last() =~= cols.subrange(0, i));
    assert(cols.subrange(0, i + 1).last() == cols[i]);
    crate::de::lemma_decode_map_err_prefix(vt, row, cols, i + 1);
}

/// Decoding stored text against a payload-carrying variant always fails
/// `Unsupported`, naming the attempted variant shape.
pub proof fn lemma_payload_variant_unsupported(variants: Seq<EnumVariant>, i: int)
    requires
        0 <= i < variants.len(),
        forall|k: int| 0 <= k < i ==> variants[k].name@ != variants[i].name@,
        !(variants[i].kind is Unit),
    ensures
        variants[i].kind is Newtype ==> spec_select_variant(variants, variants[i].name@) == Err::<
            SpecDecoded,
            SpecError,
        >(SpecError::Unsupported(spec_de_unsupported_msg("newtype_variant"@))),
        variants[i].kind is Tuple ==> spec_select_variant(variants, variants[i].name@) == Err::<
            SpecDecoded,
            SpecError,
        >(SpecError::Unsupported(spec_de_unsupported_msg("tuple_variant"@))),
        variants[i].kind is Struct ==> spec_select_variant(variants, variants[i].name@) == Err::<
            SpecDecoded,
            SpecError,
        >(SpecError::Unsupported(spec_de_unsupported_msg("struct_variant"@))),
{
    crate::de::lemma_select_variant_skip(variants, variants[i].name@, i);
    assert(variants.subrange(i, variants.len() as int).first() == variants[i]);
}

} // verus!
