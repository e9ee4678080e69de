//! The storage value model: the five-kind tagged value exchanged with the
//! store, and the bit-level view of its floating-point kind.
//!
//! A `Real` column holds an IEEE-754 double; this crate carries it as its
//! 64-bit bit pattern, so that the sentinel rules around NaN stay checkable
//! as plain integer facts.

use vstd::prelude::*;

verus! {

/// One column value as the store holds it: exactly five kinds.
///
/// `Real` carries the IEEE-754 bit pattern of the stored double.
#[derive(Debug, Clone, PartialEq)]
pub enum StorageValue {
    Null,
    Integer(i64),
    Real(u64),
    Text(String),
    Blob(Vec<u8>),
}

/// Mathematical model of a [`StorageValue`]: text as a sequence of
/// characters, a blob as a sequence of bytes.
pub enum SpecValue {
    Null,
    Integer(int),
    Real(u64),
    Text(Seq<char>),
    Blob(Seq<u8>),
}

impl View for StorageValue {
    type V = SpecValue;

    open spec fn view(&self) -> SpecValue {
        match self {
            StorageValue::Null => SpecValue::Null,
            StorageValue::Integer(i) => SpecValue::Integer(*i as int),
            StorageValue::Real(b) => SpecValue::Real(*b),
            StorageValue::Text(s) => SpecValue::Text(s@),
            StorageValue::Blob(b) => SpecValue::Blob(b@),
        }
    }
}

/// The views of a sequence of storage values.
pub open spec fn spec_values(s: Seq<StorageValue>) -> Seq<SpecValue> {
    s.map_values(|x: StorageValue| x@)
}

/// The views of a sequence of strings.
pub open spec fn spec_strings(s: Seq<String>) -> Seq<Seq<char>> {
    s.map_values(|x: String| x@)
}

/// The bit pattern `f64::NAN` carries: the quiet NaN that a decoded `Null`
/// stands for under a double-typed target.
pub const F64_NAN_BITS: u64 = 0x7ff8_0000_0000_0000;

/// The bit pattern `f32::NAN` carries.
pub const F32_NAN_BITS: u32 = 0x7fc0_0000;

/// Whether a 64-bit IEEE-754 pattern is a NaN: exponent all ones and a
/// non-zero fraction.
pub open spec fn spec_f64_is_nan(bits: u64) -> bool {
    (bits >> 52) & 0x7ff == 0x7ff && bits & 0xf_ffff_ffff_ffff != 0
}

/// Whether a 64-bit IEEE-754 pattern compares equal to zero: positive or
/// negative zero.
pub open spec fn spec_f64_is_zero(bits: u64) -> bool {
    bits & 0x7fff_ffff_ffff_ffff == 0
}

/// Runtime check matching [`spec_f64_is_nan`].
pub fn f64_bits_is_nan(bits: u64) -> (r: bool)
    ensures
        r == spec_f64_is_nan(bits),
{
    (bits >> 52) & 0x7ff == 0x7ff && bits & 0xf_ffff_ffff_ffff != 0
}

/// Runtime check matching [`spec_f64_is_zero`].
pub fn f64_bits_is_zero(bits: u64) -> (r: bool)
    ensures
        r == spec_f64_is_zero(bits),
{
    bits & 0x7fff_ffff_ffff_ffff == 0
}

/// The canonical NaN is indeed a NaN, and no NaN compares equal to zero.
pub proof fn lemma_nan_bits_facts()
    ensures
        spec_f64_is_nan(F64_NAN_BITS),
        forall|b: u64| spec_f64_is_nan(b) ==> !spec_f64_is_zero(b),
{
    assert((0x7ff8_0000_0000_0000u64 >> 52) & 0x7ff == 0x7ff
        && 0x7ff8_0000_0000_0000u64 & 0xf_ffff_ffff_ffff != 0) by (bit_vector);
    assert forall|b: u64| spec_f64_is_nan(b) implies !spec_f64_is_zero(b) by {
        assert(((b >> 52) & 0x7ff == 0x7ff && b & 0xf_ffff_ffff_ffff != 0)
            ==> b & 0x7fff_ffff_ffff_ffff != 0) by (bit_vector);
    }
}

} // verus!
