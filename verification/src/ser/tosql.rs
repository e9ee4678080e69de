//! The primitive encoder: one structured primitive to one bindable storage
//! value.

use vstd::prelude::*;

use crate::error::{res_view, spec_ser_unsupported_msg, Error, SpecError};
use crate::ser::blob::{spec_encode_u8, BlobSerializer};
use crate::ser::{shape_token, spec_shape_token};
use crate::source::SourceValue;
use crate::value::{spec_f64_is_nan, SpecValue, StorageValue};

verus! {

/// What one blob is made of: every element of the sequence encoded to a
/// byte, left to right, stopping at the first element that is not an 8-bit
/// unsigned value.
pub open spec fn spec_encode_blob(s: Seq<SourceValue>) -> Result<Seq<u8>, SpecError>
    decreases s.len(),
{
    if s.len() == 0 {
        Ok(Seq::empty())
    } else {
        match spec_encode_blob(s.drop_last()) {
            Err(e) => Err(e),
            Ok(pre) => match spec_encode_u8(s.last()) {
                Err(e) => Err(e),
                Ok(b) => Ok(pre.push(b)),
            },
        }
    }
}

/// A failure in a prefix settles the whole left-to-right blob encoding.
pub proof fn lemma_encode_blob_err_prefix(s: Seq<SourceValue>, i: int)
    requires
        0 <= i <= s.len(),
        spec_encode_blob(s.subrange(0, i)) is Err,
    ensures
        spec_encode_blob(s) == spec_encode_blob(s.subrange(0, i)),
    decreases s.len() - i,
{
    if i == s.len() {
        assert(s.subrange(0, i) =~= s);
    } else {
        assert(s.subrange(0, i + 1).drop_last() =~= s.subrange(0, i));
        lemma_encode_blob_err_prefix(s, i + 1);
    }
}

/// The storage value one structured value encodes to, per the coercion
/// policy:
///
/// - signed integers and unsigned integers narrower than 64 bits widen to a
///   64-bit integer;
/// - an unsigned 64-bit value must fit the signed 64-bit maximum, else the
///   encode fails with `ValueTooLarge`;
/// - a double becomes a real, except a NaN payload, which becomes null;
/// - characters, strings and unit-struct names become text;
/// - an absent optional, unit and a payload-less variant become null — a
///   payload-less variant becomes its name as text;
/// - present optionals and newtype wrappers are transparent;
/// - a byte buffer becomes a blob, as does a generic sequence whose every
///   element is an 8-bit unsigned value;
/// - every other composite shape is `Unsupported`.
pub open spec fn spec_encode_value(v: SourceValue) -> Result<SpecValue, SpecError>
    decreases v,
{
    match v {
        SourceValue::Bool(b) => Ok(SpecValue::Integer(if b { 1int } else { 0int })),
        SourceValue::I8(x) => Ok(SpecValue::Integer(x as int)),
        SourceValue::I16(x) => Ok(SpecValue::Integer(x as int)),
        SourceValue::I32(x) => Ok(SpecValue::Integer(x as int)),
        SourceValue::I64(x) => Ok(SpecValue::Integer(x as int)),
        SourceValue::U8(x) => Ok(SpecValue::Integer(x as int)),
        SourceValue::U16(x) => Ok(SpecValue::Integer(x as int)),
        SourceValue::U32(x) => Ok(SpecValue::Integer(x as int)),
        SourceValue::U64(x) => if x <= i64::MAX as u64 {
            Ok(SpecValue::Integer(x as int))
        } else {
            Err(SpecError::ValueTooLarge)
        },
        SourceValue::F64Bits(b) => if spec_f64_is_nan(b) {
            Ok(SpecValue::Null)
        } else {
            Ok(SpecValue::Real(b))
        },
        SourceValue::Char(c) => Ok(SpecValue::Text(seq![c])),
        SourceValue::Text(s) => Ok(SpecValue::Text(s@)),
        SourceValue::Bytes(b) => Ok(SpecValue::Blob(b@)),
        SourceValue::Absent => Ok(SpecValue::Null),
        SourceValue::Present(inner) => spec_encode_value(*inner),
        SourceValue::Unit => Ok(SpecValue::Null),
        SourceValue::UnitStruct(name) => Ok(SpecValue::Text(name@)),
        SourceValue::UnitVariant(name) => Ok(SpecValue::Text(name@)),
        SourceValue::NewtypeStruct(_, inner) => spec_encode_value(*inner),
        SourceValue::NewtypeVariant(_, inner) => spec_encode_value(*inner),
        SourceValue::Sequence(elems) => match spec_encode_blob(elems@) {
            Ok(b) => Ok(SpecValue::Blob(b)),
            Err(e) => Err(e),
        },
        _ => Err(SpecError::Unsupported(spec_ser_unsupported_msg(spec_shape_token(v)))),
    }
}

/// Relies on `char::to_string`: the result is the one-character string
/// holding exactly this character.
#[verifier::external_body]
pub(crate) fn char_to_text(c: char) -> (r: String)
    ensures
        r@ == seq![c],
{
    c.to_string()
}

/// Encoder for one structured primitive into one bindable storage value.
pub struct ToSqlSerializer;

impl ToSqlSerializer {
    /// Encode an unsigned 64-bit value, which the store can only hold if it
    /// fits the signed 64-bit maximum.
    pub fn serialize_u64(self, v: u64) -> (r: Result<StorageValue, Error>)
        ensures
            v <= i64::MAX as u64 ==> (r matches Ok(sv) && sv@ == SpecValue::Integer(v as int)),
            v > i64::MAX as u64 ==> (r matches Err(e) && e@ == SpecError::ValueTooLarge),
    {
        if v > i64::MAX as u64 {
            Err(Error::value_too_large(v))
        } else {
            Ok(StorageValue::Integer(v as i64))
        }
    }

    /// Encode a character as one-character text.
    pub fn serialize_char(self, v: char) -> (r: StorageValue)
        ensures
            r@ == SpecValue::Text(seq![v]),
    {
        StorageValue::Text(char_to_text(v))
    }

    /// Encode one structured value to one storage value, per
    /// [`spec_encode_value`].
    #[verifier::loop_isolation(false)]
    pub fn serialize_value(self, v: &SourceValue) -> (r: Result<StorageValue, Error>)
        ensures
            res_view(r) == spec_encode_value(*v),
        decreases v,
    {
        match v {
            SourceValue::Bool(b) => Ok(StorageValue::Integer(if *b { 1 } else { 0 })),
            SourceValue::I8(x) => Ok(StorageValue::Integer(*x as i64)),
            SourceValue::I16(x) => Ok(StorageValue::Integer(*x as i64)),
            SourceValue::I32(x) => Ok(StorageValue::Integer(*x as i64)),
            SourceValue::I64(x) => Ok(StorageValue::Integer(*x)),
            SourceValue::U8(x) => Ok(StorageValue::Integer(*x as i64)),
            SourceValue::U16(x) => Ok(StorageValue::Integer(*x as i64)),
            SourceValue::U32(x) => Ok(StorageValue::Integer(*x as i64)),
            SourceValue::U64(x) => ToSqlSerializer.serialize_u64(*x),
            SourceValue::F64Bits(b) => {
                if crate::value::f64_bits_is_nan(*b) {
                    Ok(StorageValue::Null)
                } else {
                    Ok(StorageValue::Real(*b))
                }
            },
            SourceValue::Char(c) => Ok(ToSqlSerializer.serialize_char(*c)),
            SourceValue::Text(s) => Ok(StorageValue::Text(s.clone())),
            SourceValue::Bytes(b) => Ok(StorageValue::Blob(b.clone())),
            SourceValue::Absent => Ok(StorageValue::Null),
            SourceValue::Present(inner) => ToSqlSerializer.serialize_value(&**inner),
            SourceValue::Unit => Ok(StorageValue::Null),
            SourceValue::UnitStruct(name) => Ok(StorageValue::Text(name.clone())),
            SourceValue::UnitVariant(name) => Ok(StorageValue::Text(name.clone())),
            SourceValue::NewtypeStruct(_, inner) => ToSqlSerializer.serialize_value(&**inner),
            SourceValue::NewtypeVariant(_, inner) => ToSqlSerializer.serialize_value(&**inner),
            SourceValue::Sequence(elems) => {
                let mut blob = BlobSerializer::new();
                let mut i: usize = 0;
                while i < elems.len()
                    invariant
                        i <= elems.len(),
                        spec_encode_blob(elems@.subrange(0, i as int)) == Ok::<Seq<u8>, SpecError>(
                            blob.buf@,
                        ),
                    decreases elems.len() - i,
                {
                    match blob.serialize_element(&elems[i]) {
                        Ok(()) => {
                            proof {
                                assert(elems@.subrange(0, i + 1).drop_last() =~= elems@.subrange(
                                    0,
                                    i as int,
                                ));
                            }
                            i += 1;
                        },
                        Err(e) => {
                            proof {
                                assert(elems@.subrange(0, i + 1).drop_last() =~= elems@.subrange(
                                    0,
                                    i as int,
                                ));
                                assert(elems@.subrange(0, i + 1).last() == elems@[i as int]);
                                assert(spec_encode_blob(elems@.subrange(0, i + 1)) == Err::<
                                    Seq<u8>,
                                    SpecError,
                                >(e@));
                                lemma_encode_blob_err_prefix(elems@, i + 1);
                            }
                            return Err(e);
                        },
                    }
                }
                proof {
                    assert(elems@.subrange(0, elems@.len() as int) =~= elems@);
                }
                Ok(blob.end())
            },
            _ => Err(Error::ser_unsupported(shape_token(v))),
        }
    }
}

} // verus!
