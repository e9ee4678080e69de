//! The unoptimized blob path: a generic sequence is encoded to one blob,
//! element by element, through a sub-encoder that accepts 8-bit unsigned
//! values and nothing else.

use vstd::prelude::*;

use crate::error::{res_view, spec_ser_unsupported_msg, Error, SpecError};
use crate::ser::{shape_token, spec_shape_token};
use crate::source::SourceValue;
use crate::value::{SpecValue, StorageValue};

verus! {

/// What the byte sub-encoder makes of one sequence element: the byte itself
/// for an 8-bit unsigned value, an `Unsupported` error for every other shape.
pub open spec fn spec_encode_u8(v: SourceValue) -> Result<u8, SpecError> {
    match v {
        SourceValue::U8(b) => Ok(b),
        SourceValue::Unit | SourceValue::UnitStruct(_) | SourceValue::UnitVariant(_) => Err(
            SpecError::Unsupported(spec_ser_unsupported_msg("()"@)),
        ),
        SourceValue::TupleVariant(_, _) => Err(
            SpecError::Unsupported(spec_ser_unsupported_msg("type_variant"@)),
        ),
        _ => Err(SpecError::Unsupported(spec_ser_unsupported_msg(spec_shape_token(v)))),
    }
}

/// Encoder for one element of a generic byte sequence.
///
/// Only an 8-bit unsigned value has a mapping; any other shape fails, which
/// aborts the enclosing sequence encode.
pub struct U8Serializer;

impl U8Serializer {
    /// Encode one sequence element to a byte.
    pub fn serialize_value(self, v: &SourceValue) -> (r: Result<u8, Error>)
        ensures
            res_view(r) == spec_encode_u8(*v),
    {
        match v {
            SourceValue::U8(b) => Ok(*b),
            SourceValue::Unit | SourceValue::UnitStruct(_) | SourceValue::UnitVariant(_) => Err(
                Error::ser_unsupported("()"),
            ),
            SourceValue::TupleVariant(_, _) => Err(Error::ser_unsupported("type_variant")),
            _ => Err(Error::ser_unsupported(shape_token(v))),
        }
    }
}

/// Accumulator for the bytes of a sequence being encoded to one blob.
pub struct BlobSerializer {
    /// The bytes accumulated so far.
    pub buf: Vec<u8>,
}

impl BlobSerializer {
    /// An accumulator holding no bytes yet.
    pub fn new() -> (r: Self)
        ensures
            r.buf@ == Seq::<u8>::empty(),
    {
        BlobSerializer { buf: Vec::new() }
    }

    /// Encode one element through [`U8Serializer`] and append it.
    ///
    /// On failure the accumulator is unchanged; the caller discards it.
    pub fn serialize_element(&mut self, v: &SourceValue) -> (r: Result<(), Error>)
        ensures
            match spec_encode_u8(*v) {
                Ok(b) => r is Ok && final(self).buf@ == old(self).buf@.push(b),
                Err(e) => (r matches Err(a) && a@ == e) && final(self).buf@ == old(self).buf@,
            },
    {
        match U8Serializer.serialize_value(v) {
            Ok(b) => {
                self.buf.push(b);
                Ok(())
            },
            Err(e) => Err(e),
        }
    }

    /// Finish the sequence: the accumulated bytes become one blob value.
    pub fn end(self) -> (r: StorageValue)
        ensures
            r@ == SpecValue::Blob(self.buf@),
    {
        StorageValue::Blob(self.buf)
    }
}

} // verus!
