//! Bidirectional mapping between a closed structured-value data model and the
//! five-kind column value model of a SQLite-style store.
//!
//! The encoding engine turns a structured value into bound query parameters
//! (positional or named); the decoding engine turns a fetched row back into a
//! structured value. Connection handling, query execution and result-stream
//! iteration are left to the storage layer around this crate.

use vstd::prelude::*;

pub mod de;
pub mod error;
pub mod laws;
pub mod ser;
pub mod source;
pub mod value;

pub use de::{
    decode_value, DecodeTarget, DecodedValue, EnumVariant, RowDecoded, RowDeserializer, RowTarget,
    VariantKind,
};
pub use error::Error;
pub use ser::blob::{BlobSerializer, U8Serializer};
pub use ser::named::NamedSliceSerializer;
pub use ser::positional::PositionalSliceSerializer;
pub use ser::slice::NamedParamSlice;
pub use ser::tosql::ToSqlSerializer;
pub use source::SourceValue;
pub use value::StorageValue;

use crate::ser::named::spec_encode_named;
use crate::ser::positional::spec_encode_positional;
use crate::value::{spec_strings, spec_values, SpecValue};

verus! {

/// Encode a structured value into an ordered list of bindable storage
/// values, one per element (a bare primitive yields a single-entry list),
/// per [`spec_encode_positional`].
pub fn to_params(v: &SourceValue) -> (r: Result<Vec<StorageValue>, Error>)
    ensures
        match spec_encode_positional(*v) {
            Ok(vals) => r matches Ok(out) && spec_values(out@) == vals,
            Err(e) => r matches Err(a) && a@ == e,
        },
{
    let ser = PositionalSliceSerializer::default();
    let ghost base = ser.result@;
    let r = ser.serialize_value(v);
    proof {
        assert(spec_values(base) =~= Seq::<SpecValue>::empty());
        match spec_encode_positional(*v) {
            Ok(vals) => {
                assert(spec_values(base) + vals =~= vals);
            },
            Err(_) => {},
        }
    }
    r
}

/// Encode a keyed structured value into named bound query arguments, every
/// field emitted, per [`spec_encode_named`].
pub fn to_params_named(v: &SourceValue) -> (r: Result<NamedParamSlice, Error>)
    ensures
        match spec_encode_named(*v, Seq::empty()) {
            Ok(entries) => r matches Ok(out) && out@ == entries,
            Err(e) => r matches Err(a) && a@ == e,
        },
{
    let r = to_params_named_with_fields(v, Vec::new());
    proof {
        assert(spec_strings(Seq::<String>::empty()) =~= Seq::<Seq<char>>::empty());
    }
    r
}

/// Encode only the allow-listed fields of a keyed structured value into
/// named bound query arguments, per [`spec_encode_named`]; an empty list
/// admits every field.
pub fn to_params_named_with_fields(v: &SourceValue, fields: Vec<String>) -> (r: Result<
    NamedParamSlice,
    Error,
>)
    ensures
        match spec_encode_named(*v, spec_strings(fields@)) {
            Ok(entries) => r matches Ok(out) && out@ == entries,
            Err(e) => r matches Err(a) && a@ == e,
        },
{
    let ghost only = spec_strings(fields@);
    let ser = NamedSliceSerializer::with_only_fields(fields);
    let ghost base = ser.result@;
    let r = ser.serialize_value(v);
    proof {
        match spec_encode_named(*v, only) {
            Ok(entries) => {
                assert(base + entries =~= entries);
            },
            Err(_) => {},
        }
    }
    r
}

/// Decode one fetched row, given its column names, against a row target,
/// per [`de::spec_decode_row`].
pub fn from_row_with_columns(
    row: Vec<StorageValue>,
    columns: Vec<String>,
    t: &RowTarget,
) -> (r: Result<RowDecoded, Error>)
    ensures
        crate::error::res_view(r) == de::spec_decode_row(
            *t,
            crate::value::spec_values(row@),
            crate::value::spec_strings(columns@),
        ),
{
    RowDeserializer::from_row_with_columns(row, columns).decode(t)
}

} // verus!
