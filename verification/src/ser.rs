//! The encoding engine: structured values to bindable storage values.
//!
//! [`tosql::ToSqlSerializer`] encodes one structured primitive into one
//! storage value; [`blob::U8Serializer`] and [`blob::BlobSerializer`] build a
//! blob out of a generic byte sequence; [`positional::PositionalSliceSerializer`]
//! and [`named::NamedSliceSerializer`] build whole parameter lists.

use vstd::prelude::*;

pub mod blob;
pub mod named;
pub mod positional;
pub mod slice;
pub mod tosql;

use crate::source::SourceValue;

verus! {

/// The shape token a structured value is reported under when an encoder has
/// no mapping for it.
pub open spec fn spec_shape_token(v: SourceValue) -> Seq<char> {
    match v {
        SourceValue::Bool(_) => "bool"@,
        SourceValue::I8(_) => "i8"@,
        SourceValue::I16(_) => "i16"@,
        SourceValue::I32(_) => "i32"@,
        SourceValue::I64(_) => "i64"@,
        SourceValue::U8(_) => "u8"@,
        SourceValue::U16(_) => "u16"@,
        SourceValue::U32(_) => "u32"@,
        SourceValue::U64(_) => "u64"@,
        SourceValue::F64Bits(_) => "f64"@,
        SourceValue::Char(_) => "char"@,
        SourceValue::Text(_) => "&str"@,
        SourceValue::Bytes(_) => "&[u8]"@,
        SourceValue::Absent => "None"@,
        SourceValue::Present(_) => "Some"@,
        SourceValue::Unit => "()"@,
        SourceValue::UnitStruct(_) => "unit_struct"@,
        SourceValue::UnitVariant(_) => "unit_variant"@,
        SourceValue::NewtypeStruct(_, _) => "newtype_struct"@,
        SourceValue::NewtypeVariant(_, _) => "newtype_variant"@,
        SourceValue::Sequence(_) => "seq"@,
        SourceValue::Tuple(_) => "tuple"@,
        SourceValue::TupleStruct(_, _) => "tuple_struct"@,
        SourceValue::TupleVariant(_, _) => "tuple_variant"@,
        SourceValue::Mapping(_) => "map"@,
        SourceValue::Struct(_, _) => "struct"@,
        SourceValue::StructVariant(_, _) => "struct_variant"@,
    }
}

/// Runtime counterpart of [`spec_shape_token`].
pub fn shape_token(v: &SourceValue) -> (r: &'static str)
    ensures
        r@ == spec_shape_token(*v),
{
    match v {
        SourceValue::Bool(_) => "bool",
        SourceValue::I8(_) => "i8",
        SourceValue::I16(_) => "i16",
        SourceValue::I32(_) => "i32",
        SourceValue::I64(_) => "i64",
        SourceValue::U8(_) => "u8",
        SourceValue::U16(_) => "u16",
        SourceValue::U32(_) => "u32",
        SourceValue::U64(_) => "u64",
        SourceValue::F64Bits(_) => "f64",
        SourceValue::Char(_) => "char",
        SourceValue::Text(_) => "&str",
        SourceValue::Bytes(_) => "&[u8]",
        SourceValue::Absent => "None",
        SourceValue::Present(_) => "Some",
        SourceValue::Unit => "()",
        SourceValue::UnitStruct(_) => "unit_struct",
        SourceValue::UnitVariant(_) => "unit_variant",
        SourceValue::NewtypeStruct(_, _) => "newtype_struct",
        SourceValue::NewtypeVariant(_, _) => "newtype_variant",
        SourceValue::Sequence(_) => "seq",
        SourceValue::Tuple(_) => "tuple",
        SourceValue::TupleStruct(_, _) => "tuple_struct",
        SourceValue::TupleVariant(_, _) => "tuple_variant",
        SourceValue::Mapping(_) => "map",
        SourceValue::Struct(_, _) => "struct",
        SourceValue::StructVariant(_, _) => "struct_variant",
    }
}

} // verus!
