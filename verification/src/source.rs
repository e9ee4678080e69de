//! The structured value model: the closed set of shapes a value to be
//! encoded can take.
//!
//! It mirrors the shapes of a generic marshaling data model: primitives,
//! optional values, unit-like shapes, newtype wrappers, sequences, tuples,
//! maps and records. Doubles are carried as their IEEE-754 bit patterns.

use vstd::prelude::*;

verus! {

/// A structured value handed to the encoding engine.
#[derive(Debug, PartialEq)]
pub enum SourceValue {
    Bool(bool),
    I8(i8),
    I16(i16),
    I32(i32),
    I64(i64),
    U8(u8),
    U16(u16),
    U32(u32),
    U64(u64),
    /// A double, carried as its IEEE-754 bit pattern.
    F64Bits(u64),
    Char(char),
    Text(String),
    /// A byte buffer on the optimized blob path.
    Bytes(Vec<u8>),
    /// An absent optional value.
    Absent,
    /// A present optional value.
    Present(Box<SourceValue>),
    Unit,
    /// A unit struct, carrying the struct name.
    UnitStruct(String),
    /// A payload-less enum variant, carrying the variant name.
    UnitVariant(String),
    /// A newtype struct wrapper, carrying the struct name and the inner value.
    NewtypeStruct(String, Box<SourceValue>),
    /// A newtype enum variant, carrying the variant name and the inner value.
    NewtypeVariant(String, Box<SourceValue>),
    /// A generic sequence.
    Sequence(Vec<SourceValue>),
    Tuple(Vec<SourceValue>),
    /// A tuple struct, carrying the struct name and the elements.
    TupleStruct(String, Vec<SourceValue>),
    /// A tuple enum variant, carrying the variant name and the elements.
    TupleVariant(String, Vec<SourceValue>),
    /// A map, as a list of key/value entries in iteration order.
    Mapping(Vec<(SourceValue, SourceValue)>),
    /// A record, carrying the struct name and named fields in declaration
    /// order.
    Struct(String, Vec<(String, SourceValue)>),
    /// A struct enum variant, carrying the variant name and named fields.
    StructVariant(String, Vec<(String, SourceValue)>),
}

} // verus!
