//! The error taxonomy shared by the encoding and decoding engines.

use vstd::prelude::*;
use vstd::string::StringExecFns;

verus! {

/// Everything that can go wrong while encoding parameters or decoding a row.
#[derive(Debug, Clone, PartialEq)]
pub enum Error {
    /// This kind of encoding or decoding is not supported.
    Unsupported(String),
    /// The value is too large, e.g. an unsigned 64-bit value that does not
    /// fit into a signed 64-bit column.
    ValueTooLarge(String),
    /// General error during encoding.
    Serialization(String),
    /// General error during decoding, annotated with the originating column
    /// name as it propagates out of a row decode.
    Deserialization { column: Option<String>, message: String },
    /// Verbatim wrap of a storage-layer failure.
    Rusqlite(String),
    /// No column name information available.
    ColumnNamesNotAvailable,
}

/// Mathematical model of an [`Error`].
///
/// Free-form messages are abstracted away except for `Unsupported`, whose
/// message names the rejected shape and is pinned by the contracts.
/// `Deserialization` keeps its column annotation.
pub enum SpecError {
    Unsupported(Seq<char>),
    ValueTooLarge,
    Serialization,
    Deserialization(Option<Seq<char>>),
    Driver,
    NoColumns,
}

impl View for Error {
    type V = SpecError;

    open spec fn view(&self) -> SpecError {
        match self {
            Error::Unsupported(s) => SpecError::Unsupported(s@),
            Error::ValueTooLarge(_) => SpecError::ValueTooLarge,
            Error::Serialization(_) => SpecError::Serialization,
            Error::Deserialization { column, .. } => SpecError::Deserialization(
                match column {
                    Some(c) => Some(c@),
                    None => None,
                },
            ),
            Error::Rusqlite(_) => SpecError::Driver,
            Error::ColumnNamesNotAvailable => SpecError::NoColumns,
        }
    }
}

/// A `Result` whose error is an [`Error`], seen through both views.
pub open spec fn res_view<T: View>(r: Result<T, Error>) -> Result<T::V, SpecError> {
    match r {
        Ok(v) => Ok(v@),
        Err(e) => Err(e@),
    }
}

/// The message an encode-time `Unsupported` error carries for a given shape
/// token.
pub open spec fn spec_ser_unsupported_msg(t: Seq<char>) -> Seq<char> {
    "Serialization is not supported from type: "@ + t
}

/// The message a decode-time `Unsupported` error carries for a given shape
/// token.
pub open spec fn spec_de_unsupported_msg(t: Seq<char>) -> Seq<char> {
    "Deserialization is not supported into type: "@ + t
}

/// The decimal digit character for `d`.
pub open spec fn spec_digit_char(d: nat) -> char {
    if d == 0 {
        '0'
    } else if d == 1 {
        '1'
    } else if d == 2 {
        '2'
    } else if d == 3 {
        '3'
    } else if d == 4 {
        '4'
    } else if d == 5 {
        '5'
    } else if d == 6 {
        '6'
    } else if d == 7 {
        '7'
    } else if d == 8 {
        '8'
    } else {
        '9'
    }
}

/// The decimal representation of `n`, most significant digit first, with no
/// leading zeros (a single `0` for zero itself).
pub open spec fn spec_decimal(n: nat) -> Seq<char>
    decreases n,
{
    if n < 10 {
        seq![spec_digit_char(n)]
    } else {
        spec_decimal(n / 10).push(spec_digit_char(n % 10))
    }
}

/// Append the decimal representation of `n` to `s`.
fn push_decimal(s: &mut String, n: u64)
    ensures
        final(s)@ == old(s)@ + spec_decimal(n as nat),
    decreases n,
{
    if n >= 10 {
        push_decimal(s, n / 10);
    }
    let d = n % 10;
    match d {
        0 => s.append("0"),
        1 => s.append("1"),
        2 => s.append("2"),
        3 => s.append("3"),
        4 => s.append("4"),
        5 => s.append("5"),
        6 => s.append("6"),
        7 => s.append("7"),
        8 => s.append("8"),
        _ => s.append("9"),
    }
    proof {
        reveal_strlit("0");
        reveal_strlit("1");
        reveal_strlit("2");
        reveal_strlit("3");
        reveal_strlit("4");
        reveal_strlit("5");
        reveal_strlit("6");
        reveal_strlit("7");
        reveal_strlit("8");
        reveal_strlit("9");
        assert(s@ =~= old(s)@ + spec_decimal(n as nat));
    }
}

/// The decimal representation of `n` as a string.
pub fn decimal_string(n: u64) -> (r: String)
    ensures
        r@ == spec_decimal(n as nat),
{
    let mut s = String::new();
    push_decimal(&mut s, n);
    proof {
        assert(Seq::<char>::empty() + spec_decimal(n as nat) =~= spec_decimal(n as nat));
    }
    s
}

impl Error {
    /// Create the `Unsupported` error raised while encoding from shape `typ`.
    pub fn ser_unsupported(typ: &str) -> (r: Self)
        ensures
            r@ == SpecError::Unsupported(spec_ser_unsupported_msg(typ@)),
    {
        let mut msg = String::from_str("Serialization is not supported from type: ");
        msg.append(typ);
        Error::Unsupported(msg)
    }

    /// Create the `Unsupported` error raised while decoding into shape `typ`.
    pub fn de_unsupported(typ: &str) -> (r: Self)
        ensures
            r@ == SpecError::Unsupported(spec_de_unsupported_msg(typ@)),
    {
        let mut msg = String::from_str("Deserialization is not supported into type: ");
        msg.append(typ);
        Error::Unsupported(msg)
    }

    /// Create the error for an unsigned 64-bit value that exceeds the signed
    /// 64-bit maximum, naming the value.
    pub fn value_too_large(v: u64) -> (r: Self)
        ensures
            r@ == SpecError::ValueTooLarge,
            r matches Error::ValueTooLarge(m) && m@ == "Value is too large to fit into i64: "@
                + spec_decimal(v as nat),
    {
        let mut msg = String::from_str("Value is too large to fit into i64: ");
        let num = decimal_string(v);
        msg.append(num.as_str());
        Error::ValueTooLarge(msg)
    }

    /// A decode-time failure that has not yet been annotated with a column.
    pub fn de_failure(msg: &str) -> (r: Self)
        ensures
            r@ == SpecError::Deserialization(None),
    {
        Error::Deserialization { column: None, message: String::from_str(msg) }
    }

    /// A storage-layer failure.
    pub fn driver(msg: &str) -> (r: Self)
        ensures
            r@ == SpecError::Driver,
            r matches Error::Rusqlite(m) && m@ == msg@,
    {
        Error::Rusqlite(String::from_str(msg))
    }

    /// The human-readable description of the error, in the fixed wording of
    /// this crate.
    pub fn message(&self) -> (r: String)
        ensures
            match self {
                Error::Unsupported(s) => r@ == s@,
                Error::ValueTooLarge(s) => r@ == s@,
                Error::Serialization(s) => r@ == "Serialization error: "@ + s@,
                Error::Deserialization { column: Some(c), message } => r@
                    == "Deserialization failed for column: "@ + c@ + " error: "@ + message@,
                Error::Deserialization { column: None, message } => r@ == "Deserialization error: "@
                    + message@,
                Error::Rusqlite(s) => r@ == "Rusqlite error: "@ + s@,
                Error::ColumnNamesNotAvailable => r@ == "Column names are not available"@,
            },
    {
        match self {
            Error::Unsupported(s) => s.clone(),
            Error::ValueTooLarge(s) => s.clone(),
            Error::Serialization(s) => {
                let mut m = String::from_str("Serialization error: ");
                m.append(s.as_str());
                m
            },
            Error::Deserialization { column: Some(c), message } => {
                let mut m = String::from_str("Deserialization failed for column: ");
                m.append(c.as_str());
                m.append(" error: ");
                m.append(message.as_str());
                m
            },
            Error::Deserialization { column: None, message } => {
                let mut m = String::from_str("Deserialization error: ");
                m.append(message.as_str());
                m
            },
            Error::Rusqlite(s) => {
                let mut m = String::from_str("Rusqlite error: ");
                m.append(s.as_str());
                m
            },
            Error::ColumnNamesNotAvailable => String::from_str("Column names are not available"),
        }
    }
}

} // verus!
