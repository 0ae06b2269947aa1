//! The shapes a value can have on the wire, and the ways a coercion fails.

use vstd::prelude::*;

verus! {

/// The shape in which a decoder met a field that should become a `bool`,
/// an `i64` or an `Option<i64>`.
#[derive(Clone, Debug, PartialEq)]
pub enum Wire {
    /// A native boolean.
    Bool(bool),
    /// A native signed integer.
    Integer(i64),
    /// A native unsigned integer, as many decoders report a non-negative
    /// number. The integer coercions take it where it fits in an `i64`.
    Unsigned(u64),
    /// A string.
    Str(String),
    /// An explicit null.
    Null,
}

/// The shape in which a decoder met a field that should become an
/// `Option<T>` for a numeric type `T`. The variants are tried in this order.
#[derive(Clone, Debug, PartialEq)]
pub enum NumberWire<T> {
    /// A string borrowed from the input.
    Str(String),
    /// A string that the decoder had to build.
    OwnedStr(String),
    /// A value that decoded natively as `T`.
    Number(T),
    /// An explicit null.
    Null,
    /// Anything else (a boolean, an array, an object).
    Other,
}

/// Why a coercion failed.
#[derive(Clone, Debug, PartialEq)]
pub enum CoerceError {
    /// A string that does not write a value of the target type.
    UnknownString(String),
    /// A string that the target type's text rule refused, with the rule's reason.
    Unparsable { text: String, reason: String },
    /// A shape that the target type does not accept.
    UnexpectedShape,
}

impl CoerceError {
    /// The text that describes the failure: the refused string, and for a
    /// text rule's refusal, its reason too.
    pub open spec fn message_text(&self) -> Seq<char> {
        match self {
            CoerceError::UnknownString(s) => "Unknown string value: "@ + s@,
            CoerceError::Unparsable { text, reason } => "Unknown string value: "@ + text@ + ": "@
                + reason@,
            CoerceError::UnexpectedShape => "unexpected shape"@,
        }
    }

    /// Describes the failure in words.
    pub fn message(&self) -> (r: String)
        ensures
            r@ == self.message_text(),
    {
        match self {
            CoerceError::UnknownString(s) => String::from_str("Unknown string value: ").concat(
                s.as_str(),
            ),
            CoerceError::Unparsable { text, reason } => String::from_str(
                "Unknown string value: ",
            ).concat(text.as_str()).concat(": ").concat(reason.as_str()),
            CoerceError::UnexpectedShape => String::from_str("unexpected shape"),
        }
    }
}

} // verus!
