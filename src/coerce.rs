//! The coercions: from the shape a decoder met to the type a record declares.

use crate::decimal::{i64_of_text, parse_i64};
use crate::wire::{CoerceError, NumberWire, Wire};
use vstd::prelude::*;

verus! {

/// The boolean that `s` names: exactly `true` or `false`.
pub open spec fn bool_of_text(s: Seq<char>) -> Option<bool> {
    if s == "true"@ {
        Some(true)
    } else if s == "false"@ {
        Some(false)
    } else {
        None
    }
}

/// A boolean is taken as it is, a string naming a boolean is read,
/// any other string is refused by name, and every other shape is refused.
pub open spec fn bool_coercion(v: Wire) -> Result<bool, CoerceError> {
    match v {
        Wire::Bool(b) => Ok(b),
        Wire::Str(s) => match bool_of_text(s@) {
            Some(b) => Ok(b),
            None => Err(CoerceError::UnknownString(s)),
        },
        _ => Err(CoerceError::UnexpectedShape),
    }
}

/// A signed integer is taken as it is, an unsigned one as well where it lies
/// in the range of `i64`, a string writing an `i64` in base ten
/// is read, any other string (the empty one too) is refused by name, and every
/// other shape is refused.
pub open spec fn i64_coercion(v: Wire) -> Result<i64, CoerceError> {
    match v {
        Wire::Integer(n) => Ok(n),
        Wire::Unsigned(u) => if u <= i64::MAX {
            Ok(u as i64)
        } else {
            Err(CoerceError::UnexpectedShape)
        },
        Wire::Str(s) => match i64_of_text(s@) {
            Some(n) => Ok(n),
            None => Err(CoerceError::UnknownString(s)),
        },
        _ => Err(CoerceError::UnexpectedShape),
    }
}

/// As `i64_coercion`, with a success always present: neither null nor the
/// empty string stands for an absent value here.
pub open spec fn option_i64_coercion(v: Wire) -> Result<Option<i64>, CoerceError> {
    match v {
        Wire::Integer(n) => Ok(Some(n)),
        Wire::Unsigned(u) => if u <= i64::MAX {
            Ok(Some(u as i64))
        } else {
            Err(CoerceError::UnexpectedShape)
        },
        Wire::Str(s) => match i64_of_text(s@) {
            Some(n) => Ok(Some(n)),
            None => Err(CoerceError::UnknownString(s)),
        },
        _ => Err(CoerceError::UnexpectedShape),
    }
}

/// The outcome for a string `text` met where an `Option<T>` is declared,
/// given what the text rule of `T` made of it (`parsed`). The empty string
/// stands for an absent value, and the rule is then not consulted.
pub open spec fn number_text_coercion<T>(text: String, parsed: Result<T, String>) -> Result<
    Option<T>,
    CoerceError,
> {
    if text@.len() == 0 {
        Ok(None)
    } else {
        match parsed {
            Ok(x) => Ok(Some(x)),
            Err(reason) => Err(CoerceError::Unparsable { text, reason }),
        }
    }
}

/// The outcome for a shape met where an `Option<T>` is declared, given what
/// the text rule of `T` made of its text, if it has one.
pub open spec fn number_coercion<T>(v: NumberWire<T>, parsed: Result<T, String>) -> Result<
    Option<T>,
    CoerceError,
> {
    match v {
        NumberWire::Str(s) => number_text_coercion(s, parsed),
        NumberWire::OwnedStr(s) => number_text_coercion(s, parsed),
        NumberWire::Number(x) => Ok(Some(x)),
        NumberWire::Null => Ok(None),
        NumberWire::Other => Err(CoerceError::UnexpectedShape),
    }
}

/// Reads a boolean from a native boolean or from the string `true` or `false`.
pub fn bool_from_str_or_bool(value: Wire) -> (r: Result<bool, CoerceError>)
    ensures
        r == bool_coercion(value),
{
    proof {
        reveal_strlit("true");
        reveal_strlit("false");
    }
    match value {
        Wire::Bool(b) => Ok(b),
        Wire::Str(s) => {
            if s == String::from_str("true") {
                Ok(true)
            } else if s == String::from_str("false") {
                Ok(false)
            } else {
                Err(CoerceError::UnknownString(s))
            }
        },
        _ => Err(CoerceError::UnexpectedShape),
    }
}

/// Reads an `i64` from a native signed integer or from its decimal text.
pub fn i64_from_str_or_i64(value: Wire) -> (r: Result<i64, CoerceError>)
    ensures
        r == i64_coercion(value),
{
    match value {
        Wire::Integer(n) => Ok(n),
        Wire::Unsigned(u) => if u <= i64::MAX as u64 {
            Ok(u as i64)
        } else {
            Err(CoerceError::UnexpectedShape)
        },
        Wire::Str(s) => match parse_i64(s.as_str()) {
            Some(n) => Ok(n),
            None => Err(CoerceError::UnknownString(s)),
        },
        _ => Err(CoerceError::UnexpectedShape),
    }
}

/// Reads a present `i64` from a native signed integer or from its decimal text.
pub fn option_i64_from_str_or_i64(value: Wire) -> (r: Result<Option<i64>, CoerceError>)
    ensures
        r == option_i64_coercion(value),
{
    match value {
        Wire::Integer(n) => Ok(Some(n)),
        Wire::Unsigned(u) => if u <= i64::MAX as u64 {
            Ok(Some(u as i64))
        } else {
            Err(CoerceError::UnexpectedShape)
        },
        Wire::Str(s) => match parse_i64(s.as_str()) {
            Some(n) => Ok(Some(n)),
            None => Err(CoerceError::UnknownString(s)),
        },
        _ => Err(CoerceError::UnexpectedShape),
    }
}

/// Settles a string met where an `Option<T>` is declared, once the text rule
/// of `T` has been applied to it: the empty string is absent, accepted text
/// is present, and refused text fails with the rule's reason.
pub fn option_number_from_text<T>(text: String, parsed: Result<T, String>) -> (r: Result<
    Option<T>,
    CoerceError,
>)
    ensures
        r == number_text_coercion(text, parsed),
{
    if text.as_str().is_empty() {
        Ok(None)
    } else {
        match parsed {
            Ok(x) => Ok(Some(x)),
            Err(reason) => Err(CoerceError::Unparsable { text, reason }),
        }
    }
}

/// The text that a shape carries, if it is a string.
pub open spec fn wire_text<T>(v: NumberWire<T>) -> Option<String> {
    match v {
        NumberWire::Str(s) => Some(s),
        NumberWire::OwnedStr(s) => Some(s),
        _ => None,
    }
}

/// The shape is a non-empty string, whose outcome the text rule of `T` decides.
pub open spec fn consults_text_rule<T>(v: NumberWire<T>) -> bool {
    wire_text(v) matches Some(s) && s@.len() > 0
}

/// Reads an `Option<T>` from a string (the empty one is absent), from a value
/// that decoded natively as `T`, or from null. `parse` is the text rule of
/// `T`; it is applied to non-empty text only, and its outcome decides there.
pub fn option_number_from_str_or_number<T, F: Fn(&String) -> Result<T, String>>(
    value: NumberWire<T>,
    parse: F,
) -> (r: Result<Option<T>, CoerceError>)
    requires
        forall|s: &String| parse.requires((s,)),
    ensures
        exists|parsed: Result<T, String>|
            {
                &&& r == number_coercion(value, parsed)
                &&& consults_text_rule(value) ==> parse.ensures(
                    (&wire_text(value)->Some_0,),
                    parsed,
                )
            },
{
    match value {
        NumberWire::Str(s) | NumberWire::OwnedStr(s) => {
            let ghost text = s;
            let r = number_from_text(s, parse);
            proof {
                let parsed = choose|parsed: Result<T, String>|
                    {
                        &&& r == number_text_coercion(text, parsed)
                        &&& text@.len() > 0 ==> parse.ensures((&text,), parsed)
                    };
                assert(r == number_coercion(value, parsed));
            }
            r
        },
        NumberWire::Number(x) => {
            let r = Ok(Some(x));
            assert(r == number_coercion(value, arbitrary()));
            r
        },
        NumberWire::Null => {
            let r = Ok(None);
            assert(r == number_coercion(value, arbitrary()));
            r
        },
        NumberWire::Other => {
            let r = Err(CoerceError::UnexpectedShape);
            assert(r == number_coercion(value, arbitrary()));
            r
        },
    }
}

fn number_from_text<T, F: Fn(&String) -> Result<T, String>>(text: String, parse: F) -> (r: Result<
    Option<T>,
    CoerceError,
>)
    requires
        forall|s: &String| parse.requires((s,)),
    ensures
        exists|parsed: Result<T, String>|
            {
                &&& r == number_text_coercion(text, parsed)
                &&& text@.len() > 0 ==> parse.ensures((&text,), parsed)
            },
{
    if text.as_str().is_empty() {
        let r = Ok(None);
        assert(r == number_text_coercion::<T>(text, arbitrary()));
        r
    } else {
        let parsed = parse(&text);
        let r = option_number_from_text(text, parsed);
        assert(r == number_text_coercion(text, parsed));
        r
    }
}

} // verus!
