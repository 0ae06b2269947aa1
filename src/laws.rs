//! Laws that the coercions obey, stated over their spec functions.

use crate::coerce::{
    bool_coercion, i64_coercion, number_coercion, option_i64_coercion,
};
use crate::decimal::{decimal_value, i64_of_text, lemma_empty_is_no_integer};
use crate::wire::{CoerceError, NumberWire, Wire};
use vstd::prelude::*;

verus! {

/// A native boolean passes through unchanged.
pub proof fn law_bool_passes_through(b: bool)
    ensures
        bool_coercion(Wire::Bool(b)) == Ok::<bool, CoerceError>(b),
{
}

/// The strings `true` and `false` read as the boolean they name.
pub proof fn law_bool_from_text(s: String)
    requires
        s@ == "true"@ || s@ == "false"@,
    ensures
        bool_coercion(Wire::Str(s)) == Ok::<bool, CoerceError>(s@ == "true"@),
{
    reveal_strlit("true");
    reveal_strlit("false");
}

/// Every other string is refused, and the error names it.
pub proof fn law_bool_refuses_other_text(s: String)
    requires
        s@ != "true"@,
        s@ != "false"@,
    ensures
        bool_coercion(Wire::Str(s)) == Err::<bool, CoerceError>(CoerceError::UnknownString(s)),
{
}

/// A native signed integer passes through unchanged, and is present where
/// an optional integer is declared.
pub proof fn law_integer_passes_through(n: i64)
    ensures
        i64_coercion(Wire::Integer(n)) == Ok::<i64, CoerceError>(n),
        option_i64_coercion(Wire::Integer(n)) == Ok::<Option<i64>, CoerceError>(Some(n)),
{
}

/// A native unsigned integer in the range of `i64` passes through with the
/// same value, and is present where an optional integer is declared; a
/// larger one is refused.
pub proof fn law_unsigned_integer_passes_through(u: u64)
    ensures
        u <= i64::MAX ==> i64_coercion(Wire::Unsigned(u)) == Ok::<i64, CoerceError>(u as i64),
        u <= i64::MAX ==> option_i64_coercion(Wire::Unsigned(u)) == Ok::<Option<i64>, CoerceError>(
            Some(u as i64),
        ),
        u <= i64::MAX ==> (u as i64) as int == u as int,
        u > i64::MAX ==> i64_coercion(Wire::Unsigned(u)) is Err,
        u > i64::MAX ==> option_i64_coercion(Wire::Unsigned(u)) is Err,
{
}

/// A string that writes the integer `n` in base ten reads as `n`.
pub proof fn law_integer_from_text(s: String, n: i64)
    requires
        decimal_value(s@) == Some(n as int),
    ensures
        i64_coercion(Wire::Str(s)) == Ok::<i64, CoerceError>(n),
        option_i64_coercion(Wire::Str(s)) == Ok::<Option<i64>, CoerceError>(Some(n)),
{
}

/// A string that writes no `i64` is refused by both integer coercions, and
/// the error names it.
pub proof fn law_integer_refuses_other_text(s: String)
    requires
        i64_of_text(s@) is None,
    ensures
        i64_coercion(Wire::Str(s)) == Err::<i64, CoerceError>(CoerceError::UnknownString(s)),
        option_i64_coercion(Wire::Str(s)) == Err::<Option<i64>, CoerceError>(
            CoerceError::UnknownString(s),
        ),
{
}

/// The empty string in particular is refused by both integer coercions: it
/// does not stand for an absent integer.
pub proof fn law_integer_refuses_empty_text(s: String)
    requires
        s@.len() == 0,
    ensures
        i64_coercion(Wire::Str(s)) is Err,
        option_i64_coercion(Wire::Str(s)) is Err,
{
    lemma_empty_is_no_integer(s@);
}

/// Where an `Option<T>` is declared: the empty string and null are absent,
/// a native `T` is present as it is, and a non-empty string is present with
/// the value the text rule gave, or fails where the rule refused it.
pub proof fn law_number_shapes<T>(text: String, x: T, parsed: Result<T, String>)
    ensures
        text@.len() == 0 ==> number_coercion(NumberWire::Str(text), parsed) == Ok::<
            Option<T>,
            CoerceError,
        >(None),
        text@.len() == 0 ==> number_coercion(NumberWire::OwnedStr(text), parsed) == Ok::<
            Option<T>,
            CoerceError,
        >(None),
        number_coercion(NumberWire::<T>::Null, parsed) == Ok::<Option<T>, CoerceError>(None),
        number_coercion(NumberWire::Number(x), parsed) == Ok::<Option<T>, CoerceError>(Some(x)),
        text@.len() > 0 && parsed is Ok ==> number_coercion(NumberWire::Str(text), parsed) == Ok::<
            Option<T>,
            CoerceError,
        >(Some(parsed->Ok_0)),
        text@.len() > 0 && parsed is Err ==> number_coercion(NumberWire::Str(text), parsed) is Err,
        number_coercion(NumberWire::OwnedStr(text), parsed) == number_coercion(
            NumberWire::Str(text),
            parsed,
        ),
{
}

/// Coercing a boolean that a coercion produced gives it back.
pub proof fn law_bool_reapplied(v: Wire)
    requires
        bool_coercion(v) is Ok,
    ensures
        bool_coercion(Wire::Bool(bool_coercion(v)->Ok_0)) == bool_coercion(v),
{
}

/// Coercing an integer that a coercion produced gives it back.
pub proof fn law_i64_reapplied(v: Wire)
    requires
        i64_coercion(v) is Ok,
    ensures
        i64_coercion(Wire::Integer(i64_coercion(v)->Ok_0)) == i64_coercion(v),
{
}

/// Coercing, as a native integer, the integer that the optional coercion
/// produced gives the same outcome again.
pub proof fn law_option_i64_reapplied(v: Wire)
    requires
        option_i64_coercion(v) is Ok,
    ensures
        option_i64_coercion(v)->Ok_0 is Some,
        option_i64_coercion(Wire::Integer(option_i64_coercion(v)->Ok_0->Some_0))
            == option_i64_coercion(v),
{
}

/// The shape in which an `Option<T>` is written back: a native `T`, or null.
pub open spec fn number_wire_of<T>(o: Option<T>) -> NumberWire<T> {
    match o {
        Some(x) => NumberWire::Number(x),
        None => NumberWire::Null,
    }
}

/// Coercing the `Option<T>` that a coercion produced, written back as a
/// native value or null, gives the same outcome again, whatever the text
/// rule of `T`.
pub proof fn law_number_reapplied<T>(v: NumberWire<T>, parsed: Result<T, String>, again: Result<T, String>)
    requires
        number_coercion(v, parsed) is Ok,
    ensures
        number_coercion(number_wire_of(number_coercion(v, parsed)->Ok_0), again) == number_coercion(
            v,
            parsed,
        ),
{
}

} // verus!
