//! Lenient decoding of scalar values.
//!
//! A self-describing decoder reports which shape a field had (a boolean, an
//! integer, a string, null, ...). The functions here turn that shape into the
//! type that a record declares, accepting the text form of a value as well as
//! its native form, and fail where the two cannot be reconciled.

pub mod coerce;
pub mod decimal;
pub mod laws;
pub mod wire;

pub use coerce::{
    bool_from_str_or_bool, i64_from_str_or_i64, option_i64_from_str_or_i64,
    option_number_from_str_or_number, option_number_from_text,
};
pub use wire::{CoerceError, NumberWire, Wire};
