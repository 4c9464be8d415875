//! The tagged-union model of a JSON value, reduced to what the aggregation
//! logic reads: the type tag of each element, and the 64-bit signed integer
//! carried by an integer-valued number.

use vstd::prelude::*;

verus! {

/// One JSON value, classified by its type tag.
///
/// A JSON number is split into two variants: `Integer` carries a number that
/// is representable as a 64-bit signed integer, and `NonIntNumber` stands for
/// any other number (one with a fractional part, or one outside the 64-bit
/// signed range). The contents of strings, arrays and objects play no part in
/// the aggregation, so only their tags are kept.
#[derive(Clone, Copy, Debug, PartialEq, Eq, Structural)]
pub enum JsonValue {
    /// A JSON string.
    Str,
    /// A JSON number representable as a 64-bit signed integer.
    Integer(i64),
    /// A JSON number that is not representable as a 64-bit signed integer.
    NonIntNumber,
    /// A JSON boolean.
    Bool,
    /// The JSON null.
    Null,
    /// A JSON array.
    Array,
    /// A JSON object.
    Object,
}

} // verus!
