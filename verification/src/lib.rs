//! Aggregation over loosely typed JSON-like values: count the strings and
//! sum the 64-bit integer numbers in a sequence, with explicit, structured
//! errors for numbers that are not representable as 64-bit integers and for
//! sums that leave the 64-bit signed range.

pub mod aggregate;
pub mod laws;
pub mod value;
