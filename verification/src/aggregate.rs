//! The aggregator: a single pass over a sequence of JSON values that counts
//! the strings and sums the integer-valued numbers.
//!
//! The numeric policy is explicit: a number that is not representable as a
//! 64-bit signed integer rejects the whole input with an error naming the
//! first such element, and an integer sum that leaves the 64-bit signed range
//! rejects it with an overflow error. The sum itself is the exact mathematical
//! sum of the integer elements; only the final total must fit, so partial sums
//! may pass through the full range freely.

use vstd::prelude::*;

use crate::value::JsonValue;

verus! {

/// A request body: an ordered sequence of JSON values to aggregate.
#[derive(Clone, Debug)]
pub struct DataRequest {
    /// The values, in input order.
    pub data: Vec<JsonValue>,
}

/// The aggregation result: how many strings, and the sum of the integers.
#[derive(Clone, Copy, Debug, PartialEq, Eq, Structural)]
pub struct DataResponse {
    /// How many elements are strings.
    pub string_len: usize,
    /// The sum of all integer-valued numeric elements.
    pub int_sum: i64,
}

/// Why an input was rejected.
#[derive(Clone, Copy, Debug, PartialEq, Eq, Structural)]
pub enum AggregateError {
    /// A numeric element is not representable as a 64-bit signed integer.
    /// `index` is the position of the first such element.
    InvalidNumericElement { index: usize },
    /// The sum of the integer elements leaves the 64-bit signed range.
    IntegerOverflow,
}

/// How many elements of `s` are strings.
pub open spec fn string_count(s: Seq<JsonValue>) -> nat
    decreases s.len(),
{
    if s.len() == 0 {
        0
    } else {
        string_count(s.drop_last()) + (if s.last() is Str {
            1nat
        } else {
            0nat
        })
    }
}

/// The integer carried by `v`, or zero for every non-integer value.
pub open spec fn int_value(v: JsonValue) -> int {
    match v {
        JsonValue::Integer(n) => n as int,
        _ => 0,
    }
}

/// The mathematical sum of the integer-valued numeric elements of `s`.
pub open spec fn int_sum(s: Seq<JsonValue>) -> int
    decreases s.len(),
{
    if s.len() == 0 {
        0
    } else {
        int_sum(s.drop_last()) + int_value(s.last())
    }
}

/// Whether `s` holds a number that is not representable as a 64-bit signed
/// integer.
pub open spec fn has_invalid(s: Seq<JsonValue>) -> bool {
    exists|i: int| 0 <= i < s.len() && s[i] is NonIntNumber
}

/// The index of the first non-representable number of `s` (meaningful only
/// when `has_invalid(s)` holds).
pub open spec fn first_invalid(s: Seq<JsonValue>) -> int
    decreases s.len(),
{
    if s.len() == 0 {
        0
    } else if s.first() is NonIntNumber {
        0
    } else {
        1 + first_invalid(s.drop_first())
    }
}

/// Whether `n` fits in a 64-bit signed integer.
pub open spec fn fits_i64(n: int) -> bool {
    i64::MIN <= n <= i64::MAX
}

/// What `aggregate` returns on the view of its input: the string count and
/// integer sum when every number is representable and the sum fits, otherwise
/// the error that names the first offending element or the overflow.
pub open spec fn aggregate_spec(s: Seq<JsonValue>) -> Result<DataResponse, AggregateError> {
    if has_invalid(s) {
        Err(AggregateError::InvalidNumericElement { index: first_invalid(s) as usize })
    } else if !fits_i64(int_sum(s)) {
        Err(AggregateError::IntegerOverflow)
    } else {
        Ok(
            DataResponse {
                string_len: string_count(s) as usize,
                int_sum: int_sum(s) as i64,
            },
        )
    }
}

/// The string count never exceeds the number of elements.
pub proof fn lemma_string_count_le_len(s: Seq<JsonValue>)
    ensures
        string_count(s) <= s.len(),
    decreases s.len(),
{
    if s.len() > 0 {
        lemma_string_count_le_len(s.drop_last());
    }
}

/// Each element contributes at most one 64-bit integer to the sum, so the sum
/// of `s` is bounded by the element count times the 64-bit bounds.
pub proof fn lemma_int_sum_bounds(s: Seq<JsonValue>)
    ensures
        (s.len() as int) * (i64::MIN as int) <= int_sum(s) <= (s.len() as int) * (
        i64::MAX as int),
    decreases s.len(),
{
    if s.len() > 0 {
        lemma_int_sum_bounds(s.drop_last());
    }
}

/// `first_invalid` names exactly the least index holding a non-representable
/// number.
pub proof fn lemma_first_invalid_is_least(s: Seq<JsonValue>, i: int)
    requires
        0 <= i < s.len(),
        s[i] is NonIntNumber,
        forall|j: int| 0 <= j < i ==> !(s[j] is NonIntNumber),
    ensures
        first_invalid(s) == i,
    decreases s.len(),
{
    if i > 0 {
        let d = s.drop_first();
        assert(forall|j: int| 0 <= j < i - 1 ==> d[j] == s[j + 1]);
        lemma_first_invalid_is_least(d, i - 1);
    }
}

/// Count the strings and sum the integer-valued numbers of `values` in one
/// pass. Returns the two counts, or the error for the first number that is
/// not representable as a 64-bit signed integer, or the overflow error when
/// the exact sum of the integer elements leaves the 64-bit signed range.
pub fn aggregate(values: &Vec<JsonValue>) -> (r: Result<DataResponse, AggregateError>)
    ensures
        r == aggregate_spec(values@),
{
    let n = values.len();
    let mut count: usize = 0;
    let mut sum: i128 = 0;
    let mut i: usize = 0;
    while i < n
        invariant
            n == values@.len(),
            0 <= i <= n,
            count == string_count(values@.subrange(0, i as int)),
            sum == int_sum(values@.subrange(0, i as int)),
            forall|j: int| 0 <= j < i ==> !(values@[j] is NonIntNumber),
        decreases n - i,
    {
        let prefix = Ghost(values@.subrange(0, i as int));
        let extended = Ghost(values@.subrange(0, i as int + 1));
        proof {
            assert(extended@.drop_last() =~= prefix@);
            assert(extended@.last() == values@[i as int]);
        }
        match values[i] {
            JsonValue::Str => {
                proof {
                    lemma_string_count_le_len(prefix@);
                }
                count = count + 1;
            },
            JsonValue::Integer(v) => {
                proof {
                    lemma_int_sum_bounds(prefix@);
                }
                sum = sum + (v as i128);
            },
            JsonValue::NonIntNumber => {
                proof {
                    lemma_first_invalid_is_least(values@, i as int);
                }
                return Err(AggregateError::InvalidNumericElement { index: i });
            },
            _ => {},
        }
        i = i + 1;
    }
    proof {
        assert(values@.subrange(0, n as int) =~= values@);
    }
    if sum < i64::MIN as i128 || sum > i64::MAX as i128 {
        Err(AggregateError::IntegerOverflow)
    } else {
        proof {
            lemma_string_count_le_len(values@);
        }
        Ok(DataResponse { string_len: count, int_sum: sum as i64 })
    }
}

impl DataRequest {
    /// Aggregate the values of this request.
    pub fn aggregate(&self) -> (r: Result<DataResponse, AggregateError>)
        ensures
            r == aggregate_spec(self.data@),
    {
        aggregate(&self.data)
    }
}

} // verus!
