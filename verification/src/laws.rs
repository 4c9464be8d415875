//! General laws of the aggregator: the sum is order-independent, the empty
//! input yields zero counts, and the contract determines the result, so two
//! runs on one input agree.

use vstd::prelude::*;

use crate::aggregate::{
    aggregate_spec, fits_i64, int_sum, int_value, string_count, AggregateError, DataResponse,
};
use crate::value::JsonValue;

verus! {

/// Removing one element takes its contribution out of the sum.
proof fn lemma_int_sum_remove(s: Seq<JsonValue>, j: int)
    requires
        0 <= j < s.len(),
    ensures
        int_sum(s) == int_sum(s.remove(j)) + int_value(s[j]),
    decreases s.len(),
{
    if j == s.len() - 1 {
        assert(s.remove(j) =~= s.drop_last());
    } else {
        let d = s.drop_last();
        lemma_int_sum_remove(d, j);
        assert(s.remove(j).drop_last() =~= d.remove(j));
        assert(s.remove(j).last() == s.last());
    }
}

/// The integer sum depends only on which values occur, with multiplicity, not
/// on their order: two sequences holding the same multiset of values have the
/// same sum.
pub proof fn lemma_int_sum_permutation(s1: Seq<JsonValue>, s2: Seq<JsonValue>)
    requires
        s1.to_multiset() == s2.to_multiset(),
    ensures
        int_sum(s1) == int_sum(s2),
    decreases s1.len(),
{
    broadcast use vstd::seq_lib::group_to_multiset_ensures;
    broadcast use vstd::multiset::group_multiset_axioms;

    if s1.len() == 0 {
        assert(s2.to_multiset().len() == 0);
        assert(s2.len() == 0);
    } else {
        let v = s1.last();
        let d1 = s1.drop_last();
        assert(s1 =~= d1.push(v));
        assert(s1.to_multiset() =~= d1.to_multiset().insert(v));
        assert(s2.to_multiset().count(v) > 0);
        assert(s2.contains(v));
        let j = choose|j: int| 0 <= j < s2.len() && s2[j] == v;
        let d2 = s2.remove(j);
        assert(d2.to_multiset() =~= d1.to_multiset()) by {
            assert(d2.to_multiset() =~= s2.to_multiset().remove(v));
            assert(d1.to_multiset() =~= (d1.to_multiset().insert(v)).remove(v));
        }
        lemma_int_sum_permutation(d1, d2);
        lemma_int_sum_remove(s2, j);
    }
}

/// A sequence without strings has string count zero.
proof fn lemma_string_count_zero(s: Seq<JsonValue>)
    requires
        forall|i: int| 0 <= i < s.len() ==> !(s[i] is Str),
    ensures
        string_count(s) == 0,
    decreases s.len(),
{
    if s.len() > 0 {
        lemma_string_count_zero(s.drop_last());
    }
}

/// The empty input aggregates to zero counts.
pub proof fn lemma_aggregate_empty()
    ensures
        aggregate_spec(Seq::<JsonValue>::empty()) == Ok::<DataResponse, AggregateError>(
            DataResponse { string_len: 0, int_sum: 0 },
        ),
{
}

/// The contract of `aggregate` determines its result: any two results that
/// satisfy it for the same input are identical, so repeated calls on one
/// immutable input agree.
pub proof fn lemma_aggregate_deterministic(
    s: Seq<JsonValue>,
    r1: Result<DataResponse, AggregateError>,
    r2: Result<DataResponse, AggregateError>,
)
    requires
        r1 == aggregate_spec(s),
        r2 == aggregate_spec(s),
    ensures
        r1 == r2,
{
}

/// On an input of integer-valued numbers alone, aggregation succeeds whenever
/// the exact sum fits in a 64-bit signed integer, and returns that sum with a
/// string count of zero.
pub proof fn lemma_aggregate_all_integers(s: Seq<JsonValue>)
    requires
        forall|i: int| 0 <= i < s.len() ==> s[i] is Integer,
        fits_i64(int_sum(s)),
    ensures
        aggregate_spec(s) == Ok::<DataResponse, AggregateError>(
            DataResponse { string_len: 0, int_sum: int_sum(s) as i64 },
        ),
{
    lemma_string_count_zero(s);
}

} // verus!
