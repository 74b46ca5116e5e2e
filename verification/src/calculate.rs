//! Summing `u32` values without overflow.
use vstd::prelude::*;

verus! {

/// The sum of all values, as a mathematical integer.
pub open spec fn total(values: Seq<u32>) -> int
    decreases values.len(),
{
    if values.len() == 0 {
        0
    } else {
        total(values.drop_last()) + values.last()
    }
}

/// A sum grows with each value added: a prefix sums to no more than the whole.
pub proof fn lemma_prefix_total_le(values: Seq<u32>, n: int)
    requires
        0 <= n <= values.len(),
    ensures
        total(values.take(n)) <= total(values),
    decreases values.len() - n,
{
    if n < values.len() {
        lemma_prefix_total_le(values, n + 1);
        assert(values.take(n + 1).drop_last() =~= values.take(n));
    } else {
        assert(values.take(n) =~= values);
    }
}

/// The sum of `values`, or `None` where it does not fit in a `u32`.
pub open spec fn calculated(values: Seq<u32>) -> Option<u32> {
    if total(values) <= u32::MAX {
        Some(total(values) as u32)
    } else {
        None
    }
}

/// Removing one value takes exactly that value off the total.
proof fn lemma_total_remove(values: Seq<u32>, j: int)
    requires
        0 <= j < values.len(),
    ensures
        total(values) == total(values.remove(j)) + values[j],
    decreases values.len(),
{
    if j == values.len() - 1 {
        assert(values.remove(j) =~= values.drop_last());
    } else {
        let rest = values.drop_last();
        lemma_total_remove(rest, j);
        assert(values.remove(j).drop_last() =~= rest.remove(j));
        assert(values.remove(j).last() == values.last());
    }
}

/// Values with the same multiset have the same total.
proof fn lemma_total_of_reordering(a: Seq<u32>, b: Seq<u32>)
    requires
        a.to_multiset() == b.to_multiset(),
    ensures
        total(a) == total(b),
    decreases a.len(),
{
    broadcast use vstd::seq_lib::group_to_multiset_ensures;
    broadcast use vstd::multiset::group_multiset_axioms;

    if a.len() == 0 {
        assert(a.to_multiset().len() == 0);
        assert(b.to_multiset().len() == 0);
        assert(b.len() == 0);
        assert(b =~= Seq::<u32>::empty());
    } else {
        let x = a.last();
        let rest = a.drop_last();
        assert(rest.push(x) =~= a);
        assert(a.to_multiset().count(x) > 0);
        assert(b.contains(x));
        let j = choose|j: int| 0 <= j < b.len() && b[j] == x;
        assert(b.remove(j).to_multiset() =~= rest.to_multiset());
        lemma_total_of_reordering(rest, b.remove(j));
        lemma_total_remove(b, j);
    }
}

/// The sum does not depend on the order of the values: a reordering of the
/// values gives the same result, `None` included.
pub proof fn calculation_ignores_order(a: Seq<u32>, b: Seq<u32>)
    requires
        a.to_multiset() == b.to_multiset(),
    ensures
        calculated(a) == calculated(b),
{
    lemma_total_of_reordering(a, b);
}

/// The sum is reported exactly when it fits in a `u32`, whatever the number
/// of values: `Some` of the mathematical sum when it is at most `u32::MAX`,
/// `None` only when it exceeds it. Appending a value adds it to the sum, and
/// no values sum to zero.
pub proof fn sum_is_reported_exactly_when_it_fits(values: Seq<u32>, more: u32)
    ensures
        total(values) >= 0,
        total(Seq::<u32>::empty()) == 0,
        total(values.push(more)) == total(values) + more,
        total(values) <= u32::MAX ==> calculated(values) == Some(total(values) as u32),
        calculated(values) is None ==> total(values) > u32::MAX,
        calculated(values) matches Some(sum) ==> sum == total(values),
    decreases values.len(),
{
    if values.len() > 0 {
        sum_is_reported_exactly_when_it_fits(values.drop_last(), more);
    }
    assert(values.push(more).drop_last() =~= values);
}

/// The sum of `arr`, or `None` where it does not fit in a `u32`.
pub fn do_calculate(arr: &[u32]) -> (sum: Option<u32>)
    ensures
        sum == calculated(arr@),
{
    let max_u32 = u32::MAX as u64;
    let mut sum: u64 = 0;
    let mut i: usize = 0;
    while i < arr.len()
        invariant
            i <= arr@.len(),
            sum == total(arr@.take(i as int)),
            sum <= u32::MAX,
            max_u32 == u32::MAX,
        decreases arr@.len() - i,
    {
        assert(arr@.take(i + 1).drop_last() =~= arr@.take(i as int));
        sum += arr[i] as u64;
        i += 1;
        if sum > max_u32 {
            proof {
                lemma_prefix_total_le(arr@, i as int);
            }
            return None;
        }
    }
    assert(arr@.take(i as int) =~= arr@);
    Some(sum as u32)
}

} // verus!
