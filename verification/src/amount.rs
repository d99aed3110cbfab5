//! Sums of amounts. An amount is a value of a type parameter: the library
//! never looks into one, and adds two only through the addition it is given.

use vstd::prelude::*;

verus! {

/// Whether `total` is what comes of starting at `zero` and adding the
/// `values` one by one, first to last, each time through `plus`.
pub open spec fn sums_to<V, F: Fn(V, V) -> V>(plus: F, zero: V, values: Seq<V>, total: V) -> bool
    decreases values.len(),
{
    if values.len() == 0 {
        total == zero
    } else {
        exists|before: V|
            sums_to(plus, zero, values.drop_last(), before) && #[trigger] plus.ensures(
                (before, values.last()),
                total,
            )
    }
}

/// Adds the `values` to `zero`, first to last.
pub fn sum<V: Copy, F: Fn(V, V) -> V>(values: &Vec<V>, zero: V, plus: &F) -> (total: V)
    requires
        forall|a: V, b: V| plus.requires((a, b)),
    ensures
        sums_to(*plus, zero, values@, total),
{
    let mut total = zero;
    let mut i: usize = 0;
    while i < values.len()
        invariant
            i <= values.len(),
            forall|a: V, b: V| plus.requires((a, b)),
            sums_to(*plus, zero, values@.take(i as int), total),
        decreases values.len() - i,
    {
        let ghost before = total;
        total = plus(total, values[i]);
        proof {
            let upto = values@.take(i + 1);
            assert(upto.drop_last() == values@.take(i as int));
            assert(plus.ensures((before, upto.last()), total));
        }
        i += 1;
    }
    proof {
        assert(values@.take(i as int) == values@);
    }
    total
}

} // verus!
