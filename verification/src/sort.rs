//! Stable sorting of a batch of summaries by success rate, ascending.
//!
//! The contract pins stability exactly: for every rate, the subsequence of
//! summaries with that rate comes out unchanged, so ties keep their input
//! order.

use crate::insight::InsightItem;
use vstd::prelude::*;

verus! {

/// The sort key of a summary.
pub open spec fn spec_rate(it: InsightItem) -> u32 {
    it.metrics.success_rate
}

/// The summaries are in ascending order of success rate.
pub open spec fn sorted_by_rate(s: Seq<InsightItem>) -> bool {
    forall|i: int, j: int| 0 <= i < j < s.len() ==> spec_rate(s[i]) <= spec_rate(s[j])
}

/// Holds of the summaries whose rate is exactly `r`.
pub open spec fn rate_pred(r: u32) -> spec_fn(InsightItem) -> bool {
    |it: InsightItem| spec_rate(it) == r
}

/// The subsequence of `s` whose rate is exactly `r`, in the order of `s`.
pub open spec fn rate_class(s: Seq<InsightItem>, r: u32) -> Seq<InsightItem> {
    s.filter(rate_pred(r))
}

proof fn lemma_filter_singleton<A>(x: A, pred: spec_fn(A) -> bool)
    ensures
        seq![x].filter(pred) == if pred(x) {
            seq![x]
        } else {
            Seq::<A>::empty()
        },
{
    reveal_with_fuel(Seq::filter, 2);
    assert(seq![x].drop_last() =~= Seq::<A>::empty());
    assert(Seq::<A>::empty().filter(pred) == Seq::<A>::empty());
    assert(seq![x].last() == x);
    if pred(x) {
        assert(seq![x].filter(pred) =~= seq![x]);
    } else {
        assert(seq![x].filter(pred) =~= Seq::<A>::empty());
    }
}

proof fn lemma_filter_all_false<A>(s: Seq<A>, pred: spec_fn(A) -> bool)
    requires
        forall|i: int| 0 <= i < s.len() ==> !pred(#[trigger] s[i]),
    ensures
        s.filter(pred) == Seq::<A>::empty(),
    decreases s.len(),
{
    reveal(Seq::filter);
    if s.len() == 0 {
        assert(s =~= Seq::<A>::empty());
    } else {
        assert(!pred(s.last()));
        assert(forall|i: int|
            0 <= i < s.drop_last().len() ==> !pred(#[trigger] s.drop_last()[i]));
        lemma_filter_all_false(s.drop_last(), pred);
    }
}

/// Sorts a batch of summaries by success rate, ascending and stable: the
/// result is sorted, and for every rate the summaries carrying it appear in
/// the same order as in the input.
pub fn sort_by_success_rate(items: Vec<InsightItem>) -> (r: Vec<InsightItem>)
    ensures
        r@.len() == items@.len(),
        sorted_by_rate(r@),
        forall|rate: u32| #[trigger] rate_class(r@, rate) == rate_class(items@, rate),
{
    let ghost input = items@;
    let ghost n = input.len();
    let mut src = items;
    let mut out: Vec<InsightItem> = Vec::new();
    while src.len() > 0
        invariant
            n == input.len(),
            out@.len() + src@.len() == n,
            src@ == input.skip(out@.len() as int),
            sorted_by_rate(out@),
            forall|rate: u32| #[trigger] rate_class(out@, rate) == rate_class(
                input.take(out@.len() as int),
                rate,
            ),
        decreases src@.len(),
    {
        let ghost k = out@.len() as int;
        let ghost out0 = out@;
        let x = src.remove(0);
        proof {
            assert(x == input[k]);
            assert(src@ =~= input.skip(k + 1));
        }
        let mut p: usize = 0;
        while p < out.len() && out[p].metrics.success_rate <= x.metrics.success_rate
            invariant
                p <= out@.len(),
                out@ == out0,
                forall|j: int| 0 <= j < p ==> spec_rate(#[trigger] out@[j]) <= spec_rate(x),
            decreases out@.len() - p,
        {
            p = p + 1;
        }
        proof {
            assert(p == out0.len() || spec_rate(out0[p as int]) > spec_rate(x));
        }
        out.insert(p, x);
        proof {
            let a = out0.subrange(0, p as int);
            let b = out0.subrange(p as int, out0.len() as int);
            assert(out@ =~= (a + seq![x]) + b);
            assert(out0 =~= a + b);

            assert forall|i: int, j: int|
                0 <= i < j < out@.len() implies spec_rate(out@[i]) <= spec_rate(
                out@[j],
            ) by {
                if j < p {
                    assert(out@[i] == out0[i] && out@[j] == out0[j]);
                } else if j == p {
                    assert(out@[j] == x);
                    assert(out@[i] == out0[i]);
                } else {
                    assert(out@[j] == out0[j - 1]);
                    if i < p {
                        assert(out@[i] == out0[i]);
                        assert(p <= j - 1 < out0.len());
                        assert(spec_rate(out0[i]) <= spec_rate(x));
                        if p < j - 1 {
                            assert(spec_rate(out0[p as int]) <= spec_rate(out0[j - 1]));
                        }
                    } else if i == p {
                        assert(out@[i] == x);
                        assert(p < out0.len());
                        assert(spec_rate(x) <= spec_rate(out0[p as int]));
                        if p < j - 1 {
                            assert(spec_rate(out0[p as int]) <= spec_rate(out0[j - 1]));
                        }
                    } else {
                        assert(out@[i] == out0[i - 1]);
                    }
                }
            }

            assert forall|rate: u32| #[trigger] rate_class(out@, rate) == rate_class(
                input.take(k + 1),
                rate,
            ) by {
                let pred = rate_pred(rate);
                Seq::<InsightItem>::filter_distributes_over_add(a + seq![x], b, pred);
                Seq::<InsightItem>::filter_distributes_over_add(a, seq![x], pred);
                Seq::<InsightItem>::filter_distributes_over_add(a, b, pred);
                lemma_filter_singleton(x, pred);
                assert(input.take(k + 1) =~= input.take(k) + seq![x]);
                Seq::<InsightItem>::filter_distributes_over_add(input.take(k), seq![x], pred);
                assert(rate_class(out0, rate) == rate_class(input.take(k), rate));
                if rate == spec_rate(x) {
                    assert forall|i2: int| 0 <= i2 < b.len() implies !pred(
                        #[trigger] b[i2],
                    ) by {
                        assert(b[i2] == out0[p + i2]);
                        assert(spec_rate(out0[p as int]) > spec_rate(x));
                        if 0 < i2 {
                            assert(spec_rate(out0[p as int]) <= spec_rate(out0[p + i2]));
                        }
                    }
                    lemma_filter_all_false(b, pred);
                    assert(pred(x));
                    assert(out@.filter(pred) =~= input.take(k + 1).filter(pred));
                } else {
                    assert(!pred(x));
                    assert(out@.filter(pred) =~= input.take(k + 1).filter(pred));
                }
            }
        }
    }
    proof {
        assert(input.take(n as int) =~= input);
    }
    out
}

} // verus!
