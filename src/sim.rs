use crate::ab_test::{ABTest, InvalidParameter, Rate};
use crate::stats::{lemma_product_zero, prop_test_spec, ChiSquared, InvalidInput};
use rand::rngs::SmallRng;
use vstd::prelude::*;

verus! {

/// How many of the verdicts are `true`.
pub open spec fn count_true(s: Seq<bool>) -> nat
    decreases s.len(),
{
    if s.len() == 0 {
        0
    } else {
        count_true(s.drop_last()) + if s.last() {
            1nat
        } else {
            0nat
        }
    }
}

/// The sum of the counts.
pub open spec fn sum(s: Seq<u32>) -> int
    decreases s.len(),
{
    if s.len() == 0 {
        0
    } else {
        sum(s.drop_last()) + s.last()
    }
}

/// `v` is the verdict on an experiment whose test came out as `stat`: it is
/// significant only when the statistic exists, is not NaN, and `significant`
/// says so of it.
pub open spec fn verdict<F: Fn(&ChiSquared) -> bool>(
    significant: F,
    stat: Result<ChiSquared, InvalidInput>,
    v: bool,
) -> bool {
    match stat {
        Ok(s) => if s.is_degenerate() {
            !v
        } else {
            significant.ensures((&s,), v)
        },
        Err(_) => !v,
    }
}

/// An experiment with rates `a` and `b` and `n` required views per arm ended
/// with control `(ca, na)` and variation `(cb, nb)`: both arms reached `n`
/// views, or one of them reached the largest count that its counter holds;
/// an arm with a certain rate converted on every view, one with an
/// impossible rate on none.
pub open spec fn ended(a: Rate, b: Rate, n: u32, ca: u32, na: u32, cb: u32, nb: u32) -> bool {
    &&& ca <= na
    &&& cb <= nb
    &&& (na >= n && nb >= n) || na == u32::MAX || nb == u32::MAX
    &&& a.certain() ==> ca == na
    &&& a.impossible() ==> ca == 0
    &&& b.certain() ==> cb == nb
    &&& b.impossible() ==> cb == 0
}

/// `v` is the verdict on some experiment with rates `a` and `b` and `n`
/// required views per arm that ran to its end.
pub open spec fn outcome<F: Fn(&ChiSquared) -> bool>(
    significant: F,
    a: Rate,
    b: Rate,
    n: u32,
    v: bool,
) -> bool {
    exists|ca: u32, na: u32, cb: u32, nb: u32|
        ended(a, b, n, ca, na, cb, nb) && verdict(significant, prop_test_spec(ca, na, cb, nb), v)
}

/// Both arms certain, or both impossible: every experiment ends with no
/// non-conversion (the statistic is NaN) or with no conversion (the test is
/// refused), so none is significant.
pub open spec fn never_significant(a: Rate, b: Rate) -> bool {
    (a.certain() && b.certain()) || (a.impossible() && b.impossible())
}

/// An experiment whose arms are both certain or both impossible is never
/// significant, whatever judges its statistic.
pub proof fn lemma_never_significant<F: Fn(&ChiSquared) -> bool>(
    significant: F,
    a: Rate,
    b: Rate,
    n: u32,
    v: bool,
)
    requires
        never_significant(a, b),
        outcome(significant, a, b, n, v),
    ensures
        !v,
{
    let (ca, na, cb, nb) = choose|ca: u32, na: u32, cb: u32, nb: u32|
        ended(a, b, n, ca, na, cb, nb) && verdict(significant, prop_test_spec(ca, na, cb, nb), v);
    if let Ok(s) = prop_test_spec(ca, na, cb, nb) {
        lemma_product_zero(
            s.control_views as int,
            s.variation_views as int,
            s.non_conversions as int,
            s.conversions as int,
        );
    }
}

/// Runs `sims` experiments with conversion rates `a` and `b` and `n` required
/// views per arm, one after another, each to its end, and returns how many of
/// them were significant: their statistic exists, is not NaN, and
/// `significant` judges it so.
pub fn run_simulation<F: Fn(&ChiSquared) -> bool>(
    sims: u32,
    a: Rate,
    b: Rate,
    n: u32,
    rng: &mut SmallRng,
    significant: &F,
) -> (r: Result<u32, InvalidParameter>)
    requires
        forall|s: &ChiSquared| significant.requires((s,)),
    ensures
        r is Err <==> sims > 0 && !(a.valid() && b.valid()),
        sims > 0 && !a.valid() ==> r == Err::<u32, InvalidParameter>(InvalidParameter { rate: a }),
        sims > 0 && a.valid() && !b.valid() ==> r == Err::<u32, InvalidParameter>(
            InvalidParameter { rate: b },
        ),
        never_significant(a, b) && r is Ok ==> r == Ok::<u32, InvalidParameter>(0),
        r matches Ok(k) ==> exists|outs: Seq<bool>|
            {
                &&& outs.len() == sims
                &&& count_true(outs) == k
                &&& forall|i: int| 0 <= i < sims ==> outcome(*significant, a, b, n, #[trigger] outs[i])
            },
{
    let mut diffs: u32 = 0;
    let ghost mut outs: Seq<bool> = Seq::empty();
    let mut i: u32 = 0;
    while i < sims
        invariant
            i <= sims,
            outs.len() == i,
            count_true(outs) == diffs,
            diffs <= i,
            never_significant(a, b) ==> diffs == 0,
            forall|j: int| 0 <= j < i ==> outcome(*significant, a, b, n, #[trigger] outs[j]),
            forall|s: &ChiSquared| significant.requires((s,)),
            i > 0 ==> a.valid() && b.valid(),
        decreases sims - i,
    {
        let mut ab = match ABTest::new(a, b, n) {
            Ok(t) => t,
            Err(e) => return Err(e),
        };
        // Trials go on until both arms have the required views; a run whose
        // arm fills its counter stops there, as no further view can be held.
        loop
            invariant
                ab.wf(),
                ab.required_spec() == n,
                ab.rate_a_spec() == a,
                ab.rate_b_spec() == b,
                ab.faithful(),
            ensures
                ab.wf(),
                ab.required_spec() == n,
                ab.rate_a_spec() == a,
                ab.rate_b_spec() == b,
                ab.faithful(),
                !ab.running() || !ab.has_room_spec(),
            decreases 2 * (u32::MAX as int) - ab.views_a_spec() - ab.views_b_spec(),
        {
            if !ab.has_room() {
                break;
            }
            if !ab.next(rng) {
                break;
            }
        }
        let v = match ab.statistic() {
            Ok(s) => !s.is_nan() && significant(&s),
            Err(_) => false,
        };
        proof {
            let ca = ab.conversions_a_spec();
            let na = ab.views_a_spec();
            let cb = ab.conversions_b_spec();
            let nb = ab.views_b_spec();
            assert(ended(a, b, n, ca, na, cb, nb));
            assert(verdict(*significant, prop_test_spec(ca, na, cb, nb), v));
            assert(outcome(*significant, a, b, n, v));
            if never_significant(a, b) {
                lemma_never_significant(*significant, a, b, n, v);
            }
            let old_outs = outs;
            outs = outs.push(v);
            assert(outs.drop_last() =~= old_outs);
            assert forall|j: int| 0 <= j < i + 1 implies outcome(*significant, a, b, n, #[trigger] outs[j]) by {
                if j < i {
                    assert(outs[j] == old_outs[j]);
                }
            }
        }
        if v {
            diffs = diffs + 1;
        }
        i = i + 1;
    }
    Ok(diffs)
}

/// How many experiments each of `units` execution units runs out of `total`:
/// the quotient, with the remainder dropped.
pub fn share(total: u32, units: u32) -> (r: u32)
    requires
        units > 0,
    ensures
        r == total / units,
{
    total / units
}

/// The sum of the significant counts that the units reported.
pub fn tally(counts: &Vec<u32>) -> (r: u64)
    requires
        counts@.len() <= u32::MAX,
    ensures
        r == sum(counts@),
{
    let mut total: u64 = 0;
    let mut i: usize = 0;
    while i < counts.len()
        invariant
            i <= counts@.len(),
            counts@.len() <= u32::MAX,
            total == sum(counts@.subrange(0, i as int)),
            total <= i * (u32::MAX as int),
        decreases counts@.len() - i,
    {
        proof {
            assert(counts@.subrange(0, i + 1).drop_last() =~= counts@.subrange(0, i as int));
        }
        total = total + counts[i] as u64;
        i = i + 1;
    }
    proof {
        assert(counts@.subrange(0, i as int) =~= counts@);
    }
    total
}

proof fn lemma_sum_bounded(s: Seq<u32>, bound: int)
    requires
        forall|i: int| 0 <= i < s.len() ==> s[i] <= bound,
    ensures
        0 <= sum(s) <= s.len() * bound,
    decreases s.len(),
{
    if s.len() > 0 {
        lemma_sum_bounded(s.drop_last(), bound);
        assert(s.len() * bound == (s.len() - 1) * bound + bound) by (nonlinear_arith);
    }
}

/// When each of `units` units ran `total / units` experiments and reported
/// at most that many significant ones, the reported counts sum to at most
/// `units * (total / units)`, which is at most `total`; when `units` divides
/// `total`, that many experiments is exactly `total`, so the sum divided by
/// `total` is the fraction of significant experiments.
pub proof fn lemma_aggregate(counts: Seq<u32>, total: u32, units: u32)
    requires
        units > 0,
        counts.len() == units,
        forall|i: int| 0 <= i < counts.len() ==> counts[i] <= total / units,
    ensures
        0 <= sum(counts) <= units * (total / units) <= total,
        total % units == 0 ==> units * (total / units) == total,
{
    lemma_sum_bounded(counts, (total / units) as int);
    vstd::arithmetic::div_mod::lemma_fundamental_div_mod(total as int, units as int);
    vstd::arithmetic::div_mod::lemma_mod_pos_bound(total as int, units as int);
}

} // verus!
