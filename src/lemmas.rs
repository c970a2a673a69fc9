use vstd::prelude::*;
use vstd::arithmetic::div_mod::{
    lemma_div_is_ordered,
    lemma_div_plus_one,
    lemma_div_by_multiple,
    lemma_fundamental_div_mod,
    lemma_fundamental_div_mod_converse,
};
use crate::trials::{TrialView, TIME_SCALE, time_of, catalog, hardmode_total};

verus! {

/// At the reference duration the time multiplier is exactly one: the score is
/// the clear score plus the vitality bonus, unchanged (as long as that fits in a
/// `u32`).
pub proof fn lemma_score_at_reference_time(t: TrialView, vitality: nat)
    requires
        t.total_with(vitality) <= u32::MAX,
    ensures
        t.score(t.factor_ms(), vitality) == t.total_with(vitality),
{
    let total = t.total_with(vitality) as int;
    let d = TIME_SCALE as int;
    assert(total * (d + t.factor_ms() - t.factor_ms()) == total * d);
    lemma_div_by_multiple(total, d);
}

/// Every trial of the catalog, finished at its reference duration with all
/// vitality kept, scores exactly its clear score plus its full vitality bonus.
pub proof fn lemma_catalog_scores_at_reference_time(i: int)
    requires
        0 <= i < catalog().len(),
    ensures
        catalog()[i].score(catalog()[i].factor_ms(), catalog()[i].max_vitality)
            == catalog()[i].total_with(catalog()[i].max_vitality),
{
    reveal_with_fuel(hardmode_total, 5);
    let t = catalog()[i];
    assert(t.total_with(t.max_vitality) <= 1_000_000);
    lemma_score_at_reference_time(t, t.max_vitality);
}

/// A longer run never scores more than a shorter one.
pub proof fn lemma_score_non_increasing(t: TrialView, vitality: nat, t1: nat, t2: nat)
    requires
        t1 <= t2,
    ensures
        t.score(t2, vitality) <= t.score(t1, vitality),
{
    let total = t.total_with(vitality) as int;
    let d = TIME_SCALE as int;
    let f = t.factor_ms() as int;
    let n1 = total * (d + f - t1);
    let n2 = total * (d + f - t2);
    assert(n2 <= n1) by (nonlinear_arith)
        requires
            total >= 0,
            n1 == total * (d + f - t1),
            n2 == total * (d + f - t2),
            t1 <= t2,
    ;
    if n2 > 0 {
        lemma_div_is_ordered(n2, n1, d);
    }
}

/// A run that is longer by enough to lose at least one whole point scores
/// strictly less, as long as the longer run still has a score of zero or more
/// before truncation and the shorter one does not exceed the range of a `u32`.
pub proof fn lemma_score_strictly_decreasing(t: TrialView, vitality: nat, t1: nat, t2: nat)
    requires
        t1 < t2,
        t.total_with(vitality) * (t2 - t1) >= TIME_SCALE,
        t2 <= TIME_SCALE + t.factor_ms(),
        t.total_with(vitality) * (TIME_SCALE + t.factor_ms() - t1) / (TIME_SCALE as int)
            <= u32::MAX,
    ensures
        t.score(t2, vitality) < t.score(t1, vitality),
{
    let total = t.total_with(vitality) as int;
    let d = TIME_SCALE as int;
    let f = t.factor_ms() as int;
    let n1 = total * (d + f - t1);
    let n2 = total * (d + f - t2);
    assert(n1 == n2 + total * (t2 - t1) && n2 >= 0) by (nonlinear_arith)
        requires
            total >= 0,
            n1 == total * (d + f - t1),
            n2 == total * (d + f - t2),
            t2 <= d + f,
    ;
    lemma_div_is_ordered(n2 + d, n1, d);
    lemma_div_plus_one(n2, d);
}

/// Deriving the time back from a score gives the original time plus the
/// truncation loss of the score, counted in milliseconds: exactly
/// `time + (n % TIME_SCALE) / total`, where `n` is the score before truncation
/// times `TIME_SCALE`.
pub proof fn lemma_time_of_score(t: TrialView, vitality: nat, time: nat)
    requires
        t.total_with(vitality) > 0,
        time <= TIME_SCALE + t.factor_ms(),
        t.total_with(vitality) * (TIME_SCALE + t.factor_ms() - time) / (TIME_SCALE as int)
            <= u32::MAX,
    ensures
        ({
            let total = t.total_with(vitality);
            let n = total * (TIME_SCALE + t.factor_ms() - time);
            let back = time + (n % (TIME_SCALE as int)) / (total as int);
            time_of(total, t.factor_ms(), t.score(time, vitality)) == if back > u32::MAX {
                u32::MAX as int
            } else {
                back
            }
        }),
{
    let total = t.total_with(vitality) as int;
    let d = TIME_SCALE as int;
    let f = t.factor_ms() as int;
    let n = total * (d + f - time);
    let sc = t.score(time, vitality) as int;
    assert(n >= 0) by (nonlinear_arith)
        requires
            total >= 0,
            n == total * (d + f - time),
            time <= d + f,
    ;
    lemma_fundamental_div_mod(n, d);
    let r = n % d;
    assert(sc == n / d);
    assert(total * (f + d) - d * sc == total * time + r) by (nonlinear_arith)
        requires
            n == total * (d + f - time),
            n == d * sc + r,
    ;
    let q = r / total;
    let rr = r % total;
    lemma_fundamental_div_mod(r, total);
    assert(total * time + r == (time + q) * total + rr) by (nonlinear_arith)
        requires
            r == total * q + rr,
    ;
    if total * time + r > 0 {
        lemma_fundamental_div_mod_converse(total * time + r, total, time + q, rr);
    } else {
        assert(time == 0 && r == 0) by (nonlinear_arith)
            requires
                total > 0,
                time >= 0,
                r >= 0,
                total * time + r <= 0,
        ;
        assert(q == 0);
    }
}

/// Deriving the time back from the score of a run gives the run's time to within
/// one millisecond, wherever the truncation loss of the score is worth less than
/// two milliseconds of the run.
pub proof fn lemma_round_trip_within_one(t: TrialView, vitality: nat, time: nat)
    requires
        t.total_with(vitality) > 0,
        time <= u32::MAX,
        time <= TIME_SCALE + t.factor_ms(),
        t.total_with(vitality) * (TIME_SCALE + t.factor_ms() - time) / (TIME_SCALE as int)
            <= u32::MAX,
        (t.total_with(vitality) * (TIME_SCALE + t.factor_ms() - time)) % (TIME_SCALE as int)
            < 2 * t.total_with(vitality),
    ensures
        time <= time_of(t.total_with(vitality), t.factor_ms(), t.score(time, vitality)) <= time + 1,
{
    lemma_time_of_score(t, vitality, time);
    let total = t.total_with(vitality) as int;
    let d = TIME_SCALE as int;
    let n = total * (d + t.factor_ms() - time);
    let r = n % d;
    lemma_fundamental_div_mod(r, total);
    assert(r / total < 2) by (nonlinear_arith)
        requires
            r == total * (r / total) + r % total,
            r % total >= 0,
            r < 2 * total,
            total > 0,
    ;
}

/// A target score above what the run could reach at time zero gives a time of
/// zero rather than a negative one.
pub proof fn lemma_time_floors_at_zero(t: TrialView, vitality: nat, target: nat)
    requires
        t.total_with(vitality) > 0,
        TIME_SCALE * target >= t.total_with(vitality) * (t.factor_ms() + TIME_SCALE),
    ensures
        time_of(t.total_with(vitality), t.factor_ms(), target) == 0,
{
}

} // verus!
