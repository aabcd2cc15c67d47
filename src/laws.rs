//! What holds of every sequence a strategy produces.

use vstd::prelude::*;

use vstd::arithmetic::power::lemma_pow0;
use vstd::arithmetic::power2::{lemma_pow2_unfold, pow2};

use crate::span::{saturate, MAX_NANOS};
use crate::strategy::{capped, jittered, Kind, StrategyView, PPM_PER_UNIT};

verus! {

/// Pulls change the base only: ceiling, kind and jitter stay as configured.
pub proof fn lemma_after_keeps_settings(s: StrategyView, k: nat)
    ensures
        s.after(k).duration_max == s.duration_max,
        s.after(k).kind == s.kind,
        s.after(k).jitter == s.jitter,
    decreases k,
{
    if k > 0 {
        lemma_after_keeps_settings(s, (k - 1) as nat);
    }
}

/// With fixed growth and no ceiling below it, the base stays at its initial value.
proof fn lemma_fixed_base_constant(s: StrategyView, k: nat)
    requires
        s.kind == Kind::Fixed,
        s.duration_max matches Some(m) ==> s.duration <= m,
    ensures
        s.after(k) == s,
    decreases k,
{
    if k > 0 {
        lemma_fixed_base_constant(s, (k - 1) as nat);
    }
}

/// Fixed growth without jitter: every pull yields exactly the initial duration,
/// provided no ceiling lies below it.
pub proof fn fixed_without_jitter_is_constant(s: StrategyView, k: nat, v: nat)
    requires
        s.valid(),
        s.kind == Kind::Fixed,
        s.jitter == 0,
        s.duration_max matches Some(m) ==> s.duration <= m,
    ensures
        s.after(k).can_yield(v) <==> v == s.duration,
{
    lemma_fixed_base_constant(s, k);
    assert(s.spread() == 0);
    assert(s.output(0) == s.duration);
}

/// Exponential growth without ceiling: the base after `k` pulls is the initial
/// duration times `2^k`, saturated.
proof fn lemma_exponential_base(s: StrategyView, k: nat)
    requires
        s.valid(),
        s.kind == Kind::Exponential,
        s.duration_max is None,
    ensures
        s.after(k).duration == saturate(s.duration * pow2(k) as int),
    decreases k,
{
    if k == 0 {
        lemma_pow0(2);
        assert(pow2(0) == 1);
        assert(s.duration * pow2(0) == s.duration) by (nonlinear_arith)
            requires
                pow2(0) == 1,
        ;
    } else {
        let p = (k - 1) as nat;
        lemma_exponential_base(s, p);
        lemma_after_keeps_settings(s, p);
        lemma_pow2_unfold(k);
        let prev = s.duration * pow2(p);
        assert(s.duration * pow2(k) == 2 * prev) by (nonlinear_arith)
            requires
                pow2(k) == 2 * pow2(p),
                prev == s.duration * pow2(p),
        ;
        assert(s.after(k).duration == saturate(2 * saturate(prev as int) as int));
    }
}

/// Exponential growth without jitter or ceiling: the pull numbered `k` (from
/// zero) yields the initial duration times `2^k`, saturating at the longest span.
pub proof fn exponential_without_jitter_doubles(s: StrategyView, k: nat, v: nat)
    requires
        s.valid(),
        s.kind == Kind::Exponential,
        s.jitter == 0,
        s.duration_max is None,
    ensures
        s.after(k).can_yield(v) <==> v == saturate(s.duration * pow2(k) as int),
{
    lemma_exponential_base(s, k);
    lemma_after_keeps_settings(s, k);
    let t = s.after(k);
    assert(t.spread() == 0);
    assert(t.output(0) == t.duration);
}

/// With a ceiling `m`, no pull ever yields more than `m`.
pub proof fn ceiling_holds(s: StrategyView, m: nat, k: nat, v: nat)
    requires
        s.duration_max == Some(m),
    ensures
        s.after(k).can_yield(v) ==> v <= m,
{
    lemma_after_keeps_settings(s, k);
}

/// A jittered value stays within `ppm` parts per million of its base, and at zero or above.
proof fn lemma_jitter_window(b: nat, ppm: nat, j: int)
    requires
        b <= MAX_NANOS,
        j * 1_000_000_000_000 <= b * ppm,
        -j * 1_000_000_000_000 <= b * ppm,
    ensures
        b * PPM_PER_UNIT - b * ppm <= jittered(b, j) * PPM_PER_UNIT,
        jittered(b, j) * PPM_PER_UNIT <= b * PPM_PER_UNIT + b * ppm,
{
    let raw = b + j * 1_000_000;
    assert(raw * 1_000_000 == b * 1_000_000 + j * 1_000_000_000_000) by (nonlinear_arith)
        requires
            raw == b + j * 1_000_000,
    ;
    let w = jittered(b, j);
    if raw < 0 {
        assert(w == 0);
    } else if raw > MAX_NANOS {
        assert(w == MAX_NANOS);
        assert(w * 1_000_000 >= b * 1_000_000) by (nonlinear_arith)
            requires
                w >= b,
        ;
        assert(w * 1_000_000 < raw * 1_000_000) by (nonlinear_arith)
            requires
                w < raw,
        ;
    } else {
        assert(w == raw);
    }
}

/// Before the ceiling is applied, each pull lies within `jitter` (parts per
/// million) of that pull's base `b`: between `b - b * ratio` (and zero) and
/// `b + b * ratio`.
pub proof fn jitter_stays_in_window(s: StrategyView, k: nat, v: nat)
    requires
        s.valid(),
    ensures
        s.after(k).can_yield(v) ==> exists|w: nat|
            {
                let b = s.after(k).duration;
                let r = s.jitter;
                &&& b * PPM_PER_UNIT - b * r <= w * PPM_PER_UNIT
                &&& w * PPM_PER_UNIT <= b * PPM_PER_UNIT + b * r
                &&& v == #[trigger] capped(w, s.duration_max)
            },
{
    let t = s.after(k);
    lemma_after_valid(s, k);
    lemma_after_keeps_settings(s, k);
    if t.can_yield(v) {
        let j = choose|j: int| -t.spread() <= j <= t.spread() && v == #[trigger] t.output(j);
        let b = t.duration;
        let ppm = t.jitter;
        let q = (b * ppm) / 1_000_000_000_000;
        assert(q * 1_000_000_000_000 <= b * ppm) by (nonlinear_arith)
            requires
                q == (b * ppm) / 1_000_000_000_000,
                b * ppm >= 0,
        ;
        assert(j * 1_000_000_000_000 <= q * 1_000_000_000_000) by (nonlinear_arith)
            requires
                j <= q,
        ;
        assert(-j * 1_000_000_000_000 <= q * 1_000_000_000_000) by (nonlinear_arith)
            requires
                -j <= q,
        ;
        lemma_jitter_window(b, ppm, j);
        let w = jittered(b, j);
        assert(v == capped(w, s.duration_max));
    }
}

/// Every state reached by pulls is valid.
pub proof fn lemma_after_valid(s: StrategyView, k: nat)
    requires
        s.valid(),
    ensures
        s.after(k).valid(),
    decreases k,
{
    if k > 0 {
        lemma_after_valid(s, (k - 1) as nat);
    }
}

} // verus!
