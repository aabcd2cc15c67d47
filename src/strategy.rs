//! The duration generator: growth, ceiling and jitter.

use vstd::prelude::*;

use crate::random::{draw_between, fresh_rng};
use crate::span::{saturate, TimeSpan, MAX_NANOS, NANOS_PER_MILLI, NANOS_PER_SEC};

verus! {

/// Parts per million that make a ratio of one.
pub const PPM_PER_UNIT: u128 = 1_000_000;

/// Nanoseconds times parts per million that make one millisecond.
pub const NANO_PPM_PER_MILLI: u128 = 1_000_000_000_000;

/// The initial duration, in seconds, where none is set.
pub const DEFAULT_DURATION_SECS: u64 = 2;

/// The jitter ratio, in parts per million, where none is set: one tenth.
pub const DEFAULT_JITTER_PPM: u32 = 100_000;

/// The largest jitter offset, in milliseconds, that is ever drawn.
pub const MAX_SPREAD_MS: i64 = 0x7fff_ffff_ffff_ffff;

/// How the base duration evolves from one pull to the next.
#[derive(Clone, Copy, Debug, PartialEq, Eq, Structural)]
pub enum Kind {
    /// The base never changes.
    Fixed,
    /// The base doubles on each pull, saturating at the longest span.
    Exponential,
}

/// The base that follows `base` under growth `kind`.
pub open spec fn grown(kind: Kind, base: nat) -> nat {
    match kind {
        Kind::Fixed => base,
        Kind::Exponential => saturate(2 * base as int),
    }
}

/// `v`, held down to the ceiling where there is one.
pub open spec fn capped(v: nat, max: Option<nat>) -> nat {
    match max {
        Some(m) => if v <= m {
            v
        } else {
            m
        },
        None => v,
    }
}

/// The widest jitter offset in milliseconds for base `base` (nanoseconds) and a
/// ratio of `ppm` parts per million: `base * ratio` in milliseconds, truncated,
/// and at most `MAX_SPREAD_MS`.
pub open spec fn spread_ms(base: nat, ppm: nat) -> nat {
    let s = (base * ppm) / (NANO_PPM_PER_MILLI as nat);
    if s <= MAX_SPREAD_MS {
        s
    } else {
        MAX_SPREAD_MS as nat
    }
}

/// `base` moved by `offset_ms` milliseconds, saturating at zero and at the
/// longest span.
pub open spec fn jittered(base: nat, offset_ms: int) -> nat {
    saturate(base + offset_ms * NANOS_PER_MILLI)
}

impl Default for Kind {
    fn default() -> (r: Kind)
        ensures
            r == Kind::Exponential,
    {
        Kind::Exponential
    }
}

impl Kind {
    /// The base that follows `duration` under this growth kind.
    pub fn next(&self, duration: TimeSpan) -> (r: TimeSpan)
        ensures
            r@ == grown(*self, duration@),
    {
        match self {
            Kind::Fixed => duration,
            Kind::Exponential => duration.saturating_mul(2),
        }
    }
}

/// The state of a [`Strategy`] as plain values: the base for the next pull and
/// the ceiling (nanoseconds), the growth kind, and the jitter ratio (parts per
/// million).
pub struct StrategyView {
    pub duration: nat,
    pub duration_max: Option<nat>,
    pub kind: Kind,
    pub jitter: nat,
}

impl StrategyView {
    /// Every span in the state can be held by a `TimeSpan`.
    pub open spec fn valid(self) -> bool {
        &&& self.duration <= MAX_NANOS
        &&& (self.duration_max matches Some(m) ==> m <= MAX_NANOS)
    }

    /// The state after one pull.
    pub open spec fn advanced(self) -> StrategyView {
        StrategyView {
            duration: capped(grown(self.kind, self.duration), self.duration_max),
            duration_max: self.duration_max,
            kind: self.kind,
            jitter: self.jitter,
        }
    }

    /// The state after `k` pulls.
    pub open spec fn after(self, k: nat) -> StrategyView
        decreases k,
    {
        if k == 0 {
            self
        } else {
            self.after((k - 1) as nat).advanced()
        }
    }

    /// The widest jitter offset, in milliseconds, of the next pull.
    pub open spec fn spread(self) -> nat {
        spread_ms(self.duration, self.jitter)
    }

    /// The value of the next pull when the jitter offset drawn is `offset_ms`.
    pub open spec fn output(self, offset_ms: int) -> nat {
        capped(jittered(self.duration, offset_ms), self.duration_max)
    }

    /// `v` is a value that the next pull can produce.
    pub open spec fn can_yield(self, v: nat) -> bool {
        exists|j: int| -self.spread() <= j <= self.spread() && v == #[trigger] self.output(j)
    }
}

/// An endless generator of retry durations.
///
/// Each pull returns the current base moved by a random offset of at most
/// `jitter` times the base, held under the ceiling, and then grows the base.
/// Built by [`StrategyBuilder`]; each built strategy owns its own random source.
#[derive(Debug)]
pub struct Strategy {
    duration: TimeSpan,
    duration_max: Option<TimeSpan>,
    kind: Kind,
    jitter: u32,
    rng: fastrand::Rng,
}

/// The view of an optional span.
pub open spec fn opt_view(d: Option<TimeSpan>) -> Option<nat> {
    match d {
        Some(x) => Some(x@),
        None => None,
    }
}

impl View for Strategy {
    type V = StrategyView;

    closed spec fn view(&self) -> StrategyView {
        StrategyView {
            duration: self.duration@,
            duration_max: opt_view(self.duration_max),
            kind: self.kind,
            jitter: self.jitter as nat,
        }
    }
}

impl Strategy {
    /// The widest jitter offset of the next pull, in milliseconds.
    pub fn spread(&self) -> (r: i64)
        ensures
            r == self@.spread(),
            r >= 0,
    {
        let base: u128 = self.duration.as_nanos();
        proof {
            assert(base * (self.jitter as u128) <= MAX_NANOS * 0xffff_ffff) by (nonlinear_arith)
                requires
                    base <= MAX_NANOS,
                    self.jitter <= 0xffff_ffffu32,
            ;
        }
        let s: u128 = base * (self.jitter as u128) / NANO_PPM_PER_MILLI;
        if s <= MAX_SPREAD_MS as u128 {
            s as i64
        } else {
            MAX_SPREAD_MS
        }
    }

    /// `duration` moved by `offset_ms` milliseconds, saturating at both ends.
    fn jitter_by(duration: TimeSpan, offset_ms: i64) -> (r: TimeSpan)
        ensures
            r@ == jittered(duration@, offset_ms as int),
    {
        if 0 <= offset_ms {
            duration.saturating_add(TimeSpan::from_millis(offset_ms as u64))
        } else {
            let back: u64 = (-(offset_ms as i128)) as u64;
            duration.saturating_sub(TimeSpan::from_millis(back))
        }
    }

    /// Makes one pull with the jitter offset `offset_ms` (milliseconds) given:
    /// returns the jittered, capped current base and grows the base.
    pub fn next_with_offset(&mut self, offset_ms: i64) -> (r: TimeSpan)
        ensures
            r@ == old(self)@.output(offset_ms as int),
            final(self)@ == old(self)@.advanced(),
    {
        let duration = self.duration;
        let next_duration = self.kind.next(duration);
        match self.duration_max {
            Some(saturation) => {
                self.duration = next_duration.min(saturation);
                Self::jitter_by(duration, offset_ms).min(saturation)
            },
            None => {
                self.duration = next_duration;
                Self::jitter_by(duration, offset_ms)
            },
        }
    }

    /// Draws the jitter offset and makes one pull.
    fn update_duration(&mut self) -> (r: TimeSpan)
        ensures
            old(self)@.can_yield(r@),
            final(self)@ == old(self)@.advanced(),
    {
        let spread = self.spread();
        let offset = draw_between(&mut self.rng, -spread, spread);
        let r = self.next_with_offset(offset);
        assert(r@ == old(self)@.output(offset as int));
        r
    }

    /// Pulls the next duration. The sequence never ends: this is always `Some`.
    pub fn next(&mut self) -> (r: Option<TimeSpan>)
        ensures
            r is Some,
            old(self)@.can_yield(r.unwrap()@),
            final(self)@ == old(self)@.advanced(),
    {
        Some(self.update_duration())
    }

    /// The sequence is endless: at least `usize::MAX` items remain, with no upper bound.
    pub fn size_hint(&self) -> (r: (usize, Option<usize>))
        ensures
            r == (usize::MAX, None::<usize>),
    {
        (usize::MAX, None)
    }

    /// The first `n` pulls, in order.
    pub fn take(self, n: usize) -> (r: Vec<TimeSpan>)
        ensures
            r@.len() == n,
            forall|i: int| 0 <= i < n ==> #[trigger] self@.after(i as nat).can_yield(r@[i]@),
    {
        let ghost start = self@;
        let mut strategy = self;
        let mut out: Vec<TimeSpan> = Vec::new();
        let mut i: usize = 0;
        while i < n
            invariant
                i <= n,
                out@.len() == i,
                strategy@ == start.after(i as nat),
                forall|k: int| 0 <= k < i ==> #[trigger] start.after(k as nat).can_yield(out@[k]@),
            decreases n - i,
        {
            let d = strategy.update_duration();
            out.push(d);
            i = i + 1;
        }
        out
    }
}

/// The error of [`StrategyBuilder::build`] for a setting that has no value.
///
/// Every setting has a default today, so `build` never returns it.
#[derive(Clone, Debug, PartialEq, Eq)]
pub enum StrategyBuilderError {
    /// The named setting was neither set nor has a default.
    UninitializedField(String),
}

/// Collects the settings of a [`Strategy`]; those left unset take their
/// defaults when it is built.
#[derive(Clone, Debug)]
pub struct StrategyBuilder {
    duration: Option<TimeSpan>,
    duration_max: Option<Option<TimeSpan>>,
    kind: Option<Kind>,
    jitter: Option<u32>,
}

/// The configuration of a fresh builder: two seconds, no ceiling, exponential
/// growth, a jitter of one tenth.
pub open spec fn default_config() -> StrategyView {
    StrategyView {
        duration: (DEFAULT_DURATION_SECS * NANOS_PER_SEC) as nat,
        duration_max: None,
        kind: Kind::Exponential,
        jitter: DEFAULT_JITTER_PPM as nat,
    }
}

impl View for StrategyBuilder {
    type V = StrategyView;

    /// The configuration that `build` gives, defaults applied.
    closed spec fn view(&self) -> StrategyView {
        StrategyView {
            duration: match self.duration {
                Some(d) => d@,
                None => default_config().duration,
            },
            duration_max: match self.duration_max {
                Some(m) => opt_view(m),
                None => default_config().duration_max,
            },
            kind: match self.kind {
                Some(k) => k,
                None => default_config().kind,
            },
            jitter: match self.jitter {
                Some(j) => j as nat,
                None => default_config().jitter,
            },
        }
    }
}

impl Default for StrategyBuilder {
    fn default() -> (r: StrategyBuilder)
        ensures
            r@ == default_config(),
    {
        StrategyBuilder { duration: None, duration_max: None, kind: None, jitter: None }
    }
}

/// A builder with every setting at its default.
///
/// A built strategy is endless, so a caller bounds the number of pulls itself.
pub fn builder() -> (r: StrategyBuilder)
    ensures
        r@ == default_config(),
{
    StrategyBuilder::default()
}

impl StrategyBuilder {
    /// Sets the initial duration (default two seconds).
    pub fn duration(&mut self, value: TimeSpan) -> (r: &mut Self)
        ensures
            r@ == (StrategyView {
                duration: value@,
                duration_max: old(self)@.duration_max,
                kind: old(self)@.kind,
                jitter: old(self)@.jitter,
            }),
            *final(self) == *final(r),
    {
        self.duration = Some(value);
        self
    }

    /// Sets or clears the ceiling (default none).
    pub fn duration_max(&mut self, value: Option<TimeSpan>) -> (r: &mut Self)
        ensures
            r@ == (StrategyView {
                duration: old(self)@.duration,
                duration_max: opt_view(value),
                kind: old(self)@.kind,
                jitter: old(self)@.jitter,
            }),
            *final(self) == *final(r),
    {
        self.duration_max = Some(value);
        self
    }

    /// Sets the jitter ratio in parts per million (default 100,000, one tenth).
    ///
    /// Ratios above one million are accepted: the low end of the jitter window
    /// then stops at zero.
    pub fn jitter(&mut self, ppm: u32) -> (r: &mut Self)
        ensures
            r@ == (StrategyView {
                duration: old(self)@.duration,
                duration_max: old(self)@.duration_max,
                kind: old(self)@.kind,
                jitter: ppm as nat,
            }),
            *final(self) == *final(r),
    {
        self.jitter = Some(ppm);
        self
    }

    /// Select fixed interval strategy.
    pub fn fixed(&mut self) -> (r: &mut Self)
        ensures
            r@ == (StrategyView {
                duration: old(self)@.duration,
                duration_max: old(self)@.duration_max,
                kind: Kind::Fixed,
                jitter: old(self)@.jitter,
            }),
            *final(self) == *final(r),
    {
        self.kind = Some(Kind::Fixed);
        self
    }

    /// Select exponential interval strategy. This is default.
    pub fn exponential(&mut self) -> (r: &mut Self)
        ensures
            r@ == (StrategyView {
                duration: old(self)@.duration,
                duration_max: old(self)@.duration_max,
                kind: Kind::Exponential,
                jitter: old(self)@.jitter,
            }),
            *final(self) == *final(r),
    {
        self.kind = Some(Kind::Exponential);
        self
    }

    /// Builds a strategy from the settings, defaults applied. It always succeeds.
    ///
    /// Each call seeds a random source of its own, so two strategies built from
    /// one builder start from the same configuration and draw independently.
    pub fn build(&self) -> (r: Result<Strategy, StrategyBuilderError>)
        ensures
            r matches Ok(s) && s@ == self@,
    {
        let duration = match self.duration {
            Some(d) => d,
            None => TimeSpan::from_secs(DEFAULT_DURATION_SECS),
        };
        let duration_max = match self.duration_max {
            Some(m) => m,
            None => None,
        };
        let kind = match self.kind {
            Some(k) => k,
            None => Kind::default(),
        };
        let jitter = match self.jitter {
            Some(j) => j,
            None => DEFAULT_JITTER_PPM,
        };
        Ok(Strategy { duration, duration_max, kind, jitter, rng: fresh_rng() })
    }
}

} // verus!
