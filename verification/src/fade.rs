//! The fade sequencer: a timed scalar transition that darkens or lightens a
//! scene overlay, and the shared status flag the state machine polls.
//!
//! Opacity is a fixed-point value in `[0, OPACITY_SCALE]`; a fade rate is in
//! opacity units per millisecond.

use vstd::prelude::*;
use crate::math::MAX_DT;

verus! {

/// Fully opaque, as a fixed-point opacity (parts per million).
pub const OPACITY_SCALE: i64 = 1_000_000;

/// Largest fade rate the simulation admits, in opacity units per millisecond.
pub const MAX_FADE_RATE: i64 = 1_000_000;

/// Which extreme a fader is driving its opacity toward.
#[derive(Clone, Copy, Debug, PartialEq, Eq, Structural)]
pub enum Fade {
    /// Opacity climbs from transparent toward `OPACITY_SCALE`.
    Darken,
    /// Opacity falls from `OPACITY_SCALE` toward transparent.
    Lighten,
}

/// A timed scalar transition. Each tick moves `value` by `rate * dt` toward
/// the extreme of `mode`; reaching the extreme sets `finished`, which never
/// clears again for this fader.
#[derive(Clone, Copy, Debug)]
pub struct Fader {
    pub rate: i64,
    pub value: i64,
    pub mode: Fade,
    pub finished: bool,
}

/// The extreme opacity value a fader of the given mode drives toward.
pub open spec fn fade_target(mode: Fade) -> int {
    match mode {
        Fade::Darken => OPACITY_SCALE as int,
        Fade::Lighten => 0,
    }
}

/// The fader after one tick of `dt` milliseconds: the value advances by
/// `rate * dt` toward the target and clamps there; hitting the target sets
/// `finished`. A finished fader no longer changes.
pub open spec fn fader_advanced(f: Fader, dt: int) -> Fader {
    if f.finished {
        f
    } else {
        let moved = match f.mode {
            Fade::Darken => f.value + f.rate * dt,
            Fade::Lighten => f.value - f.rate * dt,
        };
        let clamped = if f.mode is Darken {
            if moved > OPACITY_SCALE as int {
                OPACITY_SCALE as int
            } else {
                moved
            }
        } else {
            if moved < 0 {
                0
            } else {
                moved
            }
        };
        Fader {
            value: clamped as i64,
            finished: clamped == fade_target(f.mode),
            ..f
        }
    }
}

impl Fader {
    /// Rate positive and bounded; value inside the opacity range; a finished
    /// fader sits at its target.
    pub open spec fn wf(self) -> bool {
        &&& 0 < self.rate <= MAX_FADE_RATE
        &&& 0 <= self.value <= OPACITY_SCALE
        &&& self.finished ==> self.value == fade_target(self.mode)
    }

    /// A fresh fader starting at the extreme opposite its target.
    pub fn new(rate: i64, mode: Fade) -> (f: Fader)
        requires
            0 < rate <= MAX_FADE_RATE,
        ensures
            f.rate == rate,
            f.mode == mode,
            f.finished == false,
            f.value == if mode is Darken { 0int } else { OPACITY_SCALE as int },
            f.wf(),
    {
        let value: i64 = match mode {
            Fade::Darken => 0,
            Fade::Lighten => OPACITY_SCALE,
        };
        Fader { rate, value, mode, finished: false }
    }

    /// Advances the fader by one tick of `dt` milliseconds.
    pub fn advance(&mut self, dt: i64)
        requires
            old(self).wf(),
            0 <= dt <= MAX_DT,
        ensures
            *final(self) == fader_advanced(*old(self), dt as int),
            final(self).wf(),
    {
        if self.finished {
            return ;
        }
        assert(0 <= self.rate * dt <= MAX_FADE_RATE * MAX_DT) by (nonlinear_arith)
            requires
                0 < self.rate <= MAX_FADE_RATE && 0 <= dt <= MAX_DT,
        ;
        let step: i64 = self.rate * dt;
        match self.mode {
            Fade::Darken => {
                let moved: i64 = self.value + step;
                if moved > OPACITY_SCALE {
                    self.value = OPACITY_SCALE;
                } else {
                    self.value = moved;
                }
                if self.value == OPACITY_SCALE {
                    self.finished = true;
                }
            },
            Fade::Lighten => {
                let moved: i64 = self.value - step;
                if moved < 0 {
                    self.value = 0;
                } else {
                    self.value = moved;
                }
                if self.value == 0 {
                    self.finished = true;
                }
            },
        }
    }
}

/// Law: fading is monotone until completion. A Darken fader's opacity never
/// decreases from one tick to the next; a Lighten fader's never increases.
/// A finished fader stays finished with its value pinned at the target (it
/// never un-completes without an explicit reset).
pub proof fn lemma_fade_monotonic(f: Fader, dt: int)
    requires
        f.wf(),
        dt >= 0,
    ensures
        f.mode is Darken ==> fader_advanced(f, dt).value >= f.value,
        f.mode is Lighten ==> fader_advanced(f, dt).value <= f.value,
        f.finished ==> fader_advanced(f, dt) == f,
        fader_advanced(f, dt).finished ==> fader_advanced(f, dt).value == fade_target(f.mode),
{
    if !f.finished {
        assert(f.rate * dt >= 0) by (nonlinear_arith)
            requires
                f.rate > 0 && dt >= 0,
        ;
    }
}

/// The fader after `n` ticks of `dt` milliseconds each.
pub open spec fn fader_after_ticks(f: Fader, dt: int, n: nat) -> Fader
    decreases n,
{
    if n == 0 {
        f
    } else {
        fader_after_ticks(fader_advanced(f, dt), dt, (n - 1) as nat)
    }
}

/// Law: monotonicity holds across any number of ticks, and completion is
/// stable: once a fader finishes it is unchanged by every later tick.
pub proof fn lemma_fade_monotonic_ticks(f: Fader, dt: int, n: nat)
    requires
        f.wf(),
        dt >= 0,
        0 <= dt <= MAX_DT,
    ensures
        f.mode is Darken ==> fader_after_ticks(f, dt, n).value >= f.value,
        f.mode is Lighten ==> fader_after_ticks(f, dt, n).value <= f.value,
        f.finished ==> fader_after_ticks(f, dt, n) == f,
        fader_after_ticks(f, dt, n).wf(),
        fader_after_ticks(f, dt, n).mode == f.mode,
    decreases n,
{
    if n == 0 {
    } else {
        lemma_fade_monotonic(f, dt);
        lemma_fader_advanced_wf(f, dt);
        lemma_fade_monotonic_ticks(fader_advanced(f, dt), dt, (n - 1) as nat);
    }
}

/// Advancing preserves well-formedness and the mode.
pub proof fn lemma_fader_advanced_wf(f: Fader, dt: int)
    requires
        f.wf(),
        0 <= dt <= MAX_DT,
    ensures
        fader_advanced(f, dt).wf(),
        fader_advanced(f, dt).mode == f.mode,
        fader_advanced(f, dt).rate == f.rate,
{
    if !f.finished {
        assert(f.rate * dt >= 0) by (nonlinear_arith)
            requires
                f.rate > 0 && dt >= 0,
        ;
    }
}

/// The shared resource through which the fade behavior reports completion to
/// the state machine; the consumer must clear it explicitly after observing
/// it.
#[derive(Clone, Copy, Debug)]
pub struct FadeStatus {
    pub complete: bool,
}

impl FadeStatus {
    /// A fresh, not-yet-completed status.
    pub fn new() -> (s: FadeStatus)
        ensures
            s.complete == false,
    {
        FadeStatus { complete: false }
    }

    /// Whether some fader has reported completion since the last clear.
    pub fn is_completed(&self) -> (b: bool)
        ensures
            b == self.complete,
    {
        self.complete
    }

    /// Marks completion; stays set until cleared.
    pub fn set_complete(&mut self)
        ensures
            final(self).complete == true,
    {
        self.complete = true;
    }

    /// Explicitly resets the status after the consumer observed completion.
    pub fn clear(&mut self)
        ensures
            final(self).complete == false,
    {
        self.complete = false;
    }
}

} // verus!
