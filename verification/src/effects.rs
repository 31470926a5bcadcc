//! The cosmetic bookkeeping around a merge: the particle budget that keeps
//! explosions bounded, the screen-shake trauma that decays between frames,
//! the hue cycling of the background strips, and where the preview ball
//! hovers. The drawing itself belongs to the engine; these are the values it
//! is handed, in milli-units.

use vstd::prelude::*;

use crate::variant::BallVariant;

verus! {

/// No explosion spawns more than this many particles at once.
pub const EXPLOSION_CAP: u32 = 30;

/// Hues run from zero up to this, in milli-degrees.
pub const HUE_LIMIT_MILLI: u32 = 360000;

/// Trauma is a fraction of one; this is its ceiling in milli-units.
pub const TRAUMA_CEILING_MILLI: u32 = 1000;

/// The preview ball hovers with its centre at this height, in milli-pixels,
/// less half its size.
pub const PREVIEW_TOP_MILLI: u32 = 570000;

/// How many particle entities are alive, against a soft cap. New explosion
/// requests are truncated to the remaining budget rather than queued.
#[derive(Clone, Copy, PartialEq, Eq, Structural, Debug)]
pub struct ParticleCount {
    pub current: usize,
    pub max: usize,
}

impl Default for ParticleCount {
    /// An empty particle pool under the standard cap.
    fn default() -> (p: ParticleCount)
        ensures
            p.current == 0,
            p.max == 1000,
    {
        ParticleCount { current: 0, max: 1000 }
    }
}

impl ParticleCount {
    /// Record `n` freshly spawned particles.
    pub fn note_spawned(&mut self, n: usize)
        requires
            old(self).current + n <= usize::MAX,
        ensures
            final(self).current == old(self).current + n,
            final(self).max == old(self).max,
    {
        self.current = self.current + n;
    }

    /// Record one particle reaching the end of its life; an already empty
    /// pool stays empty.
    pub fn note_despawned(&mut self)
        ensures
            final(self).current == if old(self).current > 0 {
                old(self).current - 1
            } else {
                0
            },
            final(self).max == old(self).max,
    {
        self.current = if self.current > 0 {
            self.current - 1
        } else {
            0
        };
    }
}

/// How many particles an explosion may spawn before the budget is consulted:
/// the configured count scaled up with the explosion intensity, but never
/// more than the hard cap.
pub open spec fn explosion_base_spec(count_milli: u32, intensity_milli: u32) -> int {
    let scaled = count_milli * (1000 + intensity_milli) / 1000000;
    if scaled > EXPLOSION_CAP {
        EXPLOSION_CAP as int
    } else {
        scaled
    }
}

/// How many particles an explosion may spawn: the intensity-scaled count,
/// truncated to the slots left under the soft cap.
pub open spec fn explosion_budget_spec(
    count_milli: u32,
    intensity_milli: u32,
    current: usize,
    max: usize,
) -> int {
    let base = explosion_base_spec(count_milli, intensity_milli);
    let available = if max > current {
        max - current
    } else {
        0
    };
    if base > available {
        available
    } else {
        base
    }
}

/// How many particles an explosion may spawn, given the configured count and
/// intensity and the state of the particle pool.
pub fn explosion_budget(count_milli: u32, intensity_milli: u32, current: usize, max: usize) -> (r:
    u32)
    ensures
        r == explosion_budget_spec(count_milli, intensity_milli, current, max),
        r <= EXPLOSION_CAP,
{
    proof {
        vstd::arithmetic::mul::lemma_mul_upper_bound(
            count_milli as int,
            u32::MAX as int,
            1000 + intensity_milli as int,
            1000 + u32::MAX as int,
        );
    }
    let scaled: u128 = count_milli as u128 * (1000 + intensity_milli as u128) / 1000000;
    let base: u32 = if scaled > EXPLOSION_CAP as u128 {
        EXPLOSION_CAP
    } else {
        scaled as u32
    };
    let available: usize = if max > current {
        max - current
    } else {
        0
    };
    if base as usize > available {
        available as u32
    } else {
        base
    }
}

/// How many particles one explosion actually spawns: a count drawn at random
/// between one and the budget, or none where the budget is empty.
pub fn explosion_particles_to_spawn(
    count_milli: u32,
    intensity_milli: u32,
    current: usize,
    max: usize,
) -> (r: u32)
    ensures
        r <= explosion_budget_spec(count_milli, intensity_milli, current, max),
        explosion_budget_spec(count_milli, intensity_milli, current, max) > 0 ==> r >= 1,
        explosion_budget_spec(count_milli, intensity_milli, current, max) == 0 ==> r == 0,
{
    let budget = explosion_budget(count_milli, intensity_milli, current, max);
    if budget > 0 {
        crate::rng::random_below(budget) + 1
    } else {
        0
    }
}

/// The camera's accumulated trauma and how fast it fades, in milli-units.
#[derive(Clone, Copy, PartialEq, Eq, Structural, Debug)]
pub struct ScreenShakeState {
    pub trauma_milli: u32,
    pub decay_milli: u32,
}

impl Default for ScreenShakeState {
    /// A still camera, fading fast.
    fn default() -> (s: ScreenShakeState)
        ensures
            s.trauma_milli == 0,
            s.decay_milli == 3000,
    {
        ScreenShakeState { trauma_milli: 0, decay_milli: 3000 }
    }
}

/// The shake state one frame of `delta_ms` milliseconds later: trauma held
/// to its ceiling, then faded linearly by the decay rate, stopping at zero.
pub open spec fn shake_decay_spec(s: ScreenShakeState, delta_ms: u32) -> ScreenShakeState {
    let held = if s.trauma_milli > TRAUMA_CEILING_MILLI {
        TRAUMA_CEILING_MILLI as int
    } else {
        s.trauma_milli as int
    };
    let fade = s.decay_milli * delta_ms / 1000;
    ScreenShakeState {
        trauma_milli: if fade >= held {
            0
        } else {
            (held - fade) as u32
        },
        decay_milli: s.decay_milli,
    }
}

impl ScreenShakeState {
    /// Jolt the camera: the new trauma, held to the ceiling, and the new
    /// fade rate replace the old ones.
    pub fn set_trauma(&mut self, trauma_milli: u32, decay_milli: u32)
        ensures
            final(self).trauma_milli == if trauma_milli > TRAUMA_CEILING_MILLI {
                TRAUMA_CEILING_MILLI as int
            } else {
                trauma_milli as int
            },
            final(self).decay_milli == decay_milli,
    {
        self.trauma_milli = if trauma_milli > TRAUMA_CEILING_MILLI {
            TRAUMA_CEILING_MILLI
        } else {
            trauma_milli
        };
        self.decay_milli = decay_milli;
    }

    /// Fade the trauma by one frame of `delta_ms` milliseconds.
    pub fn decay_step(&mut self, delta_ms: u32)
        ensures
            *final(self) == shake_decay_spec(*old(self), delta_ms),
            final(self).trauma_milli <= TRAUMA_CEILING_MILLI,
    {
        let held: u32 = if self.trauma_milli > TRAUMA_CEILING_MILLI {
            TRAUMA_CEILING_MILLI
        } else {
            self.trauma_milli
        };
        proof {
            vstd::arithmetic::mul::lemma_mul_upper_bound(
                self.decay_milli as int,
                u32::MAX as int,
                delta_ms as int,
                u32::MAX as int,
            );
        }
        let fade: u128 = self.decay_milli as u128 * delta_ms as u128 / 1000;
        self.trauma_milli = if fade >= held as u128 {
            0
        } else {
            held - fade as u32
        };
    }

    /// How hard the camera shakes this frame, in milli-units: the trauma
    /// squared — so small trauma barely moves the camera — scaled by the
    /// configured intensity.
    pub fn shake_amount_milli(&self, intensity_milli: u32) -> (r: u32)
        requires
            self.trauma_milli <= TRAUMA_CEILING_MILLI,
        ensures
            r == self.trauma_milli * self.trauma_milli * intensity_milli / 1000000,
            r <= intensity_milli,
    {
        let t: u64 = self.trauma_milli as u64;
        proof {
            vstd::arithmetic::mul::lemma_mul_upper_bound(t as int, 1000, t as int, 1000);
        }
        let squared: u64 = t * t;
        proof {
            vstd::arithmetic::mul::lemma_mul_upper_bound(
                squared as int,
                1000000,
                intensity_milli as int,
                intensity_milli as int,
            );
        }
        let amount: u64 = squared * intensity_milli as u64 / 1000000;
        amount as u32
    }
}

/// The trauma a merge of two balls of variant `v` inflicts, in milli-units:
/// proportional to the merged balls' size, gentler for the final,
/// run-winning merge.
pub fn merge_trauma_milli(v: &BallVariant, produced_win: bool) -> (r: u32)
    ensures
        r == if produced_win {
            v.size_milli_spec() / 150
        } else {
            v.size_milli_spec() / 90
        },
{
    let size = v.size_milli();
    if produced_win {
        size / 150
    } else {
        size / 90
    }
}

/// A hue brought back below the limit by whole turns.
pub open spec fn wrap_hue_spec(h: nat) -> nat
    decreases h,
{
    if h > HUE_LIMIT_MILLI {
        wrap_hue_spec((h - HUE_LIMIT_MILLI) as nat)
    } else {
        h
    }
}

/// A background strip's hue one frame later: advanced by `delta_milli`
/// milli-degrees and brought back below a full turn.
pub fn advance_hue(hue_milli: u32, delta_milli: u32) -> (r: u32)
    ensures
        r == wrap_hue_spec((hue_milli + delta_milli) as nat),
        r <= HUE_LIMIT_MILLI,
{
    let mut h: u64 = hue_milli as u64 + delta_milli as u64;
    while h > HUE_LIMIT_MILLI as u64
        invariant
            wrap_hue_spec(h as nat) == wrap_hue_spec((hue_milli + delta_milli) as nat),
        decreases h,
    {
        h = h - HUE_LIMIT_MILLI as u64;
    }
    h as u32
}

/// The height the preview ball hovers at, in milli-pixels: just under the
/// top of the well, lifted by half its size so it never clips the rim.
pub fn preview_y_milli(v: &BallVariant) -> (r: u32)
    ensures
        r == PREVIEW_TOP_MILLI - v.size_milli_spec() / 2,
{
    let size = v.size_milli();
    PREVIEW_TOP_MILLI - size / 2
}

} // verus!
