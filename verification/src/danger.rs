//! The danger-zone state machine.
//!
//! The zone is a forbidden upper region of the well. While at least one ball
//! sits above the threshold, a grace timer advances; the moment no ball
//! remains above it, the timer resets to zero — a later breach starts over
//! from nothing. If the breach lasts unbroken for the full grace duration,
//! the run is over. An independent half-second toggle drives a visual flash
//! while the warning is active.

use vstd::prelude::*;

verus! {

/// How long a breach may last, in milliseconds, before the run ends.
pub const GRACE_MS: u32 = 7000;

/// The period of the warning flash, in milliseconds.
pub const FLASH_PERIOD_MS: u32 = 500;

/// Whether any ball currently occupies the forbidden upper region, and for
/// how long without a break.
#[derive(Clone, Copy, PartialEq, Eq, Structural, Debug)]
pub struct DangerZone {
    /// Whether a breach is in progress.
    pub is_warning: bool,
    /// Milliseconds of the current unbroken breach, never past the grace
    /// duration.
    pub warning_elapsed_ms: u32,
    /// Milliseconds into the current flash period.
    pub flash_elapsed_ms: u32,
    /// The visual flash toggle, flipped once per flash period.
    pub show_warning: bool,
}

impl DangerZone {
    /// The timers never run past their periods, and the grace timer is zero
    /// outside a breach.
    pub open spec fn wf(self) -> bool {
        &&& self.warning_elapsed_ms <= GRACE_MS
        &&& self.flash_elapsed_ms < FLASH_PERIOD_MS
        &&& !self.is_warning ==> self.warning_elapsed_ms == 0
    }

    /// The state before any ball has entered the zone.
    pub open spec fn initial_spec() -> DangerZone {
        DangerZone {
            is_warning: false,
            warning_elapsed_ms: 0,
            flash_elapsed_ms: 0,
            show_warning: false,
        }
    }

    /// The state at the start of a run.
    pub fn initial() -> (d: DangerZone)
        ensures
            d == DangerZone::initial_spec(),
            d.wf(),
    {
        DangerZone { is_warning: false, warning_elapsed_ms: 0, flash_elapsed_ms: 0, show_warning: false }
    }
}

impl Default for DangerZone {
    /// The state at the start of a run.
    fn default() -> (d: DangerZone)
        ensures
            d == DangerZone::initial_spec(),
            d.wf(),
    {
        DangerZone { is_warning: false, warning_elapsed_ms: 0, flash_elapsed_ms: 0, show_warning: false }
    }
}

/// One frame of the danger-zone machine: the state after `delta_ms`
/// milliseconds during which `in_danger` says whether any ball sat above the
/// threshold, paired with whether the grace period ran out this frame.
pub open spec fn danger_tick_spec(d: DangerZone, in_danger: bool, delta_ms: u32) -> (
    DangerZone,
    bool,
) {
    let flash_total = d.flash_elapsed_ms + delta_ms;
    let flash_elapsed = (flash_total % (FLASH_PERIOD_MS as int)) as u32;
    let show = if flash_total >= FLASH_PERIOD_MS {
        !d.show_warning
    } else {
        d.show_warning
    };
    if in_danger {
        let started = if d.is_warning {
            d.warning_elapsed_ms as int
        } else {
            0
        };
        let elapsed = if started + delta_ms >= GRACE_MS {
            GRACE_MS
        } else {
            (started + delta_ms) as u32
        };
        (
            DangerZone {
                is_warning: true,
                warning_elapsed_ms: elapsed,
                flash_elapsed_ms: flash_elapsed,
                show_warning: show,
            },
            elapsed >= GRACE_MS,
        )
    } else {
        (
            DangerZone {
                is_warning: false,
                warning_elapsed_ms: 0,
                flash_elapsed_ms: flash_elapsed,
                show_warning: show,
            },
            false,
        )
    }
}

impl DangerZone {
    /// Advance the machine by one frame of `delta_ms` milliseconds.
    ///
    /// Returns whether the grace period ran out this frame. The grace timer
    /// resets to zero the moment no ball remains above the threshold, and the
    /// run can only end while the breach is still in progress.
    pub fn tick(&mut self, in_danger: bool, delta_ms: u32) -> (game_over: bool)
        requires
            old(self).wf(),
        ensures
            (*final(self), game_over) == danger_tick_spec(*old(self), in_danger, delta_ms),
            final(self).wf(),
            !in_danger ==> final(self).warning_elapsed_ms == 0 && !final(self).is_warning
                && !game_over,
            game_over ==> in_danger && final(self).warning_elapsed_ms == GRACE_MS,
    {
        let flash_total: u64 = self.flash_elapsed_ms as u64 + delta_ms as u64;
        if flash_total >= FLASH_PERIOD_MS as u64 {
            self.show_warning = !self.show_warning;
        }
        self.flash_elapsed_ms = (flash_total % FLASH_PERIOD_MS as u64) as u32;

        if in_danger {
            if !self.is_warning {
                self.is_warning = true;
                self.warning_elapsed_ms = 0;
            }
            let total: u64 = self.warning_elapsed_ms as u64 + delta_ms as u64;
            if total >= GRACE_MS as u64 {
                self.warning_elapsed_ms = GRACE_MS;
                true
            } else {
                self.warning_elapsed_ms = total as u32;
                false
            }
        } else {
            self.is_warning = false;
            self.warning_elapsed_ms = 0;
            false
        }
    }
}

/// The danger-zone state after a sequence of frames, each given as whether
/// any ball sat above the threshold and the frame's length in milliseconds,
/// starting from the initial state.
pub open spec fn danger_run(frames: Seq<(bool, u32)>) -> DangerZone
    decreases frames.len(),
{
    if frames.len() == 0 {
        DangerZone::initial_spec()
    } else {
        danger_tick_spec(danger_run(frames.drop_last()), frames.last().0, frames.last().1).0
    }
}

/// Whether the grace period ran out during any frame of the sequence.
pub open spec fn danger_fired(frames: Seq<(bool, u32)>) -> bool
    decreases frames.len(),
{
    if frames.len() == 0 {
        false
    } else {
        danger_fired(frames.drop_last()) || danger_tick_spec(
            danger_run(frames.drop_last()),
            frames.last().0,
            frames.last().1,
        ).1
    }
}

/// The length in milliseconds of the unbroken breach the sequence ends with:
/// the summed deltas of the maximal suffix of frames that all saw a ball
/// above the threshold.
pub open spec fn trailing_breach_ms(frames: Seq<(bool, u32)>) -> int
    decreases frames.len(),
{
    if frames.len() == 0 {
        0
    } else if frames.last().0 {
        trailing_breach_ms(frames.drop_last()) + frames.last().1
    } else {
        0
    }
}

/// A duration held back to the grace period.
pub open spec fn capped_at_grace(x: int) -> int {
    if x >= GRACE_MS {
        GRACE_MS as int
    } else {
        x
    }
}

/// An unbroken breach never has negative length.
pub proof fn lemma_trailing_breach_nonneg(frames: Seq<(bool, u32)>)
    ensures
        trailing_breach_ms(frames) >= 0,
    decreases frames.len(),
{
    if frames.len() > 0 {
        lemma_trailing_breach_nonneg(frames.drop_last());
    }
}

/// After any sequence of frames the grace timer reads exactly the length of
/// the unbroken breach the sequence ends with, capped at the grace duration;
/// and a warning is in progress exactly when the last frame saw a ball above
/// the threshold. In particular the timer holds no credit from a breach that
/// was interrupted, however close to the grace duration it came.
pub proof fn lemma_timer_reads_trailing_breach(frames: Seq<(bool, u32)>)
    ensures
        danger_run(frames).wf(),
        danger_run(frames).warning_elapsed_ms == capped_at_grace(trailing_breach_ms(frames)),
        danger_run(frames).is_warning <==> frames.len() > 0 && frames.last().0,
    decreases frames.len(),
{
    if frames.len() > 0 {
        lemma_timer_reads_trailing_breach(frames.drop_last());
        lemma_trailing_breach_nonneg(frames.drop_last());
    }
}

/// The run ends exactly when some prefix of the frames closes with an
/// unbroken breach of the full grace duration. An interruption, however
/// late, starts the count over from zero.
pub proof fn lemma_game_over_needs_unbroken_breach(frames: Seq<(bool, u32)>)
    ensures
        danger_fired(frames) <==> exists|i: int|
            0 < i <= frames.len() && trailing_breach_ms(#[trigger] frames.take(i)) >= GRACE_MS,
    decreases frames.len(),
{
    if frames.len() == 0 {
    } else {
        let prev = frames.drop_last();
        lemma_game_over_needs_unbroken_breach(prev);
        lemma_timer_reads_trailing_breach(prev);
        lemma_trailing_breach_nonneg(prev);
        assert(forall|i: int|
            0 < i <= prev.len() ==> #[trigger] frames.take(i) =~= prev.take(i));
        assert(frames.take(frames.len() as int) =~= frames);
        let fired_now = danger_tick_spec(danger_run(prev), frames.last().0, frames.last().1).1;
        assert(fired_now <==> trailing_breach_ms(frames) >= GRACE_MS);
        if danger_fired(frames) {
            if danger_fired(prev) {
                let i = choose|i: int|
                    0 < i <= prev.len() && trailing_breach_ms(#[trigger] prev.take(i)) >= GRACE_MS;
                assert(trailing_breach_ms(frames.take(i)) >= GRACE_MS);
            } else {
                assert(trailing_breach_ms(frames.take(frames.len() as int)) >= GRACE_MS);
            }
        }
        if exists|i: int|
            0 < i <= frames.len() && trailing_breach_ms(#[trigger] frames.take(i)) >= GRACE_MS {
            let i = choose|i: int|
                0 < i <= frames.len() && trailing_breach_ms(#[trigger] frames.take(i)) >= GRACE_MS;
            if i <= prev.len() {
                assert(trailing_breach_ms(prev.take(i)) >= GRACE_MS);
            }
        }
    }
}

} // verus!
