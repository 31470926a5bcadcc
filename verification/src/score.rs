//! The score curve and the running score of a session.
//!
//! Each merge of two balls of order `n` awards `10 * 2^(n-1)` points, except
//! the final merge, which produces the terminal variant and awards a fixed
//! win bonus instead. The high score is the high-water mark of the current
//! score within a session.

use vstd::prelude::*;

use crate::variant::BallVariant;

verus! {

/// Points awarded by the merge that produces the terminal variant.
pub const WIN_BONUS: u32 = 5000;

/// 2 to the power `n`.
pub open spec fn pow2(n: nat) -> nat
    decreases n,
{
    if n == 0 {
        1
    } else {
        2 * pow2((n - 1) as nat)
    }
}

/// Points awarded for merging two balls of variant `v`: `10 * 2^(order-1)`,
/// or the fixed win bonus when the merge produces the terminal variant.
pub open spec fn merge_award_spec(v: BallVariant) -> int {
    if v.next_variant_spec() == Some(BallVariant::Win) {
        WIN_BONUS as int
    } else {
        10 * pow2((v.order_spec() - 1) as nat) as int
    }
}

/// Points awarded for merging two balls of variant `v`.
pub fn merge_award(v: &BallVariant) -> (r: u32)
    requires
        v.next_variant_spec() is Some,
    ensures
        r == merge_award_spec(*v),
        10 <= r <= WIN_BONUS,
{
    proof {
        reveal_with_fuel(pow2, 11);
    }
    match v {
        BallVariant::Sad => 10,
        BallVariant::Angry => 20,
        BallVariant::Surprised => 40,
        BallVariant::Embarrassed => 80,
        BallVariant::Happy => 160,
        BallVariant::Joyful => 320,
        BallVariant::Spite => 640,
        BallVariant::Love => 1280,
        BallVariant::Pride => 2560,
        BallVariant::Rage => WIN_BONUS,
        BallVariant::Win => vstd::pervasive::unreached(),
    }
}

/// The running score of a session: the current total and its high-water mark.
#[derive(Clone, Copy, PartialEq, Eq, Structural, Debug)]
pub struct Score {
    pub current: u32,
    pub high_score: u32,
}

/// The score after awarding `points`: the current total grows by `points`
/// (stopping at the representable maximum), and the high score is raised to
/// the new total where that exceeds it.
pub open spec fn award_spec(s: Score, points: u32) -> Score {
    let c: u32 = if s.current + points <= u32::MAX {
        (s.current + points) as u32
    } else {
        u32::MAX
    };
    Score {
        current: c,
        high_score: if c > s.high_score {
            c
        } else {
            s.high_score
        },
    }
}

impl Score {
    /// A fresh score: nothing earned yet.
    pub fn new() -> (s: Score)
        ensures
            s == (Score { current: 0, high_score: 0 }),
    {
        Score { current: 0, high_score: 0 }
    }

    /// Add `points` to the current total and raise the high-water mark where
    /// the new total exceeds it. The high score never decreases.
    pub fn award(&mut self, points: u32)
        ensures
            *final(self) == award_spec(*old(self), points),
            final(self).high_score >= old(self).high_score,
    {
        self.current = match self.current.checked_add(points) {
            Some(c) => c,
            None => u32::MAX,
        };
        if self.current > self.high_score {
            self.high_score = self.current;
        }
    }

    /// Begin a new run: the current total returns to zero, the high-water
    /// mark persists.
    pub fn reset_current(&mut self)
        ensures
            final(self).current == 0,
            final(self).high_score == old(self).high_score,
    {
        self.current = 0;
    }
}

impl Default for Score {
    /// The score at the start of a session.
    fn default() -> (s: Score)
        ensures
            s == (Score { current: 0, high_score: 0 }),
    {
        Score { current: 0, high_score: 0 }
    }
}

/// The total award of a sequence of merges, one entry per merged variant.
pub open spec fn total_award(ms: Seq<BallVariant>) -> int
    decreases ms.len(),
{
    if ms.len() == 0 {
        0
    } else {
        merge_award_spec(ms[0]) + total_award(ms.drop_first())
    }
}

/// The score after awarding a sequence of merges in order.
pub open spec fn run_awards(s: Score, ms: Seq<BallVariant>) -> Score
    decreases ms.len(),
{
    if ms.len() == 0 {
        s
    } else {
        run_awards(award_spec(s, (merge_award_spec(ms[0])) as u32), ms.drop_first())
    }
}

/// Every merge awards a positive number of points, at most the win bonus.
pub proof fn lemma_award_positive(v: BallVariant)
    requires
        v.next_variant_spec() is Some,
    ensures
        10 <= merge_award_spec(v) <= WIN_BONUS,
{
    reveal_with_fuel(pow2, 11);
}

/// The score after a sequence of merges equals the starting total plus the
/// sum of each merge's contribution, as long as that sum stays representable;
/// and the high-water mark never falls below where it started.
pub proof fn lemma_score_after_merges(s: Score, ms: Seq<BallVariant>)
    requires
        forall|k: int| 0 <= k < ms.len() ==> (#[trigger] ms[k]).next_variant_spec() is Some,
    ensures
        s.current + total_award(ms) <= u32::MAX ==> run_awards(s, ms).current == s.current
            + total_award(ms),
        run_awards(s, ms).high_score >= s.high_score,
    decreases ms.len(),
{
    if ms.len() > 0 {
        lemma_award_positive(ms[0]);
        lemma_total_award_nonneg(ms.drop_first());
        lemma_score_after_merges(award_spec(s, (merge_award_spec(ms[0])) as u32), ms.drop_first());
    }
}

/// The total award of any sequence of merges is non-negative.
pub proof fn lemma_total_award_nonneg(ms: Seq<BallVariant>)
    requires
        forall|k: int| 0 <= k < ms.len() ==> (#[trigger] ms[k]).next_variant_spec() is Some,
    ensures
        total_award(ms) >= 0,
    decreases ms.len(),
{
    if ms.len() > 0 {
        lemma_total_award_nonneg(ms.drop_first());
        lemma_award_positive(ms[0]);
    }
}

} // verus!
