//! The entity table and the per-frame rules that read and write it: dropping
//! balls, resolving a physics step's contact pairs into merges, advancing the
//! danger zone, and moving between the session's modes.
//!
//! Balls live in a plain table of tagged records with index-based identity.
//! A despawned ball keeps its slot for the rest of the frame, so the indices
//! of a physics step's contact pairs never change meaning while the step is
//! resolved; the `alive` flag is the guard that keeps an already-consumed
//! ball from merging twice in one step.

use vstd::prelude::*;

use crate::danger::{danger_tick_spec, DangerZone};
use crate::score::{award_spec, merge_award, merge_award_spec, Score};
use crate::variant::BallVariant;

verus! {

/// Width of the well in milli-pixels; x runs from 0 at the left wall's outer
/// edge to this at the right wall's.
pub const WELL_WIDTH_MILLI: u32 = 500000;

/// Height of the well in milli-pixels; y runs from 0 at the bottom up.
pub const WELL_HEIGHT_MILLI: u32 = 600000;

/// The walls and the ground are this thick; the playable region starts this
/// far in from either side.
pub const WALL_MILLI: u32 = 10000;

/// A ball occupies the danger zone while its centre sits strictly above this
/// height.
pub const DANGER_HEIGHT_MILLI: u32 = 500000;

/// Newly dropped balls enter at the top of the well.
pub const SPAWN_Y_MILLI: u32 = 600000;

/// A dropped ball keeps this much clearance from a wall, beyond its own
/// radius.
pub const SPAWN_CLEARANCE_MILLI: u32 = 5000;

/// One slot of the entity table: the ball's tier, the position of its centre
/// in milli-pixels, and whether it still exists.
#[derive(Clone, Copy, PartialEq, Eq, Structural, Debug)]
pub struct BallRecord {
    pub variant: BallVariant,
    pub x: u32,
    pub y: u32,
    pub alive: bool,
}

/// The mode of the session.
#[derive(Clone, Copy, PartialEq, Eq, Structural, Debug)]
pub enum GameState {
    Playing,
    GameOver,
    Win,
    Settings,
}

/// Everything the game's rules read and write in a session: the ball table,
/// the score, the danger zone and the mode. Physics, rendering and input
/// stay outside; they hand in contact pairs, drop positions and frame
/// deltas, and read the table back.
pub struct GameWorld {
    pub balls: Vec<BallRecord>,
    pub score: Score,
    pub danger: DangerZone,
    pub mode: GameState,
}

/// The mathematical model of a world: the ball table as a sequence.
pub struct WorldModel {
    pub balls: Seq<BallRecord>,
    pub score: Score,
    pub danger: DangerZone,
    pub mode: GameState,
}

impl View for GameWorld {
    type V = WorldModel;

    open spec fn view(&self) -> WorldModel {
        WorldModel { balls: self.balls@, score: self.score, danger: self.danger, mode: self.mode }
    }
}

/// The midpoint of two coordinates, rounded down.
pub open spec fn midpoint_spec(a: u32, b: u32) -> u32 {
    ((a + b) / 2) as u32
}

/// The midpoint of two coordinates, rounded down.
pub fn midpoint(a: u32, b: u32) -> (r: u32)
    ensures
        r == midpoint_spec(a, b),
{
    ((a as u64 + b as u64) / 2) as u32
}

/// Whether the contact pair `(i, j)` fires the merge rule: both indices name
/// distinct balls that still exist, of one variant, and that variant has a
/// successor. A terminal ball never merges, and a ball consumed earlier in
/// the same step is no longer alive, so a stale pair fires nothing.
pub open spec fn pair_merges(balls: Seq<BallRecord>, i: int, j: int) -> bool {
    &&& 0 <= i < balls.len()
    &&& 0 <= j < balls.len()
    &&& i != j
    &&& balls[i].alive
    &&& balls[j].alive
    &&& balls[i].variant == balls[j].variant
    &&& balls[i].variant.next_variant_spec() is Some
}

/// The ball a firing pair produces: the successor tier, alive, at the
/// midpoint of the two consumed balls.
pub open spec fn merged_ball(balls: Seq<BallRecord>, i: int, j: int) -> BallRecord {
    BallRecord {
        variant: balls[i].variant.next_variant_spec()->0,
        x: midpoint_spec(balls[i].x, balls[j].x),
        y: midpoint_spec(balls[i].y, balls[j].y),
        alive: true,
    }
}

/// One contact pair resolved. When the pair fires, the two balls are
/// consumed, the successor appears at their midpoint, the merge's points are
/// awarded, and a merge that produced the terminal variant wins the run.
/// Otherwise the world is untouched.
pub open spec fn step_pair_spec(m: WorldModel, i: int, j: int) -> WorldModel {
    if pair_merges(m.balls, i, j) {
        let v = m.balls[i].variant;
        let successor = v.next_variant_spec()->0;
        WorldModel {
            balls: m.balls.update(
                i,
                BallRecord { alive: false, ..m.balls[i] },
            ).update(j, BallRecord { alive: false, ..m.balls[j] }).push(merged_ball(m.balls, i, j)),
            score: award_spec(m.score, merge_award_spec(v) as u32),
            danger: m.danger,
            mode: if successor == BallVariant::Win && m.mode == GameState::Playing {
                GameState::Win
            } else {
                m.mode
            },
        }
    } else {
        m
    }
}

/// A whole physics step's contact pairs resolved in order, each pair
/// greedily and independently of the rest.
pub open spec fn resolve_pairs_spec(m: WorldModel, pairs: Seq<(usize, usize)>) -> WorldModel
    decreases pairs.len(),
{
    if pairs.len() == 0 {
        m
    } else {
        resolve_pairs_spec(
            step_pair_spec(m, pairs[0].0 as int, pairs[0].1 as int),
            pairs.drop_first(),
        )
    }
}

/// Whether any living ball occupies the danger zone.
pub open spec fn balls_in_danger_spec(balls: Seq<BallRecord>) -> bool {
    exists|k: int|
        0 <= k < balls.len() && (#[trigger] balls[k]).alive && balls[k].y > DANGER_HEIGHT_MILLI
}

/// The session mode after the settings toggle: it flips between play and the
/// settings screen and does nothing once the run has ended.
pub open spec fn toggle_settings_spec(mode: GameState) -> GameState {
    match mode {
        GameState::Playing => GameState::Settings,
        GameState::Settings => GameState::Playing,
        _ => mode,
    }
}

/// One frame of the fixed schedule, and whether the grace period ran out
/// during it: contact pairs are resolved first, then the danger zone
/// advances. Gameplay is paused while the settings screen is open, and the
/// danger zone runs only during play.
pub open spec fn frame_spec(m: WorldModel, pairs: Seq<(usize, usize)>, delta_ms: u32) -> (
    WorldModel,
    bool,
) {
    let m1 = if m.mode != GameState::Settings {
        resolve_pairs_spec(m, pairs)
    } else {
        m
    };
    if m1.mode == GameState::Playing {
        let (d2, fired) = danger_tick_spec(m1.danger, balls_in_danger_spec(m1.balls), delta_ms);
        (
            WorldModel {
                balls: m1.balls,
                score: m1.score,
                danger: d2,
                mode: if fired {
                    GameState::GameOver
                } else {
                    m1.mode
                },
            },
            fired,
        )
    } else {
        (m1, false)
    }
}

/// Resolving contact pairs never touches the danger zone.
pub proof fn lemma_resolution_preserves_danger(m: WorldModel, pairs: Seq<(usize, usize)>)
    ensures
        resolve_pairs_spec(m, pairs).danger == m.danger,
    decreases pairs.len(),
{
    if pairs.len() > 0 {
        lemma_resolution_preserves_danger(
            step_pair_spec(m, pairs[0].0 as int, pairs[0].1 as int),
            pairs.drop_first(),
        );
    }
}

/// The x coordinate a dropped ball of the given size is actually placed at:
/// the requested coordinate, held far enough from either wall that the ball
/// cannot intersect it.
pub open spec fn clamp_spawn_x_spec(x: u32, size_milli: u32) -> u32 {
    let margin = size_milli / 2 + SPAWN_CLEARANCE_MILLI;
    let lo = WALL_MILLI + margin;
    let hi = (WELL_WIDTH_MILLI - WALL_MILLI - margin) as u32;
    if x < lo {
        lo as u32
    } else if x > hi {
        hi
    } else {
        x
    }
}

impl GameWorld {
    /// The world's danger-zone timers sit within their periods.
    pub open spec fn wf(self) -> bool {
        self.danger.wf()
    }

    /// A fresh session: no balls, nothing scored, the danger zone quiet, play
    /// under way.
    pub fn new() -> (w: GameWorld)
        ensures
            w@.balls.len() == 0,
            w@.score == (Score { current: 0, high_score: 0 }),
            w@.danger == DangerZone::initial_spec(),
            w@.mode == GameState::Playing,
            w.wf(),
    {
        GameWorld {
            balls: Vec::new(),
            score: Score::new(),
            danger: DangerZone::initial(),
            mode: GameState::Playing,
        }
    }

    /// Add a ball of the given variant with its centre at `(x, y)`.
    pub fn spawn_ball_at(&mut self, variant: BallVariant, x: u32, y: u32)
        ensures
            final(self)@.balls == old(self)@.balls.push(
                BallRecord { variant, x, y, alive: true },
            ),
            final(self).score == old(self).score,
            final(self).danger == old(self).danger,
            final(self).mode == old(self).mode,
    {
        self.balls.push(BallRecord { variant, x, y, alive: true });
    }

    /// Drop a ball of the given variant from the top of the well at the
    /// requested x coordinate, held clear of the walls.
    pub fn drop_ball(&mut self, variant: BallVariant, x: u32)
        ensures
            final(self)@.balls == old(self)@.balls.push(
                BallRecord {
                    variant,
                    x: clamp_spawn_x_spec(x, variant.size_milli_spec() as u32),
                    y: SPAWN_Y_MILLI,
                    alive: true,
                },
            ),
            final(self).score == old(self).score,
            final(self).danger == old(self).danger,
            final(self).mode == old(self).mode,
    {
        let size = variant.size_milli();
        let margin = size / 2 + SPAWN_CLEARANCE_MILLI;
        let lo = WALL_MILLI + margin;
        let hi = WELL_WIDTH_MILLI - WALL_MILLI - margin;
        let clamped = if x < lo {
            lo
        } else if x > hi {
            hi
        } else {
            x
        };
        self.spawn_ball_at(variant, clamped, SPAWN_Y_MILLI);
    }

    /// Resolve one physics step's contact pairs, in the order the physics
    /// engine reported them: every pair of same-variant living balls merges
    /// into its successor at their midpoint and scores, and a merge that
    /// produces the terminal variant wins the run.
    pub fn handle_collisions(&mut self, pairs: &Vec<(usize, usize)>)
        ensures
            final(self)@ == resolve_pairs_spec(old(self)@, pairs@),
    {
        let ghost m0: WorldModel = self@;
        let n = pairs.len();
        let mut k: usize = 0;
        proof {
            assert(pairs@.skip(0) =~= pairs@);
        }
        while k < n
            invariant
                k <= n,
                n == pairs@.len(),
                resolve_pairs_spec(m0, pairs@) == resolve_pairs_spec(self@, pairs@.skip(k as int)),
            decreases n - k,
        {
            let ghost pre: WorldModel = self@;
            let ghost rest: Seq<(usize, usize)> = pairs@.skip(k as int);
            let (i, j) = pairs[k];

            if i < self.balls.len() && j < self.balls.len() && i != j {
                let bi = self.balls[i];
                let bj = self.balls[j];
                if bi.alive && bj.alive && bi.variant == bj.variant {
                    match bi.variant.next_variant() {
                        Some(successor) => {
                            let mut dead_i = bi;
                            dead_i.alive = false;
                            let mut dead_j = bj;
                            dead_j.alive = false;
                            self.balls[i] = dead_i;
                            self.balls[j] = dead_j;
                            self.balls.push(
                                BallRecord {
                                    variant: successor,
                                    x: midpoint(bi.x, bj.x),
                                    y: midpoint(bi.y, bj.y),
                                    alive: true,
                                },
                            );
                            let points = merge_award(&bi.variant);
                            self.score.award(points);
                            if successor == BallVariant::Win && self.mode == GameState::Playing {
                                self.mode = GameState::Win;
                            }
                        },
                        None => {},
                    }
                }
            }
            proof {
                assert(self@.balls =~= step_pair_spec(pre, i as int, j as int).balls);
                assert(self@ == step_pair_spec(pre, i as int, j as int));
                assert(rest.drop_first() =~= pairs@.skip(k + 1));
                assert(rest[0] == pairs@[k as int]);
            }
            k = k + 1;
        }
        proof {
            assert(pairs@.skip(n as int) =~= Seq::<(usize, usize)>::empty());
        }
    }

    /// Advance the danger zone by one frame of `delta_ms` milliseconds: the
    /// grace timer runs while any living ball sits above the threshold and
    /// resets the moment none does; when the grace period runs out during
    /// play, the run is over.
    pub fn tick_danger(&mut self, delta_ms: u32) -> (game_over: bool)
        requires
            old(self).wf(),
        ensures
            final(self).wf(),
            (final(self).danger, game_over) == danger_tick_spec(
                old(self).danger,
                balls_in_danger_spec(old(self)@.balls),
                delta_ms,
            ),
            final(self).mode == if game_over && old(self).mode == GameState::Playing {
                GameState::GameOver
            } else {
                old(self).mode
            },
            final(self)@.balls == old(self)@.balls,
            final(self).score == old(self).score,
    {
        let n = self.balls.len();
        let mut any_above = false;
        let mut k: usize = 0;
        while k < n
            invariant
                k <= n,
                n == self.balls@.len(),
                any_above <==> exists|t: int|
                    0 <= t < k && (#[trigger] self.balls@[t]).alive && self.balls@[t].y
                        > DANGER_HEIGHT_MILLI,
            decreases n - k,
        {
            let b = self.balls[k];
            if b.alive && b.y > DANGER_HEIGHT_MILLI {
                any_above = true;
            }
            k = k + 1;
        }
        let fired = self.danger.tick(any_above, delta_ms);
        if fired && self.mode == GameState::Playing {
            self.mode = GameState::GameOver;
        }
        fired
    }

    /// One frame of the fixed schedule: the physics step's contact pairs are
    /// resolved first, then the danger zone advances — but gameplay is
    /// paused while the settings screen is open, and the danger zone runs
    /// only during play. Returns whether the grace period ran out this
    /// frame.
    pub fn step_frame(&mut self, pairs: &Vec<(usize, usize)>, delta_ms: u32) -> (game_over: bool)
        requires
            old(self).wf(),
        ensures
            final(self).wf(),
            (final(self)@, game_over) == frame_spec(old(self)@, pairs@, delta_ms),
    {
        if !(self.mode == GameState::Settings) {
            self.handle_collisions(pairs);
            proof {
                lemma_resolution_preserves_danger(old(self)@, pairs@);
            }
        }
        if self.mode == GameState::Playing {
            self.tick_danger(delta_ms)
        } else {
            false
        }
    }

    /// Begin a new run: every ball is cleared, the current score returns to
    /// zero, the high score persists, the danger zone starts fresh, and play
    /// resumes.
    pub fn restart(&mut self)
        ensures
            final(self)@.balls.len() == 0,
            final(self).score.current == 0,
            final(self).score.high_score == old(self).score.high_score,
            final(self).danger == DangerZone::initial_spec(),
            final(self).mode == GameState::Playing,
            final(self).wf(),
    {
        self.balls.clear();
        self.score.reset_current();
        self.danger = DangerZone::initial();
        self.mode = GameState::Playing;
    }

    /// Flip between play and the settings screen; outside those two modes
    /// the toggle does nothing. Everything else stays as it was.
    pub fn toggle_settings(&mut self)
        ensures
            final(self).mode == toggle_settings_spec(old(self).mode),
            final(self)@.balls == old(self)@.balls,
            final(self).score == old(self).score,
            final(self).danger == old(self).danger,
    {
        match self.mode {
            GameState::Playing => {
                self.mode = GameState::Settings;
            },
            GameState::Settings => {
                self.mode = GameState::Playing;
            },
            _ => {},
        }
    }
}

/// How many balls of the table still exist.
pub open spec fn alive_count(balls: Seq<BallRecord>) -> int
    decreases balls.len(),
{
    if balls.len() == 0 {
        0
    } else {
        alive_count(balls.drop_last()) + (if balls.last().alive {
            1int
        } else {
            0int
        })
    }
}

/// How many living balls of the table carry the given variant.
pub open spec fn alive_count_of(balls: Seq<BallRecord>, v: BallVariant) -> int
    decreases balls.len(),
{
    if balls.len() == 0 {
        0
    } else {
        alive_count_of(balls.drop_last(), v) + (if balls.last().alive && balls.last().variant == v {
            1int
        } else {
            0int
        })
    }
}

/// Appending a record raises the counts by exactly its own contribution.
proof fn lemma_counts_push(balls: Seq<BallRecord>, b: BallRecord, v: BallVariant)
    ensures
        alive_count(balls.push(b)) == alive_count(balls) + (if b.alive {
            1int
        } else {
            0int
        }),
        alive_count_of(balls.push(b), v) == alive_count_of(balls, v) + (if b.alive && b.variant
            == v {
            1int
        } else {
            0int
        }),
{
    assert(balls.push(b).drop_last() =~= balls);
}

/// Replacing a record moves the counts by the difference of the two records'
/// contributions.
proof fn lemma_counts_update(balls: Seq<BallRecord>, k: int, b: BallRecord, v: BallVariant)
    requires
        0 <= k < balls.len(),
    ensures
        alive_count(balls.update(k, b)) == alive_count(balls) - (if balls[k].alive {
            1int
        } else {
            0int
        }) + (if b.alive {
            1int
        } else {
            0int
        }),
        alive_count_of(balls.update(k, b), v) == alive_count_of(balls, v) - (if balls[k].alive
            && balls[k].variant == v {
            1int
        } else {
            0int
        }) + (if b.alive && b.variant == v {
            1int
        } else {
            0int
        }),
    decreases balls.len(),
{
    let u = balls.update(k, b);
    if k == balls.len() - 1 {
        assert(u.drop_last() =~= balls.drop_last());
    } else {
        assert(u.drop_last() =~= balls.drop_last().update(k, b));
        lemma_counts_update(balls.drop_last(), k, b, v);
    }
}

/// Merging two balls of a variant with a successor yields exactly one new
/// ball of the successor variant, placed at the midpoint of the pair, and
/// the two consumed balls no longer exist: the table holds one living ball
/// fewer, two fewer of the merged variant, and one more of its successor.
pub proof fn lemma_merge_yields_one_successor(m: WorldModel, i: int, j: int)
    requires
        pair_merges(m.balls, i, j),
    ensures
        ({
            let v = m.balls[i].variant;
            let s = v.next_variant_spec()->0;
            let m2 = step_pair_spec(m, i, j);
            &&& m2.balls.len() == m.balls.len() + 1
            &&& !m2.balls[i].alive
            &&& !m2.balls[j].alive
            &&& m2.balls.last() == merged_ball(m.balls, i, j)
            &&& m2.balls.last().variant == s
            &&& m2.balls.last().alive
            &&& alive_count_of(m2.balls, s) == alive_count_of(m.balls, s) + 1
            &&& alive_count_of(m2.balls, v) == alive_count_of(m.balls, v) - 2
            &&& alive_count(m2.balls) == alive_count(m.balls) - 1
        }),
{
    let v = m.balls[i].variant;
    let s = v.next_variant_spec()->0;
    crate::variant::lemma_successor_order(v);
    assert(s != v);
    let dead_i = BallRecord { alive: false, ..m.balls[i] };
    let dead_j = BallRecord { alive: false, ..m.balls[j] };
    let b1 = m.balls.update(i, dead_i);
    let b2 = b1.update(j, dead_j);
    lemma_counts_update(m.balls, i, dead_i, v);
    lemma_counts_update(b1, j, dead_j, v);
    lemma_counts_push(b2, merged_ball(m.balls, i, j), v);
    lemma_counts_update(m.balls, i, dead_i, s);
    lemma_counts_update(b1, j, dead_j, s);
    lemma_counts_push(b2, merged_ball(m.balls, i, j), s);
}

/// A contact between two terminal balls fires no merge: the world is a fixed
/// point of the rule, however often such a pair is reported.
pub proof fn lemma_terminal_pair_is_noop(m: WorldModel, i: int, j: int)
    requires
        0 <= i < m.balls.len(),
        0 <= j < m.balls.len(),
        m.balls[i].variant == BallVariant::Win || m.balls[j].variant == BallVariant::Win,
    ensures
        step_pair_spec(m, i, j) == m,
{
}

/// A pair that names a ball already consumed earlier in the same step fires
/// nothing: the despawn guard makes each merge consume its balls only once.
pub proof fn lemma_consumed_pair_is_noop(m: WorldModel, i: int, j: int)
    requires
        !(0 <= i < m.balls.len() && 0 <= j < m.balls.len()) || !m.balls[i].alive
            || !m.balls[j].alive,
    ensures
        step_pair_spec(m, i, j) == m,
{
}

/// The variants merged while a step's contact pairs are resolved, in order:
/// one entry for each pair that fires.
pub open spec fn fired_variants(m: WorldModel, pairs: Seq<(usize, usize)>) -> Seq<BallVariant>
    decreases pairs.len(),
{
    if pairs.len() == 0 {
        Seq::empty()
    } else {
        let i = pairs[0].0 as int;
        let j = pairs[0].1 as int;
        let head: Seq<BallVariant> = if pair_merges(m.balls, i, j) {
            seq![m.balls[i].variant]
        } else {
            Seq::empty()
        };
        head + fired_variants(step_pair_spec(m, i, j), pairs.drop_first())
    }
}

/// Every merged variant has a successor: only a mergeable pair fires.
pub proof fn lemma_fired_variants_mergeable(m: WorldModel, pairs: Seq<(usize, usize)>)
    ensures
        forall|k: int|
            0 <= k < fired_variants(m, pairs).len() ==> (#[trigger] fired_variants(m, pairs)[k])
                .next_variant_spec() is Some,
    decreases pairs.len(),
{
    if pairs.len() > 0 {
        let i = pairs[0].0 as int;
        let j = pairs[0].1 as int;
        lemma_fired_variants_mergeable(step_pair_spec(m, i, j), pairs.drop_first());
    }
}

/// Resolving a step's contact pairs awards exactly the merges that fired, in
/// order: the score afterwards is the score of running those awards. With
/// the score law this pins the total down: as long as it stays representable,
/// the current score grows by the sum of each fired merge's contribution.
pub proof fn lemma_resolution_scores_fired_merges(m: WorldModel, pairs: Seq<(usize, usize)>)
    ensures
        resolve_pairs_spec(m, pairs).score == crate::score::run_awards(
            m.score,
            fired_variants(m, pairs),
        ),
    decreases pairs.len(),
{
    if pairs.len() > 0 {
        let i = pairs[0].0 as int;
        let j = pairs[0].1 as int;
        let m1 = step_pair_spec(m, i, j);
        lemma_resolution_scores_fired_merges(m1, pairs.drop_first());
        let fv = fired_variants(m, pairs);
        let tail = fired_variants(m1, pairs.drop_first());
        if pair_merges(m.balls, i, j) {
            assert(fv[0] == m.balls[i].variant);
            assert(fv.drop_first() =~= tail);
        } else {
            assert(fv =~= tail);
        }
    }
}

/// Resolving a step's contact pairs never lowers the high score.
pub proof fn lemma_high_score_never_decreases(m: WorldModel, pairs: Seq<(usize, usize)>)
    ensures
        resolve_pairs_spec(m, pairs).score.high_score >= m.score.high_score,
    decreases pairs.len(),
{
    if pairs.len() > 0 {
        lemma_high_score_never_decreases(
            step_pair_spec(m, pairs[0].0 as int, pairs[0].1 as int),
            pairs.drop_first(),
        );
    }
}

} // verus!
