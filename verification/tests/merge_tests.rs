use ball_drop::score::{Score, WIN_BONUS};
use ball_drop::variant::BallVariant;
use ball_drop::world::{BallRecord, GameState, GameWorld, SPAWN_Y_MILLI};

fn world_with(balls: &[(BallVariant, u32, u32)]) -> GameWorld {
    let mut w = GameWorld::new();
    for (v, x, y) in balls {
        w.spawn_ball_at(*v, *x, *y);
    }
    w
}

#[test]
fn two_sad_balls_merge_into_one_angry_at_midpoint() {
    let mut w = world_with(&[(BallVariant::Sad, 100000, 50000), (BallVariant::Sad, 200000, 70000)]);
    w.handle_collisions(&vec![(0, 1)]);

    assert_eq!(w.balls.len(), 3);
    assert!(!w.balls[0].alive);
    assert!(!w.balls[1].alive);
    let merged = w.balls[2];
    assert!(merged.alive);
    assert_eq!(merged.variant, BallVariant::Angry);
    assert_eq!(merged.x, 150000);
    assert_eq!(merged.y, 60000);
    assert_eq!(w.score.current, 10);
    assert_eq!(w.score.high_score, 10);
    assert_eq!(w.mode, GameState::Playing);
}

#[test]
fn terminal_balls_do_not_merge() {
    let mut w = world_with(&[(BallVariant::Win, 100000, 50000), (BallVariant::Win, 200000, 70000)]);
    w.handle_collisions(&vec![(0, 1)]);

    assert_eq!(w.balls.len(), 2);
    assert!(w.balls[0].alive);
    assert!(w.balls[1].alive);
    assert_eq!(w.score.current, 0);
    assert_eq!(w.mode, GameState::Playing);
}

#[test]
fn consumed_ball_is_not_reprocessed_within_a_step() {
    let mut w = world_with(&[
        (BallVariant::Sad, 100000, 50000),
        (BallVariant::Sad, 120000, 50000),
        (BallVariant::Sad, 140000, 50000),
    ]);
    // The second pair names ball 1, already consumed by the first pair.
    w.handle_collisions(&vec![(0, 1), (1, 2)]);

    assert_eq!(w.balls.len(), 4);
    assert!(!w.balls[0].alive);
    assert!(!w.balls[1].alive);
    assert!(w.balls[2].alive);
    assert_eq!(w.balls[2].variant, BallVariant::Sad);
    assert!(w.balls[3].alive);
    assert_eq!(w.balls[3].variant, BallVariant::Angry);
    assert_eq!(w.score.current, 10);
}

#[test]
fn duplicate_pair_merges_once() {
    let mut w = world_with(&[(BallVariant::Sad, 100000, 50000), (BallVariant::Sad, 200000, 70000)]);
    w.handle_collisions(&vec![(0, 1), (0, 1), (1, 0)]);

    assert_eq!(w.balls.len(), 3);
    assert_eq!(w.score.current, 10);
}

#[test]
fn mismatched_variants_do_not_merge() {
    let mut w = world_with(&[(BallVariant::Sad, 100000, 50000), (BallVariant::Angry, 200000, 70000)]);
    w.handle_collisions(&vec![(0, 1)]);

    assert_eq!(w.balls.len(), 2);
    assert!(w.balls[0].alive);
    assert!(w.balls[1].alive);
    assert_eq!(w.score.current, 0);
}

#[test]
fn out_of_range_and_self_pairs_are_ignored() {
    let mut w = world_with(&[(BallVariant::Sad, 100000, 50000), (BallVariant::Sad, 200000, 70000)]);
    w.handle_collisions(&vec![(0, 0), (0, 5), (7, 1), (9, 9)]);

    assert_eq!(w.balls.len(), 2);
    assert!(w.balls[0].alive);
    assert!(w.balls[1].alive);
    assert_eq!(w.score.current, 0);
}

#[test]
fn chained_merges_score_the_sum_of_contributions() {
    let mut w = world_with(&[
        (BallVariant::Sad, 100000, 50000),
        (BallVariant::Sad, 120000, 50000),
        (BallVariant::Sad, 200000, 50000),
        (BallVariant::Sad, 220000, 50000),
    ]);
    w.handle_collisions(&vec![(0, 1), (2, 3)]);
    assert_eq!(w.score.current, 20);
    assert_eq!(w.balls.len(), 6);
    assert_eq!(w.balls[4].variant, BallVariant::Angry);
    assert_eq!(w.balls[5].variant, BallVariant::Angry);

    // The two Angry balls, of order 2, merge for 10 * 2^1 = 20 points.
    w.handle_collisions(&vec![(4, 5)]);
    assert_eq!(w.score.current, 40);
    assert_eq!(w.score.high_score, 40);
    assert_eq!(w.balls[6].variant, BallVariant::Surprised);
}

#[test]
fn rage_merge_awards_win_bonus_and_wins_the_run() {
    let mut w = world_with(&[(BallVariant::Rage, 100000, 50000), (BallVariant::Rage, 200000, 50000)]);
    w.handle_collisions(&vec![(0, 1)]);

    assert_eq!(w.mode, GameState::Win);
    assert_eq!(w.score.current, WIN_BONUS);
    assert_eq!(w.balls[2].variant, BallVariant::Win);
}

#[test]
fn restart_clears_balls_resets_score_keeps_high_score() {
    let mut w = world_with(&[(BallVariant::Rage, 100000, 50000), (BallVariant::Rage, 200000, 50000)]);
    w.handle_collisions(&vec![(0, 1)]);
    assert_eq!(w.mode, GameState::Win);

    w.restart();
    assert_eq!(w.balls.len(), 0);
    assert_eq!(w.score.current, 0);
    assert_eq!(w.score.high_score, WIN_BONUS);
    assert_eq!(w.mode, GameState::Playing);
    assert!(!w.danger.is_warning);
    assert_eq!(w.danger.warning_elapsed_ms, 0);
}

#[test]
fn high_score_never_decreases_across_runs() {
    let mut w = world_with(&[(BallVariant::Sad, 100000, 50000), (BallVariant::Sad, 200000, 50000)]);
    w.handle_collisions(&vec![(0, 1)]);
    assert_eq!(w.score.high_score, 10);

    w.restart();
    assert_eq!(w.score.high_score, 10);

    w.spawn_ball_at(BallVariant::Sad, 100000, 50000);
    w.spawn_ball_at(BallVariant::Sad, 200000, 50000);
    w.handle_collisions(&vec![(0, 1)]);
    assert_eq!(w.score.current, 10);
    assert_eq!(w.score.high_score, 10);
}

#[test]
fn award_saturates_instead_of_wrapping() {
    let mut s = Score { current: u32::MAX - 5, high_score: u32::MAX - 5 };
    s.award(10);
    assert_eq!(s.current, u32::MAX);
    assert_eq!(s.high_score, u32::MAX);
}

#[test]
fn drop_ball_enters_at_the_top_and_clears_the_walls() {
    let mut w = GameWorld::new();
    // A Sad ball is 27000 milli-pixels wide: its margin from a wall is
    // 13500 + 5000, so its centre is held within [28500, 471500].
    w.drop_ball(BallVariant::Sad, 0);
    w.drop_ball(BallVariant::Sad, 500000);
    w.drop_ball(BallVariant::Sad, 250000);

    assert_eq!(w.balls[0].x, 28500);
    assert_eq!(w.balls[1].x, 471500);
    assert_eq!(w.balls[2].x, 250000);
    for b in &w.balls {
        assert_eq!(b.y, SPAWN_Y_MILLI);
        assert_eq!(b.variant, BallVariant::Sad);
        assert!(b.alive);
    }
}

#[test]
fn settings_screen_pauses_gameplay() {
    let mut w = world_with(&[(BallVariant::Sad, 100000, 550000), (BallVariant::Sad, 120000, 550000)]);
    w.toggle_settings();
    assert_eq!(w.mode, GameState::Settings);

    // With the settings screen open, neither the merge rule nor the danger
    // zone advances, however long the frame.
    let over = w.step_frame(&vec![(0, 1)], 60000);
    assert!(!over);
    assert_eq!(w.balls.len(), 2);
    assert!(w.balls[0].alive);
    assert_eq!(w.score.current, 0);
    assert!(!w.danger.is_warning);

    w.toggle_settings();
    let over = w.step_frame(&vec![(0, 1)], 16);
    assert!(!over);
    assert_eq!(w.balls.len(), 3);
    assert_eq!(w.balls[2].variant, BallVariant::Angry);
    assert_eq!(w.score.current, 10);
}

#[test]
fn frames_run_collisions_before_the_danger_zone() {
    // The only breaching ball is consumed by a merge this frame, so the
    // danger zone sees the table after resolution and stays quiet.
    let mut w = world_with(&[(BallVariant::Sad, 100000, 550000), (BallVariant::Sad, 120000, 550000)]);
    let over = w.step_frame(&vec![(0, 1)], 16);
    assert!(!over);
    // The merged ball sits at the midpoint, still above the line: only the
    // fresh breach counts from this frame on.
    assert!(w.danger.is_warning);
    assert_eq!(w.danger.warning_elapsed_ms, 16);
    assert_eq!(w.mode, GameState::Playing);
}

#[test]
fn a_won_run_ticks_no_danger() {
    let mut w = world_with(&[(BallVariant::Rage, 100000, 550000), (BallVariant::Rage, 120000, 550000)]);
    let over = w.step_frame(&vec![(0, 1)], 16);
    assert!(!over);
    assert_eq!(w.mode, GameState::Win);
    // The winning merge left a terminal ball above the line, but the danger
    // zone runs only during play.
    assert!(!w.danger.is_warning);
}

#[test]
fn toggle_settings_flips_between_play_and_settings_only() {
    let mut w = GameWorld::new();
    assert_eq!(w.mode, GameState::Playing);
    w.toggle_settings();
    assert_eq!(w.mode, GameState::Settings);
    w.toggle_settings();
    assert_eq!(w.mode, GameState::Playing);

    let mut lost = world_with(&[(BallVariant::Win, 0, 0), (BallVariant::Win, 0, 0)]);
    lost.mode = GameState::GameOver;
    lost.toggle_settings();
    assert_eq!(lost.mode, GameState::GameOver);
}
