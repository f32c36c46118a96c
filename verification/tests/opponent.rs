use pong_sim::ai::{
    computer_movement, pursue_target, read_with_error, seek_target, update_computer_targets,
    ComputerState, Difficulty,
};
use pong_sim::math::Vec2;
use pong_sim::physics::{Paddle, Role, Transform};
use pong_sim::timer::Timer;
use rand::rngs::StdRng;
use rand::SeedableRng;

const TICK: u64 = 15_625;

fn paddle_at(y: i64) -> Transform {
    Transform { translation: Vec2::new(560_000_000, y), scale: Vec2::new(20_000_000, 120_000_000) }
}

#[test]
fn difficulty_table_is_complete() {
    let levels = [Difficulty::Easy, Difficulty::Medium, Difficulty::Hard, Difficulty::Impossible];
    let accuracy: Vec<u64> = levels.iter().map(|d| d.accuracy_factor()).collect();
    let reaction: Vec<u64> = levels.iter().map(|d| d.reaction_time()).collect();
    let margin: Vec<i64> = levels.iter().map(|d| d.error_margin()).collect();
    let horizon: Vec<u64> = levels.iter().map(|d| d.prediction_horizon()).collect();
    assert_eq!(accuracy, vec![60, 75, 80, 95]);
    assert_eq!(reaction, vec![1_000_000, 400_000, 200_000, 0]);
    assert_eq!(margin, vec![400_000, 250_000, 100_000, 0]);
    assert_eq!(horizon, vec![200_000, 500_000, 1_000_000, 1_500_000]);
}

#[test]
fn timer_completes_when_a_period_has_passed() {
    let mut timer = Timer::new(400_000);
    assert!(!timer.finished());
    timer.tick(399_999);
    assert!(!timer.finished());
    assert_eq!(timer.elapsed, 399_999);
    assert_eq!(timer.times_finished_this_tick, 0);
    timer.tick(1);
    assert!(timer.finished());
    assert_eq!(timer.elapsed, 0);
    assert_eq!(timer.times_finished_this_tick, 1);
    timer.tick(0);
    assert!(!timer.finished());
    assert_eq!(timer.times_finished_this_tick, 0);
}

#[test]
fn timer_keeps_the_remainder_and_counts_every_period() {
    let mut timer = Timer::new(400_000);
    timer.tick(500_000);
    assert!(timer.finished());
    assert_eq!(timer.elapsed, 100_000);
    assert_eq!(timer.times_finished_this_tick, 1);
    timer.tick(1_000_000);
    assert!(timer.finished());
    assert_eq!(timer.elapsed, 300_000);
    assert_eq!(timer.times_finished_this_tick, 2);
    timer.tick(50_000);
    assert!(!timer.finished());
    assert_eq!(timer.elapsed, 350_000);
    let mut fast = Timer::new(1);
    fast.tick(u64::MAX);
    assert_eq!(fast.times_finished_this_tick, u64::MAX);
    assert_eq!(fast.elapsed, 0);
    let mut slow = Timer::new(u64::MAX);
    slow.tick(u64::MAX - 1);
    assert!(!slow.finished());
    slow.tick(u64::MAX);
    assert!(slow.finished());
    assert_eq!(slow.elapsed, u64::MAX - 1);
    assert_eq!(slow.times_finished_this_tick, 1);
}

#[test]
fn timer_with_zero_period_completes_on_every_tick() {
    let mut timer = Timer::new(0);
    for delta in [0, 1, TICK, u64::MAX] {
        timer.tick(delta);
        assert!(timer.finished());
        assert_eq!(timer.elapsed, 0);
        assert_eq!(timer.times_finished_this_tick, 1);
    }
}

#[test]
fn new_state_aims_at_the_middle() {
    let state = ComputerState::new(Difficulty::Medium);
    assert_eq!(
        state,
        ComputerState {
            target_y: 0,
            perceived_ball_y: 0,
            last_update_time: 0,
            last_reaction_time: 0,
            difficulty: Difficulty::Medium,
            reaction_timer: Timer {
                period: 400_000,
                elapsed: 0,
                finished: false,
                times_finished_this_tick: 0,
            },
        }
    );
    assert_eq!(ComputerState::new(Difficulty::Impossible).reaction_timer.period, 0);
}

#[test]
fn resample_writes_target_reading_and_time() {
    let mut state = ComputerState::new(Difficulty::Easy);
    state.resample(-7_000, 99);
    assert_eq!(state.target_y, -7_000);
    assert_eq!(state.perceived_ball_y, -7_000);
    assert_eq!(state.last_reaction_time, 99);
    assert_eq!(state.last_update_time, 0);
    assert_eq!(state.difficulty, Difficulty::Easy);
    assert_eq!(state.reaction_timer, Timer::new(1_000_000));
}

#[test]
fn impossible_opponent_reads_the_ball_exactly_on_every_tick() {
    let mut rng = StdRng::seed_from_u64(7);
    let mut state = ComputerState::new(Difficulty::Impossible);
    let mut elapsed: u64 = 0;
    for step in 0..200i64 {
        let ball_y = 150_000_000 - step * 2_765_625;
        elapsed += TICK;
        state.update_perception(ball_y, elapsed, TICK, &mut rng);
        assert!(state.reaction_timer.finished());
        assert_eq!(state.target_y, ball_y);
        assert_eq!(state.perceived_ball_y, ball_y);
        assert_eq!(state.last_reaction_time, elapsed);
    }
}

#[test]
fn impossible_opponent_holds_a_resting_ball_without_error() {
    let mut rng = StdRng::seed_from_u64(11);
    let mut state = ComputerState::new(Difficulty::Impossible);
    let mut transform = paddle_at(0);
    let ball_y = 40_000_000;
    state.update_perception(ball_y, TICK, TICK, &mut rng);
    assert_eq!(state.target_y, ball_y);
    for _ in 0..13 {
        pursue_target(&mut transform, &state, TICK);
    }
    assert_eq!(transform.translation.y, ball_y);
    for tick in 0..50u64 {
        state.update_perception(ball_y, (tick + 2) * TICK, TICK, &mut rng);
        pursue_target(&mut transform, &state, TICK);
        assert_eq!(transform.translation.y, ball_y);
    }
}

#[test]
fn opponent_keeps_a_stale_target_between_readings() {
    let mut rng = StdRng::seed_from_u64(3);
    let mut state = ComputerState::new(Difficulty::Hard);
    let mut elapsed: u64 = 0;
    // 200 ms at 15.625 ms a tick: the thirteenth tick completes the period.
    for _ in 0..12 {
        elapsed += TICK;
        state.update_perception(50_000_000, elapsed, TICK, &mut rng);
        assert!(!state.reaction_timer.finished());
        assert_eq!(state.target_y, 0);
        assert_eq!(state.perceived_ball_y, 0);
        assert_eq!(state.last_reaction_time, 0);
    }
    elapsed += TICK;
    state.update_perception(50_000_000, elapsed, TICK, &mut rng);
    assert!(state.reaction_timer.finished());
    assert!((state.target_y - 50_000_000).abs() <= 100_000);
    assert_eq!(state.target_y, state.perceived_ball_y);
    assert_eq!(state.last_reaction_time, 13 * TICK);
    assert_eq!(state.reaction_timer.elapsed, 13 * TICK - 200_000);
    let stale = state.target_y;
    elapsed += TICK;
    state.update_perception(-80_000_000, elapsed, TICK, &mut rng);
    assert_eq!(state.target_y, stale);
    assert_eq!(state.last_reaction_time, 13 * TICK);
}

#[test]
fn readings_are_noisy_but_within_the_margin() {
    let mut rng = StdRng::seed_from_u64(2024);
    let state = ComputerState::new(Difficulty::Easy);
    let ball_y = 123_456_789;
    let mut lowest = i64::MAX;
    let mut highest = i64::MIN;
    for _ in 0..200 {
        let reading = state.calculate_target(ball_y, &mut rng);
        assert!(ball_y - 400_000 <= reading && reading <= ball_y + 400_000);
        lowest = lowest.min(reading);
        highest = highest.max(reading);
    }
    // The readings spread over the margin on both sides of the ball.
    assert!(lowest < ball_y && ball_y < highest);
    assert!(highest - lowest > 400_000);
}

#[test]
fn readings_repeat_under_the_same_seed() {
    let state = ComputerState::new(Difficulty::Medium);
    let mut first = StdRng::seed_from_u64(5);
    let mut second = StdRng::seed_from_u64(5);
    for _ in 0..20 {
        assert_eq!(
            state.calculate_target(1_000, &mut first),
            state.calculate_target(1_000, &mut second)
        );
    }
}

#[test]
fn seek_target_never_overshoots() {
    assert_eq!(seek_target(0, 10_000_000, 200, TICK), 3_125_000);
    assert_eq!(seek_target(0, -10_000_000, 200, TICK), -3_125_000);
    assert_eq!(seek_target(0, 3_125_000, 200, TICK), 3_125_000);
    assert_eq!(seek_target(0, 3_124_999, 200, TICK), 3_124_999);
    assert_eq!(seek_target(0, -1, 200, TICK), -1);
    assert_eq!(seek_target(42, 42, 200, TICK), 42);
    assert_eq!(seek_target(42, 1_000, 0, TICK), 42);
    assert_eq!(seek_target(42, 1_000, 200, 0), 42);
}

#[test]
fn seek_target_handles_the_largest_values() {
    assert_eq!(seek_target(i64::MIN, i64::MAX, u64::MAX, u64::MAX), i64::MAX);
    assert_eq!(seek_target(i64::MAX, i64::MIN, u64::MAX, u64::MAX), i64::MIN);
    assert_eq!(seek_target(i64::MIN, i64::MAX, 1, 10), i64::MIN + 10);
    assert_eq!(seek_target(i64::MAX, i64::MIN, 2, 10), i64::MAX - 20);
    assert_eq!(seek_target(i64::MIN, i64::MAX, 1, u64::MAX), i64::MAX);
}

#[test]
fn pursue_target_is_held_within_the_arena() {
    let mut state = ComputerState::new(Difficulty::Easy);
    state.resample(290_000_000, 0);
    let mut transform = paddle_at(203_000_000);
    pursue_target(&mut transform, &state, TICK);
    assert_eq!(transform.translation.y, 205_000_000);
    assert_eq!(transform.translation.x, 560_000_000);
    state.resample(-290_000_000, 0);
    let mut transform = paddle_at(-100_000_000);
    pursue_target(&mut transform, &state, TICK);
    assert_eq!(transform.translation.y, -103_125_000);
    assert_eq!(state.target_y, -290_000_000);
}

#[test]
fn stages_leave_the_players_paddle_alone() {
    let mut rng = StdRng::seed_from_u64(1);
    let mut moving = ComputerState::new(Difficulty::Impossible);
    moving.resample(-50_000_000, 0);
    let mut paddles = vec![
        Paddle { transform: paddle_at(10_000_000), role: Role::Player },
        Paddle { transform: paddle_at(0), role: Role::Computer(moving) },
    ];
    computer_movement(&mut paddles, TICK);
    assert_eq!(paddles[0], Paddle { transform: paddle_at(10_000_000), role: Role::Player });
    assert_eq!(paddles[1], Paddle { transform: paddle_at(-3_125_000), role: Role::Computer(moving) });
    update_computer_targets(&mut paddles, 77_000_000, 5 * TICK, TICK, &mut rng);
    assert_eq!(paddles[0], Paddle { transform: paddle_at(10_000_000), role: Role::Player });
    assert_eq!(paddles[1].transform, paddle_at(-3_125_000));
    match paddles[1].role {
        Role::Computer(state) => {
            assert_eq!(state.target_y, 77_000_000);
            assert_eq!(state.last_reaction_time, 5 * TICK);
        }
        Role::Player => panic!("the computer's paddle changed hands"),
    }
}

#[test]
fn a_reading_is_the_height_plus_the_error() {
    assert_eq!(read_with_error(123_456_789, 400_000), 123_856_789);
    assert_eq!(read_with_error(123_456_789, -400_000), 123_056_789);
    assert_eq!(read_with_error(-5, 0), -5);
    assert_eq!(read_with_error(i64::MAX - 7, 7), i64::MAX);
    assert_eq!(read_with_error(i64::MIN + 7, -7), i64::MIN);
}
