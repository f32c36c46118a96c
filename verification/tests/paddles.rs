use pong_sim::constants::{PADDLE_HEIGHT, PADDLE_PADDING, PADDLE_SPEED};
use pong_sim::math::{clamp, Vec2};
use pong_sim::movement::{
    clamp_paddle_y, move_paddle, player_direction, player_movement, Arena,
};
use pong_sim::physics::{Paddle, Role, Transform};
use pong_sim::ai::{ComputerState, Difficulty};

const UPPER: i64 = 205_000_000;
const LOWER: i64 = -205_000_000;
const TICK: u64 = 15_625;

fn game_clamp(current_y: i64, direction: i64, delta_time: u64) -> i64 {
    let arena = Arena::standard();
    assert!(arena.has_room_for(PADDLE_HEIGHT / 2, PADDLE_PADDING));
    clamp_paddle_y(
        current_y,
        direction,
        PADDLE_SPEED,
        delta_time,
        &arena,
        PADDLE_HEIGHT / 2,
        PADDLE_PADDING,
    )
}

#[test]
fn clamp_keeps_the_value_inside_the_interval() {
    assert_eq!(clamp(5, -3, 9), 5);
    assert_eq!(clamp(-4, -3, 9), -3);
    assert_eq!(clamp(10, -3, 9), 9);
    assert_eq!(clamp(7, 7, 7), 7);
    assert_eq!(clamp(i64::MIN, 7, 7), 7);
}

#[test]
fn standard_arena_has_the_game_dimensions() {
    let arena = Arena::standard();
    assert_eq!(
        arena,
        Arena {
            left: -600_000_000,
            right: 600_000_000,
            bottom: -300_000_000,
            top: 300_000_000,
            wall_thickness: 10_000_000,
        }
    );
}

#[test]
fn clamp_paddle_y_moves_by_speed_times_time() {
    assert_eq!(game_clamp(0, 1, TICK), 3_125_000);
    assert_eq!(game_clamp(0, -1, TICK), -3_125_000);
    assert_eq!(game_clamp(0, 0, TICK), 0);
    assert_eq!(game_clamp(1_000, 1, 0), 1_000);
}

#[test]
fn clamp_paddle_y_stays_within_the_bounds() {
    assert_eq!(game_clamp(204_000_000, 1, TICK), UPPER);
    assert_eq!(game_clamp(-204_000_000, -1, TICK), LOWER);
    assert_eq!(game_clamp(UPPER, 1, TICK), UPPER);
    assert_eq!(game_clamp(LOWER, -1, TICK), LOWER);
    assert_eq!(game_clamp(900_000_000, 0, TICK), UPPER);
    assert_eq!(game_clamp(-900_000_000, 0, TICK), LOWER);
    assert_eq!(game_clamp(i64::MAX, 1, u64::MAX), UPPER);
    assert_eq!(game_clamp(i64::MIN, -1, u64::MAX), LOWER);
    assert_eq!(game_clamp(i64::MIN, 1, u64::MAX), UPPER);
    assert_eq!(game_clamp(i64::MAX, -1, u64::MAX), LOWER);
}

#[test]
fn clamp_paddle_y_is_idempotent_as_a_clamp() {
    for start in [-900_000_000, -205_000_001, -1, 0, 77, 204_999_999, 900_000_000] {
        for direction in [-1, 0, 1] {
            let once = game_clamp(start, direction, TICK);
            assert!(LOWER <= once && once <= UPPER);
            assert_eq!(game_clamp(once, 0, TICK), once);
        }
    }
}

#[test]
fn clamp_paddle_y_uses_the_given_arena() {
    let arena = Arena { left: -50, right: 50, bottom: -100, top: 100, wall_thickness: 7 };
    assert!(arena.has_room_for(20, 5));
    // Bounds: -100 + 3 + 20 + 5 = -72 and 100 - 3 - 20 - 5 = 72.
    assert_eq!(clamp_paddle_y(0, 1, 10, 5, &arena, 20, 5), 50);
    assert_eq!(clamp_paddle_y(50, 1, 10, 5, &arena, 20, 5), 72);
    assert_eq!(clamp_paddle_y(0, -1, 10, 9, &arena, 20, 5), -72);
    assert!(arena.has_room_for(97, 0));
    assert_eq!(clamp_paddle_y(55, -1, 1, 1, &arena, 97, 0), 0);
    assert!(!arena.has_room_for(98, 0));
    assert!(!arena.has_room_for(i64::MAX, i64::MAX));
}

#[test]
fn held_up_intent_moves_the_paddle_by_the_smaller_of_reach_and_room() {
    let mut transform = Transform {
        translation: Vec2::new(-560_000_000, 0),
        scale: Vec2::new(20_000_000, 120_000_000),
    };
    let mut held: u64 = 0;
    for _ in 0..100 {
        move_paddle(&mut transform, 1, TICK);
        held += TICK;
        let reach = (PADDLE_SPEED * held) as i64;
        assert_eq!(transform.translation.y, reach.min(UPPER));
        assert_eq!(transform.translation.x, -560_000_000);
    }
    assert_eq!(transform.translation.y, UPPER);
}

#[test]
fn move_paddle_keeps_position_across_and_size() {
    let mut transform = Transform { translation: Vec2::new(12, 34), scale: Vec2::new(5, 6) };
    move_paddle(&mut transform, -1, 1_000_000);
    assert_eq!(transform, Transform { translation: Vec2::new(12, -199_999_966), scale: Vec2::new(5, 6) });
}

#[test]
fn player_direction_sums_the_keys() {
    assert_eq!(player_direction(false, false), 0);
    assert_eq!(player_direction(true, false), 1);
    assert_eq!(player_direction(false, true), -1);
    assert_eq!(player_direction(true, true), 0);
}

#[test]
fn player_movement_moves_only_the_players_paddles() {
    let at = |x: i64, y: i64| Transform {
        translation: Vec2::new(x, y),
        scale: Vec2::new(20_000_000, 120_000_000),
    };
    let computer = Role::Computer(ComputerState::new(Difficulty::Hard));
    let mut paddles = vec![
        Paddle { transform: at(-560_000_000, 0), role: Role::Player },
        Paddle { transform: at(560_000_000, 0), role: computer },
        Paddle { transform: at(0, 204_000_000), role: Role::Player },
    ];
    player_movement(&mut paddles, 1, TICK);
    assert_eq!(
        paddles,
        vec![
            Paddle { transform: at(-560_000_000, 3_125_000), role: Role::Player },
            Paddle { transform: at(560_000_000, 0), role: computer },
            Paddle { transform: at(0, UPPER), role: Role::Player },
        ]
    );
    let mut none: Vec<Paddle> = Vec::new();
    player_movement(&mut none, -1, TICK);
    assert!(none.is_empty());
}

#[test]
fn two_ticks_move_a_paddle_like_one_tick_of_their_joint_length() {
    for start in [-205_000_000, -150_000_000, 0, 199_000_000, 205_000_000] {
        for direction in [-1, 0, 1] {
            for (first, second) in [(TICK, TICK), (0, 40_000), (1_000_000, 3), (900_000, 900_000)] {
                let stepwise = game_clamp(game_clamp(start, direction, first), direction, second);
                assert_eq!(stepwise, game_clamp(start, direction, first + second));
            }
        }
    }
}
