//! The vertical motion of a paddle and its confinement to the arena.

use vstd::prelude::*;
use crate::constants::{
    BTM_WALL,
    LEFT_WALL,
    PADDLE_HEIGHT,
    PADDLE_PADDING,
    PADDLE_SPEED,
    RIGHT_WALL,
    TOP_WALL,
    WALL_THICKNESS,
};
use crate::math::{Vec2, clamp_int, lemma_reach_bound, min_int};
use crate::physics::{Paddle, Role, Transform, half_of};

verus! {

/// The play field: the positions of the centres of its four walls, and the
/// walls' thickness.
#[derive(Clone, Copy, Debug, PartialEq, Eq, Structural)]
pub struct Arena {
    pub left: i64,
    pub right: i64,
    pub bottom: i64,
    pub top: i64,
    pub wall_thickness: i64,
}

/// The lowest position that the centre of a paddle may take: above the
/// inner face of the bottom wall by half the paddle's height and the
/// padding.
pub open spec fn lower_bound(arena: Arena, paddle_half_height: int, padding: int) -> int {
    arena.bottom + half_of(arena.wall_thickness as int) + paddle_half_height + padding
}

/// The highest position that the centre of a paddle may take.
pub open spec fn upper_bound(arena: Arena, paddle_half_height: int, padding: int) -> int {
    arena.top - half_of(arena.wall_thickness as int) - paddle_half_height - padding
}

/// Where a paddle at `current_y` is after it moved in `direction` at `speed`
/// for `dt` microseconds and was then held within its bounds.
pub open spec fn clamped_paddle_y(
    current_y: int,
    direction: int,
    speed: int,
    dt: int,
    arena: Arena,
    paddle_half_height: int,
    padding: int,
) -> int {
    clamp_int(
        current_y + direction * (speed * dt),
        lower_bound(arena, paddle_half_height, padding),
        upper_bound(arena, paddle_half_height, padding),
    )
}

impl Arena {
    /// The arena leaves room for a paddle of the given half height and
    /// padding: its bounds are in order and are positions that an `i64` can
    /// hold.
    pub open spec fn admits(self, paddle_half_height: i64, padding: i64) -> bool {
        i64::MIN <= lower_bound(self, paddle_half_height as int, padding as int) <= upper_bound(
            self,
            paddle_half_height as int,
            padding as int,
        ) <= i64::MAX
    }

    /// The arena of the game.
    pub open spec fn spec_standard() -> Arena {
        Arena {
            left: LEFT_WALL,
            right: RIGHT_WALL,
            bottom: BTM_WALL,
            top: TOP_WALL,
            wall_thickness: WALL_THICKNESS,
        }
    }

    /// The arena of the game.
    pub fn standard() -> (arena: Arena)
        ensures
            arena == Arena::spec_standard(),
    {
        Arena {
            left: LEFT_WALL,
            right: RIGHT_WALL,
            bottom: BTM_WALL,
            top: TOP_WALL,
            wall_thickness: WALL_THICKNESS,
        }
    }

    fn lower(&self, paddle_half_height: i64, padding: i64) -> (y: i128)
        ensures
            y == lower_bound(*self, paddle_half_height as int, padding as int),
    {
        self.bottom as i128 + (self.wall_thickness / 2) as i128 + paddle_half_height as i128
            + padding as i128
    }

    fn upper(&self, paddle_half_height: i64, padding: i64) -> (y: i128)
        ensures
            y == upper_bound(*self, paddle_half_height as int, padding as int),
    {
        self.top as i128 - (self.wall_thickness / 2) as i128 - paddle_half_height as i128
            - padding as i128
    }

    /// Tells whether the arena leaves room for a paddle of the given half
    /// height and padding, which is what `clamp_paddle_y` asks of it.
    pub fn has_room_for(&self, paddle_half_height: i64, padding: i64) -> (ok: bool)
        ensures
            ok == self.admits(paddle_half_height, padding),
    {
        let lo = self.lower(paddle_half_height, padding);
        let hi = self.upper(paddle_half_height, padding);
        i64::MIN as i128 <= lo && lo <= hi && hi <= i64::MAX as i128
    }
}

/// Whether a paddle of the game lies within the bounds that the game's arena
/// gives it.
pub open spec fn within_bounds(transform: Transform) -> bool {
    lower_bound(Arena::spec_standard(), PADDLE_HEIGHT / 2, PADDLE_PADDING as int)
        <= transform.translation.y <= upper_bound(
        Arena::spec_standard(),
        PADDLE_HEIGHT / 2,
        PADDLE_PADDING as int,
    )
}

/// The direction that the player asks for: one step up for the up key, one
/// step down for the down key, and nothing where both or neither are held.
pub open spec fn intent_of(up: bool, down: bool) -> int {
    (if up {
        1int
    } else {
        0int
    }) - (if down {
        1int
    } else {
        0int
    })
}

/// Turns the state of the up and down keys into a direction.
pub fn player_direction(up: bool, down: bool) -> (direction: i64)
    ensures
        direction == intent_of(up, down),
        -1 <= direction <= 1,
{
    let mut direction: i64 = 0;
    if up {
        direction += 1;
    }
    if down {
        direction -= 1;
    }
    direction
}

/// Moves a paddle vertically and holds it within the arena.
///
/// The paddle moves from `current_y` by `direction * speed * delta_time`,
/// and the result is clamped to the interval from `lower_bound` to
/// `upper_bound`, so that the paddle neither leaves the arena nor overlaps
/// a wall. With a `direction` of zero the function only clamps.
pub fn clamp_paddle_y(
    current_y: i64,
    direction: i64,
    speed: u64,
    delta_time: u64,
    arena_bounds: &Arena,
    paddle_half_height: i64,
    padding: i64,
) -> (new_y: i64)
    requires
        -1 <= direction <= 1,
        arena_bounds.admits(paddle_half_height, padding),
    ensures
        new_y == clamped_paddle_y(
            current_y as int,
            direction as int,
            speed as int,
            delta_time as int,
            *arena_bounds,
            paddle_half_height as int,
            padding as int,
        ),
        lower_bound(*arena_bounds, paddle_half_height as int, padding as int) <= new_y
            <= upper_bound(*arena_bounds, paddle_half_height as int, padding as int),
{
    let lo = arena_bounds.lower(paddle_half_height, padding);
    let hi = arena_bounds.upper(paddle_half_height, padding);
    proof {
        lemma_reach_bound(speed as int, delta_time as int);
    }
    let step: u128 = speed as u128 * delta_time as u128;
    // Past this length a step leaves every interval of positions, so it
    // need not be told apart from a longer one.
    let reach: u128 = 0x2_0000_0000_0000_0000;
    let capped: i128 = if step > reach {
        reach as i128
    } else {
        step as i128
    };
    let moved: i128 = if direction > 0 {
        current_y as i128 + capped
    } else if direction < 0 {
        current_y as i128 - capped
    } else {
        current_y as i128
    };
    proof {
        let exact = current_y + direction * (speed * delta_time);
        assert(step == speed * delta_time);
        if direction > 0 {
            assert(direction * (speed * delta_time) == speed * delta_time) by (nonlinear_arith)
                requires
                    direction == 1,
            ;
        } else if direction < 0 {
            assert(direction * (speed * delta_time) == -(speed * delta_time)) by (nonlinear_arith)
                requires
                    direction == -1,
            ;
        } else {
            assert(direction * (speed * delta_time) == 0) by (nonlinear_arith)
                requires
                    direction == 0,
            ;
        }
        assert(clamp_int(moved as int, lo as int, hi as int) == clamp_int(
            exact,
            lo as int,
            hi as int,
        ));
    }
    if moved < lo {
        lo as i64
    } else if moved > hi {
        hi as i64
    } else {
        moved as i64
    }
}

/// The result of the paddle motion clamp lies within the paddle's bounds,
/// and clamping it again changes nothing: a paddle that is moved and then
/// clamped once more, with no further motion, stays where the first clamp
/// put it.
pub proof fn clamp_paddle_y_is_idempotent(
    current_y: int,
    direction: int,
    speed: int,
    dt: int,
    arena: Arena,
    paddle_half_height: int,
    padding: int,
)
    requires
        lower_bound(arena, paddle_half_height, padding) <= upper_bound(
            arena,
            paddle_half_height,
            padding,
        ),
    ensures
        lower_bound(arena, paddle_half_height, padding) <= clamped_paddle_y(
            current_y,
            direction,
            speed,
            dt,
            arena,
            paddle_half_height,
            padding,
        ) <= upper_bound(arena, paddle_half_height, padding),
        clamped_paddle_y(
            clamped_paddle_y(current_y, direction, speed, dt, arena, paddle_half_height, padding),
            0,
            speed,
            dt,
            arena,
            paddle_half_height,
            padding,
        ) == clamped_paddle_y(current_y, direction, speed, dt, arena, paddle_half_height, padding),
{
}

/// A paddle within its bounds that is moved up for a time rises by the
/// length `speed * dt` or by the room left below its upper bound, whichever
/// is smaller; moved down, it sinks by that length or by the room left
/// above its lower bound.
pub proof fn held_intent_moves_by_reach_or_room(
    current_y: int,
    speed: int,
    dt: int,
    arena: Arena,
    paddle_half_height: int,
    padding: int,
)
    requires
        0 <= speed,
        0 <= dt,
        lower_bound(arena, paddle_half_height, padding) <= current_y <= upper_bound(
            arena,
            paddle_half_height,
            padding,
        ),
    ensures
        clamped_paddle_y(current_y, 1, speed, dt, arena, paddle_half_height, padding) == current_y
            + min_int(speed * dt, upper_bound(arena, paddle_half_height, padding) - current_y),
        clamped_paddle_y(current_y, -1, speed, dt, arena, paddle_half_height, padding) == current_y
            - min_int(speed * dt, current_y - lower_bound(arena, paddle_half_height, padding)),
{
    assert(0 <= speed * dt) by (nonlinear_arith)
        requires
            0 <= speed,
            0 <= dt,
    ;
}

/// Holding an intent over two ticks in a row moves a paddle within its
/// bounds to where one tick of their joint length would have moved it.
pub proof fn held_intent_adds_up(
    current_y: int,
    direction: int,
    speed: int,
    first: int,
    second: int,
    arena: Arena,
    paddle_half_height: int,
    padding: int,
)
    requires
        -1 <= direction <= 1,
        0 <= speed,
        0 <= first,
        0 <= second,
        lower_bound(arena, paddle_half_height, padding) <= current_y <= upper_bound(
            arena,
            paddle_half_height,
            padding,
        ),
    ensures
        clamped_paddle_y(
            clamped_paddle_y(
                current_y,
                direction,
                speed,
                first,
                arena,
                paddle_half_height,
                padding,
            ),
            direction,
            speed,
            second,
            arena,
            paddle_half_height,
            padding,
        ) == clamped_paddle_y(
            current_y,
            direction,
            speed,
            first + second,
            arena,
            paddle_half_height,
            padding,
        ),
{
    let a = speed * first;
    let b = speed * second;
    assert(a >= 0 && b >= 0 && speed * (first + second) == a + b) by (nonlinear_arith)
        requires
            0 <= speed,
            0 <= first,
            0 <= second,
            a == speed * first,
            b == speed * second,
    ;
    assert(direction * a == (if direction == 1 {
        a
    } else if direction == 0 {
        0
    } else {
        -a
    })) by (nonlinear_arith)
        requires
            -1 <= direction <= 1,
    ;
    assert(direction * b == (if direction == 1 {
        b
    } else if direction == 0 {
        0
    } else {
        -b
    })) by (nonlinear_arith)
        requires
            -1 <= direction <= 1,
    ;
    assert(direction * (a + b) == direction * a + direction * b) by (nonlinear_arith);
}

/// A paddle of the game after it moved in `direction` for `dt`
/// microseconds: it moves at `PADDLE_SPEED` and is held within the bounds
/// that the game's arena gives a paddle of `PADDLE_HEIGHT` with
/// `PADDLE_PADDING`. Only its height changes.
pub open spec fn moved_paddle(transform: Transform, direction: int, dt: int) -> Transform {
    Transform {
        translation: Vec2 {
            x: transform.translation.x,
            y: clamped_paddle_y(
                transform.translation.y as int,
                direction,
                PADDLE_SPEED as int,
                dt,
                Arena::spec_standard(),
                PADDLE_HEIGHT / 2,
                PADDLE_PADDING as int,
            ) as i64,
        },
        scale: transform.scale,
    }
}

/// Moves a paddle of the game in `direction` for `delta_time` microseconds.
pub fn move_paddle(paddle_transform: &mut Transform, direction: i64, delta_time: u64)
    requires
        -1 <= direction <= 1,
    ensures
        *final(paddle_transform) == moved_paddle(
            *old(paddle_transform),
            direction as int,
            delta_time as int,
        ),
        within_bounds(*final(paddle_transform)),
{
    let arena = Arena::standard();
    let new_y = clamp_paddle_y(
        paddle_transform.translation.y,
        direction,
        PADDLE_SPEED,
        delta_time,
        &arena,
        PADDLE_HEIGHT / 2,
        PADDLE_PADDING,
    );
    paddle_transform.translation.y = new_y;
}

/// A paddle after the player's movement of one tick: a paddle of the
/// player has moved, a paddle of the computer is as it was.
pub open spec fn player_moved(paddle: Paddle, direction: int, dt: int) -> Paddle {
    match paddle.role {
        Role::Player => Paddle {
            transform: moved_paddle(paddle.transform, direction, dt),
            role: paddle.role,
        },
        Role::Computer(_) => paddle,
    }
}

/// Applies the player's intent of one tick: every paddle of the player
/// moves in `direction` for `delta_time` microseconds and is held within
/// the arena.
pub fn player_movement(paddles: &mut Vec<Paddle>, direction: i64, delta_time: u64)
    requires
        -1 <= direction <= 1,
    ensures
        final(paddles)@.len() == old(paddles)@.len(),
        forall|i: int|
            0 <= i < old(paddles)@.len() ==> #[trigger] final(paddles)@[i] == player_moved(
                old(paddles)@[i],
                direction as int,
                delta_time as int,
            ),
{
    let mut i: usize = 0;
    while i < paddles.len()
        invariant
            i <= paddles.len(),
            -1 <= direction <= 1,
            paddles@.len() == old(paddles)@.len(),
            forall|j: int|
                0 <= j < i ==> #[trigger] paddles@[j] == player_moved(
                    old(paddles)@[j],
                    direction as int,
                    delta_time as int,
                ),
            forall|j: int| i <= j < paddles@.len() ==> #[trigger] paddles@[j] == old(paddles)@[j],
        decreases paddles.len() - i,
    {
        let mut paddle = paddles[i];
        if let Role::Player = paddle.role {
            move_paddle(&mut paddle.transform, direction, delta_time);
            paddles[i] = paddle;
        }
        i += 1;
    }
}

} // verus!
