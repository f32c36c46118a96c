//! Collisions of the ball with the boxes of the arena, and the motion of
//! bodies that carry a velocity.

use vstd::prelude::*;
use crate::ai::ComputerState;
use crate::constants::BALL_RADIUS;
use crate::math::{Vec2, clamp_int, abs_int};

verus! {

/// The face of a box that the ball has struck.
#[derive(Clone, Copy, Debug, PartialEq, Eq, Structural)]
pub enum Side {
    Left,
    Right,
    Top,
    Bottom,
}

/// How far the coordinate `p` lies outside the interval of half-width `h`
/// around `c`: negative below the interval, positive above it, zero inside.
pub open spec fn axis_offset(p: int, c: int, h: int) -> int {
    p - clamp_int(p, c - h, c + h)
}

/// The vector from the point of the box nearest to the ball's centre to that
/// centre, as a pair of its horizontal and vertical components.
pub open spec fn offset_from_box(ball_center: Vec2, box_center: Vec2, box_half_extents: Vec2) -> (
    int,
    int,
) {
    (
        axis_offset(ball_center.x as int, box_center.x as int, box_half_extents.x as int),
        axis_offset(ball_center.y as int, box_center.y as int, box_half_extents.y as int),
    )
}

/// Whether the ball touches the box: the point of the box nearest to the
/// ball's centre is no farther from it than the radius.
pub open spec fn overlaps(
    ball_center: Vec2,
    ball_radius: i64,
    box_center: Vec2,
    box_half_extents: Vec2,
) -> bool {
    let (dx, dy) = offset_from_box(ball_center, box_center, box_half_extents);
    dx * dx + dy * dy <= ball_radius * ball_radius
}

/// The side that an offset points out of. The horizontal sides win only
/// where the offset is strictly wider than it is tall; a tie, the zero
/// offset included, goes to the vertical sides, and there a vertical
/// component that is not positive means `Bottom`.
pub open spec fn side_of_offset(dx: int, dy: int) -> Side {
    if abs_int(dx) > abs_int(dy) {
        if dx < 0 {
            Side::Left
        } else {
            Side::Right
        }
    } else if dy > 0 {
        Side::Top
    } else {
        Side::Bottom
    }
}

/// The side of the box that the ball has struck, if it touches the box.
pub open spec fn struck_side(
    ball_center: Vec2,
    ball_radius: i64,
    box_center: Vec2,
    box_half_extents: Vec2,
) -> Option<Side> {
    if overlaps(ball_center, ball_radius, box_center, box_half_extents) {
        let (dx, dy) = offset_from_box(ball_center, box_center, box_half_extents);
        Some(side_of_offset(dx, dy))
    } else {
        None
    }
}

fn offset_along_axis(p: i64, c: i64, h: i64) -> (d: i128)
    ensures
        d == axis_offset(p as int, c as int, h as int),
{
    let lo: i128 = c as i128 - h as i128;
    let hi: i128 = c as i128 + h as i128;
    let p: i128 = p as i128;
    if p < lo {
        p - lo
    } else if p > hi {
        p - hi
    } else {
        0
    }
}

fn magnitude(d: i128) -> (m: u128)
    requires
        d > i128::MIN,
    ensures
        m == abs_int(d as int),
{
    if d < 0 {
        (-d) as u128
    } else {
        d as u128
    }
}

proof fn lemma_square_monotone(a: int, b: int)
    requires
        0 <= a <= b,
    ensures
        a * a <= b * b,
{
    assert(a * a <= b * b) by (nonlinear_arith)
        requires
            0 <= a <= b,
    ;
}

proof fn lemma_square_strictly_monotone(a: int, b: int)
    requires
        0 <= a < b,
    ensures
        a * a < b * b,
{
    assert(a * a < b * b) by (nonlinear_arith)
        requires
            0 <= a < b,
    ;
}

proof fn lemma_square_of_abs(d: int)
    ensures
        abs_int(d) * abs_int(d) == d * d,
        d * d >= 0,
{
    assert(abs_int(d) * abs_int(d) == d * d && d * d >= 0) by (nonlinear_arith)
        requires
            abs_int(d) == d || abs_int(d) == -d,
    ;
}

/// Decides whether a ball touches an axis-aligned box and, if it does, which
/// side of the box it has struck.
///
/// The ball touches the box where the point of the box nearest to the ball's
/// centre lies within the radius. The side is read off the vector from that
/// point to the centre: `Left` or `Right` where the vector is strictly wider
/// than tall, else `Top` where it points up and `Bottom` where it does not.
/// A ball whose centre lies in the box, at the box's own centre for one, has
/// the zero vector and so strikes `Bottom`.
///
/// A box with a half extent of zero is a segment or a point and is handled
/// like any other. Nothing is divided, and every input has an answer.
pub fn classify(
    ball_center: Vec2,
    ball_radius: i64,
    box_center: Vec2,
    box_half_extents: Vec2,
) -> (side: Option<Side>)
    ensures
        side == struck_side(ball_center, ball_radius, box_center, box_half_extents),
{
    let dx = offset_along_axis(ball_center.x, box_center.x, box_half_extents.x);
    let dy = offset_along_axis(ball_center.y, box_center.y, box_half_extents.y);
    let ax = magnitude(dx);
    let ay = magnitude(dy);
    let r = magnitude(ball_radius as i128);
    proof {
        lemma_square_of_abs(dx as int);
        lemma_square_of_abs(dy as int);
        lemma_square_of_abs(ball_radius as int);
    }
    if ax > r {
        proof {
            lemma_square_strictly_monotone(r as int, ax as int);
        }
        return None;
    }
    if ay > r {
        proof {
            lemma_square_strictly_monotone(r as int, ay as int);
        }
        return None;
    }
    proof {
        lemma_square_monotone(ax as int, r as int);
        lemma_square_monotone(ay as int, r as int);
        lemma_square_monotone(r as int, 0x8000_0000_0000_0000);
    }
    if ax * ax + ay * ay > r * r {
        return None;
    }
    let side = if ax > ay {
        if dx < 0 {
            Side::Left
        } else {
            Side::Right
        }
    } else if dy > 0 {
        Side::Top
    } else {
        Side::Bottom
    };
    Some(side)
}

/// A ball that does not touch a box strikes no side of it, and a ball that
/// touches it strikes one.
pub proof fn classify_is_none_exactly_without_overlap(
    ball_center: Vec2,
    ball_radius: i64,
    box_center: Vec2,
    box_half_extents: Vec2,
)
    ensures
        struck_side(ball_center, ball_radius, box_center, box_half_extents) is None <==> !overlaps(
            ball_center,
            ball_radius,
            box_center,
            box_half_extents,
        ),
{
}

/// A ball whose centre lies beyond one edge of a box, level with the box
/// along the other axis and no farther from the edge than its radius,
/// strikes the side of that edge.
pub proof fn ball_across_an_edge_strikes_that_side(
    ball_center: Vec2,
    ball_radius: i64,
    box_center: Vec2,
    box_half_extents: Vec2,
)
    requires
        ball_radius >= 0,
        box_half_extents.x >= 0,
        box_half_extents.y >= 0,
    ensures
        ({
            &&& box_center.y - box_half_extents.y <= ball_center.y <= box_center.y
                + box_half_extents.y
            &&& 0 < (box_center.x - box_half_extents.x) - ball_center.x <= ball_radius
        }) ==> struck_side(ball_center, ball_radius, box_center, box_half_extents) == Some(
            Side::Left,
        ),
        ({
            &&& box_center.y - box_half_extents.y <= ball_center.y <= box_center.y
                + box_half_extents.y
            &&& 0 < ball_center.x - (box_center.x + box_half_extents.x) <= ball_radius
        }) ==> struck_side(ball_center, ball_radius, box_center, box_half_extents) == Some(
            Side::Right,
        ),
        ({
            &&& box_center.x - box_half_extents.x <= ball_center.x <= box_center.x
                + box_half_extents.x
            &&& 0 < ball_center.y - (box_center.y + box_half_extents.y) <= ball_radius
        }) ==> struck_side(ball_center, ball_radius, box_center, box_half_extents) == Some(
            Side::Top,
        ),
        ({
            &&& box_center.x - box_half_extents.x <= ball_center.x <= box_center.x
                + box_half_extents.x
            &&& 0 < (box_center.y - box_half_extents.y) - ball_center.y <= ball_radius
        }) ==> struck_side(ball_center, ball_radius, box_center, box_half_extents) == Some(
            Side::Bottom,
        ),
{
    let (dx, dy) = offset_from_box(ball_center, box_center, box_half_extents);
    lemma_square_of_abs(dx);
    lemma_square_of_abs(dy);
    if abs_int(dx) <= ball_radius {
        lemma_square_monotone(abs_int(dx), ball_radius as int);
    }
    if abs_int(dy) <= ball_radius {
        lemma_square_monotone(abs_int(dy), ball_radius as int);
    }
    assert(0 * 0 == 0);
}

/// A ball whose centre lies in a box strikes the `Bottom` side, whatever its
/// radius.
pub proof fn ball_centered_in_the_box_strikes_bottom(
    ball_center: Vec2,
    ball_radius: i64,
    box_center: Vec2,
    box_half_extents: Vec2,
)
    requires
        box_center.x - box_half_extents.x <= ball_center.x <= box_center.x + box_half_extents.x,
        box_center.y - box_half_extents.y <= ball_center.y <= box_center.y + box_half_extents.y,
    ensures
        struck_side(ball_center, ball_radius, box_center, box_half_extents) == Some(Side::Bottom),
{
    lemma_square_of_abs(ball_radius as int);
    assert(0 * 0 == 0);
}

/// A ball whose centre is the centre of a box strikes the `Bottom` side.
pub proof fn ball_at_the_box_center_strikes_bottom(
    ball_radius: i64,
    box_center: Vec2,
    box_half_extents: Vec2,
)
    requires
        box_half_extents.x >= 0,
        box_half_extents.y >= 0,
    ensures
        struck_side(box_center, ball_radius, box_center, box_half_extents) == Some(Side::Bottom),
{
    ball_centered_in_the_box_strikes_bottom(box_center, ball_radius, box_center, box_half_extents);
}

/// Position and size of a body. The translation is the body's centre, the
/// scale its full width and height.
#[derive(Clone, Copy, Debug, PartialEq, Eq, Structural)]
pub struct Transform {
    pub translation: Vec2,
    pub scale: Vec2,
}

/// Velocity of a moving body, in world units per second.
#[derive(Clone, Copy, Debug, PartialEq, Eq, Structural)]
pub struct Velocity(pub Vec2);

impl Velocity {
    /// Both components can be negated.
    pub open spec fn wf(self) -> bool {
        self.0.x > i64::MIN && self.0.y > i64::MIN
    }

    /// Tells whether both components can be negated, which is what
    /// reflecting the velocity asks of it.
    pub fn is_sound(&self) -> (ok: bool)
        ensures
            ok == self.wf(),
    {
        self.0.x > i64::MIN && self.0.y > i64::MIN
    }
}

/// Who moves a paddle.
#[derive(Clone, Copy, Debug, PartialEq, Eq, Structural)]
pub enum Role {
    /// The paddle follows the player's keys.
    Player,
    /// The paddle follows the computer opponent, whose state it carries.
    Computer(ComputerState),
}

/// A paddle: where it is, how large it is, and who moves it.
#[derive(Clone, Copy, Debug, PartialEq, Eq, Structural)]
pub struct Paddle {
    pub transform: Transform,
    pub role: Role,
}

/// The ball, the one body of the game that moves along a velocity.
#[derive(Clone, Copy, Debug, PartialEq, Eq, Structural)]
pub struct Ball {
    pub transform: Transform,
    pub velocity: Velocity,
}

/// Notice that the ball touched a collider: the collider's place in the list
/// that was checked, and the side of it that was struck.
#[derive(Clone, Copy, Debug, PartialEq, Eq, Structural)]
pub struct CollisionEvent {
    pub collider: usize,
    pub side: Side,
}

/// The velocity after the ball has struck `side`: the component that points
/// into the surface is turned round, and a component that already points
/// away from it, or along it, is left alone.
pub open spec fn reflected(v: Velocity, side: Side) -> Velocity {
    match side {
        Side::Left => if v.0.x > 0 {
            Velocity(Vec2 { x: (-v.0.x) as i64, y: v.0.y })
        } else {
            v
        },
        Side::Right => if v.0.x < 0 {
            Velocity(Vec2 { x: (-v.0.x) as i64, y: v.0.y })
        } else {
            v
        },
        Side::Top => if v.0.y < 0 {
            Velocity(Vec2 { x: v.0.x, y: (-v.0.y) as i64 })
        } else {
            v
        },
        Side::Bottom => if v.0.y > 0 {
            Velocity(Vec2 { x: v.0.x, y: (-v.0.y) as i64 })
        } else {
            v
        },
    }
}

/// Reflects the velocity off the struck side of a collider.
///
/// A hit on the `Left` side turns a rightward velocity round, one on the
/// `Right` side a leftward velocity, one on the `Top` side a falling
/// velocity and one on the `Bottom` side a rising velocity. A velocity that
/// already leaves the surface is not touched, so a ball that still overlaps
/// a collider after it was reflected is not reflected back into it.
pub fn reflect(velocity: &mut Velocity, side: Side)
    requires
        old(velocity).wf(),
    ensures
        *final(velocity) == reflected(*old(velocity), side),
        final(velocity).wf(),
{
    match side {
        Side::Left => {
            if velocity.0.x > 0 {
                velocity.0.x = -velocity.0.x;
            }
        },
        Side::Right => {
            if velocity.0.x < 0 {
                velocity.0.x = -velocity.0.x;
            }
        },
        Side::Top => {
            if velocity.0.y < 0 {
                velocity.0.y = -velocity.0.y;
            }
        },
        Side::Bottom => {
            if velocity.0.y > 0 {
                velocity.0.y = -velocity.0.y;
            }
        },
    }
}

/// Reflecting twice off the same side is reflecting once: after the first
/// reflection the velocity points away from the side, and the second
/// leaves it alone.
pub proof fn reflection_is_idempotent(v: Velocity, side: Side)
    requires
        v.wf(),
    ensures
        reflected(reflected(v, side), side) == reflected(v, side),
        reflected(v, side).wf(),
{
}

/// Half of a length, rounded toward zero.
pub open spec fn half_of(s: int) -> int {
    if s >= 0 {
        s / 2
    } else {
        -((-s) / 2)
    }
}

/// The side of a collider that the ball at `ball` has struck, if any. The
/// collider's box is centred at its translation and spans half of its scale
/// to each side; the ball has the radius `BALL_RADIUS`.
pub open spec fn collider_hit(ball: Vec2, collider: Transform) -> Option<Side> {
    struck_side(
        ball,
        BALL_RADIUS,
        collider.translation,
        Vec2 {
            x: half_of(collider.scale.x as int) as i64,
            y: half_of(collider.scale.y as int) as i64,
        },
    )
}

/// Checks the ball against one collider.
pub fn ball_collision(ball: Vec2, collider: &Transform) -> (side: Option<Side>)
    ensures
        side == collider_hit(ball, *collider),
{
    let half_extents = Vec2 { x: collider.scale.x / 2, y: collider.scale.y / 2 };
    classify(ball, BALL_RADIUS, collider.translation, half_extents)
}

/// The ball's velocity after it was checked against each collider in turn,
/// and reflected off each one that it touches.
pub open spec fn resolved(v: Velocity, ball: Vec2, colliders: Seq<Transform>) -> Velocity
    decreases colliders.len(),
{
    if colliders.len() == 0 {
        v
    } else {
        let before = resolved(v, ball, colliders.drop_last());
        match collider_hit(ball, colliders.last()) {
            Some(side) => reflected(before, side),
            None => before,
        }
    }
}

/// The notices of one check: one for each collider that the ball touches, in
/// the order of the colliders.
pub open spec fn collisions(ball: Vec2, colliders: Seq<Transform>) -> Seq<CollisionEvent>
    decreases colliders.len(),
{
    if colliders.len() == 0 {
        Seq::empty()
    } else {
        let before = collisions(ball, colliders.drop_last());
        match collider_hit(ball, colliders.last()) {
            Some(side) => before.push(
                CollisionEvent { collider: (colliders.len() - 1) as usize, side },
            ),
            None => before,
        }
    }
}

/// Resolves the ball's collisions of one tick.
///
/// The ball, at the position it has after it was moved, is checked against
/// every collider in the order given. For each collider that it touches one
/// notice is returned, and the velocity is reflected off the struck side,
/// but only where it points into that side. The ball's position is not
/// corrected.
pub fn check_for_collisions(
    ball_velocity: &mut Velocity,
    ball_transform: &Transform,
    colliders: &Vec<Transform>,
) -> (events: Vec<CollisionEvent>)
    requires
        old(ball_velocity).wf(),
    ensures
        *final(ball_velocity) == resolved(
            *old(ball_velocity),
            ball_transform.translation,
            colliders@,
        ),
        events@ == collisions(ball_transform.translation, colliders@),
        final(ball_velocity).wf(),
{
    let mut events: Vec<CollisionEvent> = Vec::new();
    let mut i: usize = 0;
    while i < colliders.len()
        invariant
            i <= colliders.len(),
            ball_velocity.wf(),
            *ball_velocity == resolved(
                *old(ball_velocity),
                ball_transform.translation,
                colliders@.take(i as int),
            ),
            events@ == collisions(ball_transform.translation, colliders@.take(i as int)),
        decreases colliders.len() - i,
    {
        proof {
            assert(colliders@.take(i + 1).drop_last() =~= colliders@.take(i as int));
        }
        if let Some(side) = ball_collision(ball_transform.translation, &colliders[i]) {
            events.push(CollisionEvent { collider: i, side });
            reflect(ball_velocity, side);
        }
        i += 1;
    }
    proof {
        assert(colliders@.take(colliders.len() as int) =~= colliders@);
    }
    events
}

proof fn lemma_resolved_keeps_magnitudes(v: Velocity, ball: Vec2, colliders: Seq<Transform>)
    requires
        v.wf(),
    ensures
        resolved(v, ball, colliders).wf(),
        abs_int(resolved(v, ball, colliders).0.x as int) == abs_int(v.0.x as int),
        abs_int(resolved(v, ball, colliders).0.y as int) == abs_int(v.0.y as int),
    decreases colliders.len(),
{
    if colliders.len() > 0 {
        lemma_resolved_keeps_magnitudes(v, ball, colliders.drop_last());
    }
}

proof fn lemma_resolved_reads_magnitudes(
    v: Velocity,
    w: Velocity,
    ball: Vec2,
    colliders: Seq<Transform>,
)
    requires
        v.wf(),
        w.wf(),
        abs_int(v.0.x as int) == abs_int(w.0.x as int),
        abs_int(v.0.y as int) == abs_int(w.0.y as int),
    ensures
        ({
            ||| resolved(v, ball, colliders).0.x == resolved(w, ball, colliders).0.x
            ||| (resolved(v, ball, colliders).0.x == v.0.x && resolved(w, ball, colliders).0.x
                == w.0.x)
        }),
        ({
            ||| resolved(v, ball, colliders).0.y == resolved(w, ball, colliders).0.y
            ||| (resolved(v, ball, colliders).0.y == v.0.y && resolved(w, ball, colliders).0.y
                == w.0.y)
        }),
    decreases colliders.len(),
{
    if colliders.len() > 0 {
        lemma_resolved_reads_magnitudes(v, w, ball, colliders.drop_last());
        lemma_resolved_keeps_magnitudes(v, ball, colliders.drop_last());
        lemma_resolved_keeps_magnitudes(w, ball, colliders.drop_last());
    }
}

/// Resolving the collisions of a ball that has not moved, against colliders
/// that have not moved, a second time changes nothing: every component
/// that pointed into a surface was turned away from it the first time, and
/// is not turned back.
pub proof fn resolution_is_idempotent(v: Velocity, ball: Vec2, colliders: Seq<Transform>)
    requires
        v.wf(),
    ensures
        resolved(resolved(v, ball, colliders), ball, colliders) == resolved(v, ball, colliders),
{
    let once = resolved(v, ball, colliders);
    lemma_resolved_keeps_magnitudes(v, ball, colliders);
    lemma_resolved_reads_magnitudes(once, v, ball, colliders);
}

/// Where a coordinate `p` is after `dt` microseconds at velocity `v`.
pub open spec fn displaced(p: int, v: int, dt: int) -> int {
    p + v * dt
}

/// Whether a body at `transform` can be moved for `dt` microseconds at
/// `velocity` without leaving the positions that an `i64` can hold.
pub open spec fn can_move(transform: Transform, velocity: Velocity, dt: u64) -> bool {
    &&& i64::MIN <= displaced(transform.translation.x as int, velocity.0.x as int, dt as int)
        <= i64::MAX
    &&& i64::MIN <= displaced(transform.translation.y as int, velocity.0.y as int, dt as int)
        <= i64::MAX
}

proof fn lemma_product_bounds(v: int, dt: int)
    requires
        i64::MIN <= v <= i64::MAX,
        0 <= dt <= u64::MAX,
    ensures
        i64::MIN * u64::MAX <= v * dt <= i64::MAX * u64::MAX,
{
    assert(i64::MIN * u64::MAX <= v * dt <= i64::MAX * u64::MAX) by (nonlinear_arith)
        requires
            i64::MIN <= v <= i64::MAX,
            0 <= dt <= u64::MAX,
    ;
}

fn displace(p: i64, v: i64, dt: u64) -> (r: i128)
    ensures
        r == displaced(p as int, v as int, dt as int),
{
    proof {
        lemma_product_bounds(v as int, dt as int);
    }
    p as i128 + (v as i128) * (dt as i128)
}

/// Tells whether `apply_velocity` may be called on these values.
pub fn can_apply_velocity(transform: &Transform, velocity: &Velocity, delta_time: u64) -> (ok:
    bool)
    ensures
        ok == can_move(*transform, *velocity, delta_time),
{
    let x = displace(transform.translation.x, velocity.0.x, delta_time);
    let y = displace(transform.translation.y, velocity.0.y, delta_time);
    i64::MIN as i128 <= x && x <= i64::MAX as i128 && i64::MIN as i128 <= y && y <= i64::MAX as i128
}

/// A body after it moved along `velocity` for `dt` microseconds.
pub open spec fn moved_body(transform: Transform, velocity: Velocity, dt: u64) -> Transform {
    Transform {
        translation: Vec2 {
            x: displaced(transform.translation.x as int, velocity.0.x as int, dt as int) as i64,
            y: displaced(transform.translation.y as int, velocity.0.y as int, dt as int) as i64,
        },
        scale: transform.scale,
    }
}

/// Moves a body along its velocity for `delta_time` microseconds: each
/// coordinate grows by the matching component of the velocity times the
/// time.
pub fn apply_velocity(transform: &mut Transform, velocity: &Velocity, delta_time: u64)
    requires
        can_move(*old(transform), *velocity, delta_time),
    ensures
        *final(transform) == moved_body(*old(transform), *velocity, delta_time),
        final(transform).translation.x == displaced(
            old(transform).translation.x as int,
            velocity.0.x as int,
            delta_time as int,
        ),
        final(transform).translation.y == displaced(
            old(transform).translation.y as int,
            velocity.0.y as int,
            delta_time as int,
        ),
{
    let x = displace(transform.translation.x, velocity.0.x, delta_time);
    let y = displace(transform.translation.y, velocity.0.y, delta_time);
    transform.translation.x = x as i64;
    transform.translation.y = y as i64;
}

} // verus!
