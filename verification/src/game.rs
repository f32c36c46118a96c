//! The world of one game and its advance by one tick.

use rand::rngs::StdRng;
use vstd::prelude::*;
use crate::ai::{
    can_perceive,
    can_read_ball,
    can_retarget,
    computer_movement,
    computer_moved,
    perceives,
    pursuing,
    retargeted,
    update_computer_targets,
};
use crate::movement::{moved_paddle, player_moved, player_movement, within_bounds};
use crate::physics::{
    Ball,
    CollisionEvent,
    Paddle,
    Role,
    Transform,
    apply_velocity,
    can_apply_velocity,
    can_move,
    check_for_collisions,
    collisions,
    moved_body,
    resolved,
};
use crate::setup::Wall;

verus! {

/// Everything that one game consists of. The world is owned by whoever
/// advances it, and each stage of a tick works on it in turn.
#[derive(Clone, Debug)]
pub struct World {
    pub ball: Ball,
    pub paddles: Vec<Paddle>,
    pub walls: Vec<Wall>,
}

/// The boxes that the ball can strike: the paddles in their order, then the
/// walls in theirs.
pub open spec fn colliders_of(paddles: Seq<Paddle>, walls: Seq<Wall>) -> Seq<Transform> {
    Seq::new(
        paddles.len() + walls.len(),
        |i: int|
            if i < paddles.len() {
                paddles[i].transform
            } else {
                walls[i - paddles.len()].transform
            },
    )
}

/// The paddle `after` is what one tick makes of `before`, for a ball that
/// the tick has moved to the height `ball_y`.
///
/// A paddle of the player has moved by the player's intent. A paddle of the
/// computer has first updated its perception of the ball and then moved
/// toward the target that this update left it with.
pub open spec fn paddle_ticked(
    before: Paddle,
    after: Paddle,
    ball_y: i64,
    intent: i64,
    elapsed_time: u64,
    dt: u64,
) -> bool {
    match before.role {
        Role::Player => after == (Paddle {
            transform: moved_paddle(before.transform, intent as int, dt as int),
            role: Role::Player,
        }),
        Role::Computer(state) => match after.role {
            Role::Player => false,
            Role::Computer(next) => {
                &&& perceives(state, next, ball_y, elapsed_time, dt)
                &&& after.transform == pursuing(before.transform, next.target_y as int, dt as int)
            },
        },
    }
}

impl World {
    /// The ball's velocity can be reflected, and the state of every
    /// computer paddle is sound.
    pub open spec fn wf(self) -> bool {
        &&& self.ball.velocity.wf()
        &&& forall|i: int|
            0 <= i < self.paddles@.len() ==> match (#[trigger] self.paddles@[i]).role {
                Role::Player => true,
                Role::Computer(state) => state.wf(),
            }
    }

    /// The boxes that the ball can strike.
    pub open spec fn colliders(self) -> Seq<Transform> {
        colliders_of(self.paddles@, self.walls@)
    }

    /// Whether the world can be advanced by `dt` microseconds: the ball's
    /// new position, and every reading that a computer paddle may take of
    /// it, are positions that an `i64` can hold.
    pub open spec fn can_tick(self, dt: u64) -> bool {
        &&& can_move(self.ball.transform, self.ball.velocity, dt)
        &&& forall|i: int|
            0 <= i < self.paddles@.len() ==> match (#[trigger] self.paddles@[i]).role {
                Role::Player => true,
                Role::Computer(state) => can_perceive(
                    moved_body(self.ball.transform, self.ball.velocity, dt).translation.y,
                    state.difficulty.spec_error_margin(),
                ),
            }
    }

    /// The world `after` is what one tick of `dt` microseconds makes of this
    /// one, with the player's `intent`, at the simulation time
    /// `elapsed_time`.
    ///
    /// The ball has moved along its velocity. Every paddle has made its
    /// move, a computer paddle after it has updated its perception of the
    /// moved ball. Then the ball's velocity was reflected off every
    /// collider that the moved ball touches, the paddles where they now
    /// are. The walls are as they were.
    pub open spec fn ticked(
        self,
        after: World,
        intent: i64,
        elapsed_time: u64,
        dt: u64,
    ) -> bool {
        &&& after.ball.transform == moved_body(self.ball.transform, self.ball.velocity, dt)
        &&& after.walls@ == self.walls@
        &&& after.paddles@.len() == self.paddles@.len()
        &&& forall|i: int|
            0 <= i < self.paddles@.len() ==> paddle_ticked(
                self.paddles@[i],
                #[trigger] after.paddles@[i],
                after.ball.transform.translation.y,
                intent,
                elapsed_time,
                dt,
            )
        &&& after.ball.velocity == resolved(
            self.ball.velocity,
            after.ball.transform.translation,
            after.colliders(),
        )
    }

    /// Lists the boxes that the ball can strike: the paddles in their
    /// order, then the walls in theirs.
    pub fn collider_list(&self) -> (list: Vec<Transform>)
        ensures
            list@ == self.colliders(),
    {
        let mut list: Vec<Transform> = Vec::new();
        let mut i: usize = 0;
        while i < self.paddles.len()
            invariant
                i <= self.paddles.len(),
                list@.len() == i,
                forall|j: int| 0 <= j < i ==> #[trigger] list@[j] == self.paddles@[j].transform,
            decreases self.paddles.len() - i,
        {
            list.push(self.paddles[i].transform);
            i += 1;
        }
        let mut k: usize = 0;
        while k < self.walls.len()
            invariant
                k <= self.walls.len(),
                list@.len() == self.paddles.len() + k,
                forall|j: int|
                    0 <= j < self.paddles.len() ==> #[trigger] list@[j]
                        == self.paddles@[j].transform,
                forall|j: int|
                    0 <= j < k ==> #[trigger] list@[self.paddles.len() + j]
                        == self.walls@[j].transform,
            decreases self.walls.len() - k,
        {
            list.push(self.walls[k].transform);
            k += 1;
        }
        proof {
            assert forall|j: int| 0 <= j < list@.len() implies list@[j] == self.colliders()[j] by {
                if j >= self.paddles.len() {
                    let w = j - self.paddles.len();
                    assert(list@[self.paddles.len() + w] == self.walls@[w].transform);
                }
            }
            assert(list@ =~= self.colliders());
        }
        list
    }

    /// Tells whether the world is sound, which `tick` asks of it and keeps.
    pub fn is_sound(&self) -> (ok: bool)
        ensures
            ok == self.wf(),
    {
        if !self.ball.velocity.is_sound() {
            return false;
        }
        let mut i: usize = 0;
        while i < self.paddles.len()
            invariant
                i <= self.paddles.len(),
                forall|j: int|
                    0 <= j < i ==> match (#[trigger] self.paddles@[j]).role {
                        Role::Player => true,
                        Role::Computer(state) => state.wf(),
                    },
            decreases self.paddles.len() - i,
        {
            if let Role::Computer(state) = self.paddles[i].role {
                if !state.is_sound() {
                    return false;
                }
            }
            i += 1;
        }
        true
    }

    /// Tells whether `tick` may be called with this `delta_time`.
    pub fn is_ready(&self, delta_time: u64) -> (ok: bool)
        ensures
            ok == self.can_tick(delta_time),
    {
        if !can_apply_velocity(&self.ball.transform, &self.ball.velocity, delta_time) {
            return false;
        }
        let mut moved = self.ball.transform;
        apply_velocity(&mut moved, &self.ball.velocity, delta_time);
        let ball_y = moved.translation.y;
        let mut i: usize = 0;
        while i < self.paddles.len()
            invariant
                i <= self.paddles.len(),
                ball_y == moved_body(
                    self.ball.transform,
                    self.ball.velocity,
                    delta_time,
                ).translation.y,
                forall|j: int|
                    0 <= j < i ==> match (#[trigger] self.paddles@[j]).role {
                        Role::Player => true,
                        Role::Computer(state) => can_perceive(
                            ball_y,
                            state.difficulty.spec_error_margin(),
                        ),
                    },
            decreases self.paddles.len() - i,
        {
            if let Role::Computer(state) = self.paddles[i].role {
                if !can_read_ball(ball_y, state.difficulty.error_margin()) {
                    return false;
                }
            }
            i += 1;
        }
        true
    }

    /// Advances the world by one tick of `delta_time` microseconds.
    ///
    /// The stages run in a fixed order: the ball moves; the player's
    /// paddles follow the `intent`; the computer paddles update their
    /// perception of the ball where it now is; the computer paddles move;
    /// and the ball's collisions are resolved. The notices of the
    /// collisions are returned, one for each collider that the ball
    /// touches.
    pub fn tick(
        &mut self,
        intent: i64,
        elapsed_time: u64,
        delta_time: u64,
        rng: &mut StdRng,
    ) -> (events: Vec<CollisionEvent>)
        requires
            old(self).wf(),
            old(self).can_tick(delta_time),
            -1 <= intent <= 1,
        ensures
            old(self).ticked(*final(self), intent, elapsed_time, delta_time),
            events@ == collisions(
                final(self).ball.transform.translation,
                final(self).colliders(),
            ),
            final(self).wf(),
            forall|i: int|
                0 <= i < final(self).paddles@.len() ==> within_bounds(
                    (#[trigger] final(self).paddles@[i]).transform,
                ),
    {
        apply_velocity(&mut self.ball.transform, &self.ball.velocity, delta_time);
        let ball_y = self.ball.transform.translation.y;
        player_movement(&mut self.paddles, intent, delta_time);
        let ghost after_player = self.paddles@;
        proof {
            assert forall|i: int| 0 <= i < after_player.len() implies can_retarget(
                after_player[i],
                ball_y,
            ) by {
                assert(after_player[i] == player_moved(
                    old(self).paddles@[i],
                    intent as int,
                    delta_time as int,
                ));
            }
        }
        update_computer_targets(&mut self.paddles, ball_y, elapsed_time, delta_time, rng);
        let ghost after_perception = self.paddles@;
        computer_movement(&mut self.paddles, delta_time);
        let colliders = self.collider_list();
        let events = check_for_collisions(
            &mut self.ball.velocity,
            &self.ball.transform,
            &colliders,
        );
        proof {
            assert forall|i: int| 0 <= i < old(self).paddles@.len() implies paddle_ticked(
                old(self).paddles@[i],
                #[trigger] self.paddles@[i],
                ball_y,
                intent,
                elapsed_time,
                delta_time,
            ) && within_bounds(self.paddles@[i].transform) && match self.paddles@[i].role {
                Role::Player => true,
                Role::Computer(state) => state.wf(),
            } by {
                assert(after_player[i] == player_moved(
                    old(self).paddles@[i],
                    intent as int,
                    delta_time as int,
                ));
                assert(retargeted(
                    after_player[i],
                    after_perception[i],
                    ball_y,
                    elapsed_time,
                    delta_time,
                ));
                assert(self.paddles@[i] == computer_moved(after_perception[i], delta_time as int));
            }
        }
        events
    }
}

} // verus!
