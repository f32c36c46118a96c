//! The computer opponent: what it believes about the ball, and how it moves
//! its paddle after that belief.
//!
//! The opponent does not follow the ball itself. At the end of each reaction
//! period it takes a fresh, inexact reading of the ball's height and makes
//! it its target; between readings it keeps moving toward the last one. A
//! shorter period and a smaller error make a stronger opponent.

use rand::Rng;
use rand::rngs::StdRng;
use vstd::prelude::*;
use crate::constants::{PADDLE_HEIGHT, PADDLE_PADDING, PADDLE_SPEED};
use crate::math::{Vec2, abs_int, clamp_int, lemma_reach_bound, min_int};
use crate::movement::{Arena, clamp_paddle_y, lower_bound, upper_bound, within_bounds};
use crate::physics::{Paddle, Role, Transform};
use crate::timer::Timer;

verus! {

/// `rand::rngs::StdRng`, the generator that the opponent's errors are drawn
/// from. It can be seeded, so that a game can be played again as it was.
/// Nothing is known of what it holds.
#[verifier::external_type_specification]
#[verifier::external_body]
pub struct ExStdRng(StdRng);

/// Strength of the computer opponent.
#[derive(Clone, Copy, Debug, PartialEq, Eq, Structural)]
pub enum Difficulty {
    Easy,
    Medium,
    Hard,
    Impossible,
}

impl Difficulty {
    /// Share of its chances that the opponent takes, in percent. Nothing in
    /// the opponent's perception or motion reads it.
    pub open spec fn spec_accuracy_factor(self) -> u64 {
        match self {
            Difficulty::Easy => 60,
            Difficulty::Medium => 75,
            Difficulty::Hard => 80,
            Difficulty::Impossible => 95,
        }
    }

    /// Time between two readings of the ball, in microseconds.
    pub open spec fn spec_reaction_time(self) -> u64 {
        match self {
            Difficulty::Easy => 1_000_000,
            Difficulty::Medium => 400_000,
            Difficulty::Hard => 200_000,
            Difficulty::Impossible => 0,
        }
    }

    /// Largest error of a reading of the ball's height, in length units.
    pub open spec fn spec_error_margin(self) -> i64 {
        match self {
            Difficulty::Easy => 400_000,
            Difficulty::Medium => 250_000,
            Difficulty::Hard => 100_000,
            Difficulty::Impossible => 0,
        }
    }

    /// How far ahead the opponent looks, in microseconds. Nothing in the
    /// opponent's perception or motion reads it.
    pub open spec fn spec_prediction_horizon(self) -> u64 {
        match self {
            Difficulty::Easy => 200_000,
            Difficulty::Medium => 500_000,
            Difficulty::Hard => 1_000_000,
            Difficulty::Impossible => 1_500_000,
        }
    }

    /// Share of its chances that the opponent takes, in percent.
    pub fn accuracy_factor(&self) -> (percent: u64)
        ensures
            percent == self.spec_accuracy_factor(),
    {
        match self {
            Difficulty::Easy => 60,
            Difficulty::Medium => 75,
            Difficulty::Hard => 80,
            Difficulty::Impossible => 95,
        }
    }

    /// Time between two readings of the ball, in microseconds.
    pub fn reaction_time(&self) -> (period: u64)
        ensures
            period == self.spec_reaction_time(),
    {
        match self {
            Difficulty::Easy => 1_000_000,
            Difficulty::Medium => 400_000,
            Difficulty::Hard => 200_000,
            Difficulty::Impossible => 0,
        }
    }

    /// Largest error of a reading of the ball's height, in length units.
    pub fn error_margin(&self) -> (margin: i64)
        ensures
            margin == self.spec_error_margin(),
            0 <= margin <= 400_000,
    {
        match self {
            Difficulty::Easy => 400_000,
            Difficulty::Medium => 250_000,
            Difficulty::Hard => 100_000,
            Difficulty::Impossible => 0,
        }
    }

    /// How far ahead the opponent looks, in microseconds.
    pub fn prediction_horizon(&self) -> (horizon: u64)
        ensures
            horizon == self.spec_prediction_horizon(),
    {
        match self {
            Difficulty::Easy => 200_000,
            Difficulty::Medium => 500_000,
            Difficulty::Hard => 1_000_000,
            Difficulty::Impossible => 1_500_000,
        }
    }
}

/// What one computer paddle believes and pursues.
#[derive(Clone, Copy, Debug, PartialEq, Eq, Structural)]
pub struct ComputerState {
    /// Height that the paddle moves toward. Only a reading of the ball
    /// writes it.
    pub target_y: i64,
    /// The last reading of the ball's height.
    pub perceived_ball_y: i64,
    /// Kept for the bookkeeping of callers; the opponent does not write it.
    pub last_update_time: u64,
    /// Simulation time of the last reading.
    pub last_reaction_time: u64,
    /// Strength of this opponent.
    pub difficulty: Difficulty,
    /// Counts the time to the next reading.
    pub reaction_timer: Timer,
}

/// Calls `rand::Rng::random_range` on the inclusive range from `low` to
/// `high`. The range is not empty, so the call does not panic, and what it
/// returns lies in the range. Nothing more is claimed of the value: it
/// depends on the state of the generator.
#[verifier::external_body]
fn random_in_range(rng: &mut StdRng, low: i64, high: i64) -> (value: i64)
    requires
        low <= high,
    ensures
        low <= value <= high,
{
    rng.random_range(low..=high)
}

/// Whether a reading of a ball at height `ball_y` is a position that an
/// `i64` can hold, whatever error within `margin` it carries.
pub open spec fn can_perceive(ball_y: i64, margin: i64) -> bool {
    i64::MIN <= ball_y - margin && ball_y + margin <= i64::MAX
}

/// The state `after` is what one perception update makes of `before`, for a
/// ball at height `ball_y`, at simulation time `elapsed_time`, `dt`
/// microseconds after the update before it.
///
/// The timer has advanced by `dt`. Where it completed a period, the state
/// holds a fresh reading that is off the ball's height by no more than the
/// difficulty's error margin, the target is that reading, and the time of
/// the reading is `elapsed_time`. Where it did not, target, reading and
/// time are those of `before`.
pub open spec fn perceives(
    before: ComputerState,
    after: ComputerState,
    ball_y: i64,
    elapsed_time: u64,
    dt: u64,
) -> bool {
    &&& after.reaction_timer == before.reaction_timer.ticked(dt)
    &&& after.difficulty == before.difficulty
    &&& after.last_update_time == before.last_update_time
    &&& if after.reaction_timer.finished {
        &&& ball_y - before.difficulty.spec_error_margin() <= after.perceived_ball_y <= ball_y
            + before.difficulty.spec_error_margin()
        &&& after.target_y == after.perceived_ball_y
        &&& after.last_reaction_time == elapsed_time
    } else {
        &&& after.perceived_ball_y == before.perceived_ball_y
        &&& after.target_y == before.target_y
        &&& after.last_reaction_time == before.last_reaction_time
    }
}

impl ComputerState {
    /// The timer is sound and runs at the difficulty's reaction time.
    pub open spec fn wf(self) -> bool {
        &&& self.reaction_timer.wf()
        &&& self.reaction_timer.period == self.difficulty.spec_reaction_time()
    }

    /// The state after a reading of `perceived` at time `elapsed_time`.
    pub open spec fn resampled(self, perceived: i64, elapsed_time: u64) -> ComputerState {
        ComputerState {
            target_y: perceived,
            perceived_ball_y: perceived,
            last_reaction_time: elapsed_time,
            ..self
        }
    }

    /// The state of an opponent of the given strength that has not read the
    /// ball yet: it aims at the middle of the arena, and its timer starts
    /// its first period.
    pub open spec fn spec_new(difficulty: Difficulty) -> ComputerState {
        ComputerState {
            target_y: 0,
            perceived_ball_y: 0,
            last_update_time: 0,
            last_reaction_time: 0,
            difficulty,
            reaction_timer: Timer {
                period: difficulty.spec_reaction_time(),
                elapsed: 0,
                finished: false,
                times_finished_this_tick: 0,
            },
        }
    }

    /// The state of an opponent of the given strength that has not read the
    /// ball yet.
    pub fn new(difficulty: Difficulty) -> (state: ComputerState)
        ensures
            state == ComputerState::spec_new(difficulty),
            state.wf(),
    {
        ComputerState {
            target_y: 0,
            perceived_ball_y: 0,
            last_update_time: 0,
            last_reaction_time: 0,
            difficulty,
            reaction_timer: Timer::new(difficulty.reaction_time()),
        }
    }

    /// Tells whether the state is sound, which is what `update_perception`
    /// asks of it.
    pub fn is_sound(&self) -> (ok: bool)
        ensures
            ok == self.wf(),
    {
        self.reaction_timer.is_sound() && self.reaction_timer.period
            == self.difficulty.reaction_time()
    }

    /// Takes an inexact reading of the height `actual_y`: the height plus an
    /// error drawn from `rng`, evenly from all errors up to the difficulty's
    /// error margin in either direction.
    pub fn calculate_target(&self, actual_y: i64, rng: &mut StdRng) -> (perceived: i64)
        requires
            can_perceive(actual_y, self.difficulty.spec_error_margin()),
        ensures
            actual_y - self.difficulty.spec_error_margin() <= perceived <= actual_y
                + self.difficulty.spec_error_margin(),
    {
        let error_margin = self.difficulty.error_margin();
        let offset = random_in_range(rng, -error_margin, error_margin);
        read_with_error(actual_y, offset)
    }

    /// Records a reading of the ball: the reading becomes the target, and
    /// its time is kept.
    pub fn resample(&mut self, perceived: i64, elapsed_time: u64)
        ensures
            *final(self) == old(self).resampled(perceived, elapsed_time),
    {
        self.perceived_ball_y = perceived;
        self.target_y = perceived;
        self.last_reaction_time = elapsed_time;
    }

    /// The perception phase of one tick.
    ///
    /// Advances the reaction timer by `delta_time`. Where the timer
    /// completed a period, a fresh reading of the ball at `current_ball_y`
    /// is taken and becomes the target; where it did not, the opponent
    /// keeps its old target. An opponent whose reaction time is zero reads
    /// the ball on every tick.
    pub fn update_perception(
        &mut self,
        current_ball_y: i64,
        elapsed_time: u64,
        delta_time: u64,
        rng: &mut StdRng,
    )
        requires
            old(self).wf(),
            can_perceive(current_ball_y, old(self).difficulty.spec_error_margin()),
        ensures
            perceives(*old(self), *final(self), current_ball_y, elapsed_time, delta_time),
            final(self).wf(),
            old(self).difficulty.spec_reaction_time() == 0 ==> final(self).reaction_timer.finished,
    {
        self.reaction_timer.tick(delta_time);
        if self.reaction_timer.finished() {
            let perceived = self.calculate_target(current_ball_y, rng);
            self.resample(perceived, elapsed_time);
        }
    }
}

/// An opponent whose reaction time is zero reads the ball on every tick,
/// and is ready to do so again on the next: after any perception update
/// its timer has completed, its target is a reading of the ball within the
/// error margin, taken at the time of the update, and its state is sound.
pub proof fn zero_reaction_time_resamples_every_tick(
    before: ComputerState,
    after: ComputerState,
    ball_y: i64,
    elapsed_time: u64,
    dt: u64,
)
    requires
        before.wf(),
        before.difficulty.spec_reaction_time() == 0,
        perceives(before, after, ball_y, elapsed_time, dt),
    ensures
        after.reaction_timer.finished,
        ball_y - before.difficulty.spec_error_margin() <= after.target_y <= ball_y
            + before.difficulty.spec_error_margin(),
        after.last_reaction_time == elapsed_time,
        after.wf(),
        after.difficulty.spec_reaction_time() == 0,
{
}

/// The reading of a ball at height `actual_y` that is off by `offset`.
pub open spec fn reading(actual_y: int, offset: int) -> int {
    actual_y + offset
}

/// Makes the reading of a ball at height `actual_y` out of the error
/// `offset` that was drawn for it: the height plus the error.
pub fn read_with_error(actual_y: i64, offset: i64) -> (perceived: i64)
    requires
        i64::MIN <= reading(actual_y as int, offset as int) <= i64::MAX,
    ensures
        perceived == reading(actual_y as int, offset as int),
{
    actual_y + offset
}

/// Tells whether a reading of a ball at height `ball_y` can be held,
/// whatever error within `margin` it carries.
pub fn can_read_ball(ball_y: i64, margin: i64) -> (ok: bool)
    ensures
        ok == can_perceive(ball_y, margin),
{
    let low = ball_y as i128 - margin as i128;
    let high = ball_y as i128 + margin as i128;
    i64::MIN as i128 <= low && high <= i64::MAX as i128
}

/// An opponent whose error margin is zero reads the ball exactly: whenever
/// its timer completes, its target is the ball's height.
pub proof fn zero_error_margin_reads_the_ball_exactly(
    before: ComputerState,
    after: ComputerState,
    ball_y: i64,
    elapsed_time: u64,
    dt: u64,
)
    requires
        before.difficulty.spec_error_margin() == 0,
        perceives(before, after, ball_y, elapsed_time, dt),
        after.reaction_timer.finished,
    ensures
        after.target_y == ball_y,
        after.perceived_ball_y == ball_y,
{
}

/// A paddle that seeks a target never passes it: it stays between where it
/// was and the target, covers no more than `speed * dt`, and is at the
/// target where the target is within that length.
pub proof fn seeking_never_overshoots(current: int, target: int, speed: int, dt: int)
    requires
        0 <= speed,
        0 <= dt,
    ensures
        current <= target ==> current <= sought(current, target, speed, dt) <= target,
        target <= current ==> target <= sought(current, target, speed, dt) <= current,
        abs_int(sought(current, target, speed, dt) - current) <= speed * dt,
        abs_int(target - current) <= speed * dt ==> sought(current, target, speed, dt) == target,
{
    assert(0 <= speed * dt) by (nonlinear_arith)
        requires
            0 <= speed,
            0 <= dt,
    ;
}

/// Where a paddle at `current` is after it moved toward `target` at `speed`
/// for `dt` microseconds: it covers the distance to the target or the
/// length `speed * dt`, whichever is shorter.
pub open spec fn sought(current: int, target: int, speed: int, dt: int) -> int {
    let step = min_int(abs_int(target - current), speed * dt);
    if target > current {
        current + step
    } else if target < current {
        current - step
    } else {
        current
    }
}

/// The motion phase of one tick, before the paddle is held within the
/// arena: moves from `current_y` toward `target_y` at `speed` for
/// `delta_time` microseconds.
///
/// The paddle never passes its target within one call, and never covers
/// more than `speed * delta_time`.
pub fn seek_target(current_y: i64, target_y: i64, speed: u64, delta_time: u64) -> (new_y: i64)
    ensures
        new_y == sought(current_y as int, target_y as int, speed as int, delta_time as int),
        current_y <= target_y ==> current_y <= new_y <= target_y,
        target_y <= current_y ==> target_y <= new_y <= current_y,
        abs_int(new_y - current_y) <= speed * delta_time,
{
    proof {
        lemma_reach_bound(speed as int, delta_time as int);
    }
    let reach: u128 = speed as u128 * delta_time as u128;
    if target_y > current_y {
        let distance: u128 = (target_y as i128 - current_y as i128) as u128;
        if distance <= reach {
            target_y
        } else {
            (current_y as i128 + reach as i128) as i64
        }
    } else if target_y < current_y {
        let distance: u128 = (current_y as i128 - target_y as i128) as u128;
        if distance <= reach {
            target_y
        } else {
            (current_y as i128 - reach as i128) as i64
        }
    } else {
        current_y
    }
}

/// Where a computer paddle of the game at `current` is after one motion
/// phase of `dt` microseconds toward `target`: it seeks the target at
/// `PADDLE_SPEED` and is then held within the bounds of the game's arena.
pub open spec fn pursued(current: int, target: int, dt: int) -> int {
    clamp_int(
        sought(current, target, PADDLE_SPEED as int, dt),
        lower_bound(Arena::spec_standard(), PADDLE_HEIGHT / 2, PADDLE_PADDING as int),
        upper_bound(Arena::spec_standard(), PADDLE_HEIGHT / 2, PADDLE_PADDING as int),
    )
}

/// A computer paddle of the game after one motion phase toward `target`.
/// Only its height changes.
pub open spec fn pursuing(transform: Transform, target: int, dt: int) -> Transform {
    Transform {
        translation: Vec2 {
            x: transform.translation.x,
            y: pursued(transform.translation.y as int, target, dt) as i64,
        },
        scale: transform.scale,
    }
}

/// The motion phase of one tick for one computer paddle: moves the paddle
/// toward the target of `computer_state` and holds it within the arena.
/// The target itself is not changed.
pub fn pursue_target(transform: &mut Transform, computer_state: &ComputerState, delta_time: u64)
    ensures
        *final(transform) == pursuing(
            *old(transform),
            computer_state.target_y as int,
            delta_time as int,
        ),
        within_bounds(*final(transform)),
{
    let sought_y = seek_target(
        transform.translation.y,
        computer_state.target_y,
        PADDLE_SPEED,
        delta_time,
    );
    let arena = Arena::standard();
    transform.translation.y = clamp_paddle_y(
        sought_y,
        0,
        PADDLE_SPEED,
        delta_time,
        &arena,
        PADDLE_HEIGHT / 2,
        PADDLE_PADDING,
    );
}

/// A paddle may take part in a perception update for a ball at height
/// `ball_y`: if the computer moves it, its state is sound and its reading
/// of the ball can be held.
pub open spec fn can_retarget(paddle: Paddle, ball_y: i64) -> bool {
    match paddle.role {
        Role::Player => true,
        Role::Computer(state) => state.wf() && can_perceive(
            ball_y,
            state.difficulty.spec_error_margin(),
        ),
    }
}

/// The paddle `after` is what one perception update makes of `before`: a
/// paddle of the player is as it was, and a paddle of the computer has not
/// moved and carries a state that `perceives` allows.
pub open spec fn retargeted(
    before: Paddle,
    after: Paddle,
    ball_y: i64,
    elapsed_time: u64,
    dt: u64,
) -> bool {
    match before.role {
        Role::Player => after == before,
        Role::Computer(state) => {
            &&& after.transform == before.transform
            &&& match after.role {
                Role::Player => false,
                Role::Computer(next) => next.wf() && perceives(
                    state,
                    next,
                    ball_y,
                    elapsed_time,
                    dt,
                ),
            }
        },
    }
}

/// The perception phase of one tick for all paddles: each computer paddle
/// advances its reaction timer and, where the timer completed a period,
/// takes a fresh reading of the ball at height `ball_y`.
pub fn update_computer_targets(
    paddles: &mut Vec<Paddle>,
    ball_y: i64,
    elapsed_time: u64,
    delta_time: u64,
    rng: &mut StdRng,
)
    requires
        forall|i: int| 0 <= i < old(paddles)@.len() ==> can_retarget(old(paddles)@[i], ball_y),
    ensures
        final(paddles)@.len() == old(paddles)@.len(),
        forall|i: int|
            0 <= i < old(paddles)@.len() ==> retargeted(
                old(paddles)@[i],
                #[trigger] final(paddles)@[i],
                ball_y,
                elapsed_time,
                delta_time,
            ),
{
    let mut i: usize = 0;
    while i < paddles.len()
        invariant
            i <= paddles.len(),
            paddles@.len() == old(paddles)@.len(),
            forall|j: int|
                0 <= j < i ==> retargeted(
                    old(paddles)@[j],
                    #[trigger] paddles@[j],
                    ball_y,
                    elapsed_time,
                    delta_time,
                ),
            forall|j: int| i <= j < paddles@.len() ==> #[trigger] paddles@[j] == old(paddles)@[j],
            forall|j: int| 0 <= j < old(paddles)@.len() ==> can_retarget(old(paddles)@[j], ball_y),
        decreases paddles.len() - i,
    {
        let paddle = paddles[i];
        if let Role::Computer(mut computer_state) = paddle.role {
            computer_state.update_perception(ball_y, elapsed_time, delta_time, rng);
            paddles[i] = Paddle { transform: paddle.transform, role: Role::Computer(computer_state) };
        }
        i += 1;
    }
}

/// A paddle after the computer's motion phase of one tick: a paddle of the
/// computer has moved toward its target, a paddle of the player is as it
/// was. No state changes.
pub open spec fn computer_moved(paddle: Paddle, dt: int) -> Paddle {
    match paddle.role {
        Role::Player => paddle,
        Role::Computer(state) => Paddle {
            transform: pursuing(paddle.transform, state.target_y as int, dt),
            role: paddle.role,
        },
    }
}

/// The motion phase of one tick for all paddles: each computer paddle moves
/// toward its target, no farther than the target and no faster than
/// `PADDLE_SPEED`, and is held within the arena.
pub fn computer_movement(paddles: &mut Vec<Paddle>, delta_time: u64)
    ensures
        final(paddles)@.len() == old(paddles)@.len(),
        forall|i: int|
            0 <= i < old(paddles)@.len() ==> #[trigger] final(paddles)@[i] == computer_moved(
                old(paddles)@[i],
                delta_time as int,
            ),
{
    let mut i: usize = 0;
    while i < paddles.len()
        invariant
            i <= paddles.len(),
            paddles@.len() == old(paddles)@.len(),
            forall|j: int|
                0 <= j < i ==> #[trigger] paddles@[j] == computer_moved(
                    old(paddles)@[j],
                    delta_time as int,
                ),
            forall|j: int| i <= j < paddles@.len() ==> #[trigger] paddles@[j] == old(paddles)@[j],
        decreases paddles.len() - i,
    {
        let mut paddle = paddles[i];
        if let Role::Computer(computer_state) = paddle.role {
            pursue_target(&mut paddle.transform, &computer_state, delta_time);
            paddles[i] = paddle;
        }
        i += 1;
    }
}

} // verus!
