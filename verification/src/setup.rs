//! The world at the start of a game.

use vstd::prelude::*;
use crate::ai::{ComputerState, Difficulty};
use crate::constants::{
    BTM_WALL,
    INITIAL_BALL_VELOCITY_X,
    INITIAL_BALL_VELOCITY_Y,
    LEFT_WALL,
    PADDLE_HEIGHT,
    PADDLE_PADDING,
    PADDLE_WIDTH,
    RIGHT_WALL,
    TOP_WALL,
    UNIT,
    WALL_THICKNESS,
};
use crate::game::World;
use crate::math::Vec2;
use crate::physics::{Ball, Paddle, Role, Transform, Velocity};

verus! {

/// Which of the four walls of the arena.
#[derive(Clone, Copy, Debug, PartialEq, Eq, Structural)]
pub enum WallLocation {
    Left,
    Right,
    Bottom,
    Top,
}

impl WallLocation {
    /// Centre of the wall.
    pub open spec fn spec_position(self) -> Vec2 {
        match self {
            WallLocation::Left => Vec2 { x: LEFT_WALL, y: 0 },
            WallLocation::Right => Vec2 { x: RIGHT_WALL, y: 0 },
            WallLocation::Bottom => Vec2 { x: 0, y: BTM_WALL },
            WallLocation::Top => Vec2 { x: 0, y: TOP_WALL },
        }
    }

    /// Width and height of the wall. Each wall is as thick as
    /// `WALL_THICKNESS` and longer than the arena by as much, so that the
    /// walls close the corners.
    pub open spec fn spec_size(self) -> Vec2 {
        match self {
            WallLocation::Left | WallLocation::Right => Vec2 {
                x: WALL_THICKNESS,
                y: (TOP_WALL - BTM_WALL + WALL_THICKNESS) as i64,
            },
            WallLocation::Bottom | WallLocation::Top => Vec2 {
                x: (RIGHT_WALL - LEFT_WALL + WALL_THICKNESS) as i64,
                y: WALL_THICKNESS,
            },
        }
    }

    /// Centre of the wall.
    pub fn position(&self) -> (center: Vec2)
        ensures
            center == self.spec_position(),
    {
        match self {
            WallLocation::Left => Vec2 { x: LEFT_WALL, y: 0 },
            WallLocation::Right => Vec2 { x: RIGHT_WALL, y: 0 },
            WallLocation::Bottom => Vec2 { x: 0, y: BTM_WALL },
            WallLocation::Top => Vec2 { x: 0, y: TOP_WALL },
        }
    }

    /// Width and height of the wall.
    pub fn size(&self) -> (size: Vec2)
        ensures
            size == self.spec_size(),
            size.x > 0,
            size.y > 0,
    {
        let arena_height = TOP_WALL - BTM_WALL;
        let arena_width = RIGHT_WALL - LEFT_WALL;
        assert(arena_height > 0);
        assert(arena_width > 0);
        match self {
            WallLocation::Left | WallLocation::Right => Vec2 {
                x: WALL_THICKNESS,
                y: arena_height + WALL_THICKNESS,
            },
            WallLocation::Bottom | WallLocation::Top => Vec2 {
                x: arena_width + WALL_THICKNESS,
                y: WALL_THICKNESS,
            },
        }
    }
}

/// A wall of the arena.
#[derive(Clone, Copy, Debug, PartialEq, Eq, Structural)]
pub struct Wall {
    pub transform: Transform,
}

impl Wall {
    /// The wall at `location`.
    pub open spec fn spec_new(location: WallLocation) -> Wall {
        Wall {
            transform: Transform {
                translation: location.spec_position(),
                scale: location.spec_size(),
            },
        }
    }

    /// The wall at `location`.
    pub fn new(location: WallLocation) -> (wall: Wall)
        ensures
            wall == Wall::spec_new(location),
    {
        Wall { transform: Transform { translation: location.position(), scale: location.size() } }
    }
}

/// Distance of a paddle's centre from the centre line of the arena: the
/// paddle stands inside the side wall by the wall's thickness and the
/// padding.
pub open spec fn paddle_distance() -> int {
    -(LEFT_WALL + WALL_THICKNESS + PADDLE_PADDING)
}

/// The paddle that starts at the horizontal position `x` in the given role,
/// halfway between the top and bottom walls.
pub open spec fn initial_paddle(x: int, role: Role) -> Paddle {
    Paddle {
        transform: Transform {
            translation: Vec2 { x: x as i64, y: 0 },
            scale: Vec2 { x: PADDLE_WIDTH, y: PADDLE_HEIGHT },
        },
        role,
    }
}

/// The ball at the start of a game: at rest in the middle of the arena,
/// about to fall to the right.
pub open spec fn initial_ball() -> Ball {
    Ball {
        transform: Transform {
            translation: Vec2 { x: 0, y: 0 },
            scale: Vec2 { x: UNIT, y: UNIT },
        },
        velocity: Velocity(Vec2 { x: INITIAL_BALL_VELOCITY_X, y: INITIAL_BALL_VELOCITY_Y }),
    }
}

/// Builds the world at the start of a game.
///
/// The player's paddle stands on the left and the computer's paddle, of
/// medium strength, on the right, each halfway up the arena. The ball
/// starts in the middle. The four walls follow in the order bottom, top,
/// left, right.
pub fn setup() -> (world: World)
    ensures
        world.ball == initial_ball(),
        world.paddles@ == seq![
            initial_paddle(-paddle_distance(), Role::Player),
            initial_paddle(
                paddle_distance(),
                Role::Computer(ComputerState::spec_new(Difficulty::Medium)),
            ),
        ],
        world.walls@ == seq![
            Wall::spec_new(WallLocation::Bottom),
            Wall::spec_new(WallLocation::Top),
            Wall::spec_new(WallLocation::Left),
            Wall::spec_new(WallLocation::Right),
        ],
        world.wf(),
{
    let paddle_x = LEFT_WALL + WALL_THICKNESS + PADDLE_PADDING;
    let paddle_scale = Vec2 { x: PADDLE_WIDTH, y: PADDLE_HEIGHT };
    let mut paddles: Vec<Paddle> = Vec::new();
    paddles.push(
        Paddle {
            transform: Transform { translation: Vec2 { x: paddle_x, y: 0 }, scale: paddle_scale },
            role: Role::Player,
        },
    );
    paddles.push(
        Paddle {
            transform: Transform { translation: Vec2 { x: -paddle_x, y: 0 }, scale: paddle_scale },
            role: Role::Computer(ComputerState::new(Difficulty::Medium)),
        },
    );
    let ball = Ball {
        transform: Transform {
            translation: Vec2 { x: 0, y: 0 },
            scale: Vec2 { x: UNIT, y: UNIT },
        },
        velocity: Velocity(Vec2 { x: INITIAL_BALL_VELOCITY_X, y: INITIAL_BALL_VELOCITY_Y }),
    };
    let mut walls: Vec<Wall> = Vec::new();
    walls.push(Wall::new(WallLocation::Bottom));
    walls.push(Wall::new(WallLocation::Top));
    walls.push(Wall::new(WallLocation::Left));
    walls.push(Wall::new(WallLocation::Right));
    let world = World { ball, paddles, walls };
    proof {
        assert(world.paddles@ =~= seq![
            initial_paddle(-paddle_distance(), Role::Player),
            initial_paddle(
                paddle_distance(),
                Role::Computer(ComputerState::spec_new(Difficulty::Medium)),
            ),
        ]);
        assert(world.walls@ =~= seq![
            Wall::spec_new(WallLocation::Bottom),
            Wall::spec_new(WallLocation::Top),
            Wall::spec_new(WallLocation::Left),
            Wall::spec_new(WallLocation::Right),
        ]);
    }
    world
}

} // verus!
