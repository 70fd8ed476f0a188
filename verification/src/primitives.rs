//! Value types of the simulation: board constants, the direction algebra,
//! wrap-around grid positions, tick outcomes and error values.

use rand::Rng;
use vstd::prelude::*;

verus! {

/// Number of grid cells along the horizontal axis of the board.
pub const GRID_WIDTH: i16 = 30;

/// Number of grid cells along the vertical axis of the board.
pub const GRID_HEIGHT: i16 = 20;

/// Milliseconds between two simulation ticks (eight ticks per second).
pub const MILLIS_PER_UPDATE: u64 = 125;

/// An "arithmetic" (Euclidean) modulo: unlike the built-in remainder it maps
/// negative values into `[0, n)`, which is what wrap-around coordinate
/// arithmetic needs.
pub trait ModuloSigned: Sized {
    /// Whether `n` may serve as a modulus.
    spec fn valid_modulus(n: Self) -> bool;

    /// The representative of `self` in `[0, n)`.
    spec fn modulo_spec(&self, n: Self) -> Self;

    /// Reduces `self` modulo `n`, wrapping negative values into `[0, n)`.
    fn modulo_signed(&self, n: Self) -> (r: Self)
        requires
            Self::valid_modulus(n),
        ensures
            r == self.modulo_spec(n),
    ;
}

impl ModuloSigned for i16 {
    open spec fn valid_modulus(n: i16) -> bool {
        n > 0
    }

    open spec fn modulo_spec(&self, n: i16) -> i16 {
        ((*self as int) % (n as int)) as i16
    }

    fn modulo_signed(&self, n: i16) -> (r: i16) {
        match self.checked_rem_euclid(n) {
            Some(r) => r,
            // Unreachable: the modulus is positive, so the Euclidean
            // remainder is always defined.
            None => 0,
        }
    }
}

/// Errors reported by the simulation core.
#[derive(Clone, Debug)]
pub enum SnakeError {
    /// A request that breaks a rule of the game logic (such as a 180-degree
    /// turn); reported to the caller, who is free to drop it.
    LogicError(String),
}

/// Result alias for the fallible operations of the core.
pub type SnakeResult<T = ()> = Result<T, SnakeError>;

/// The four directions the snake can move in.
#[derive(Clone, Copy, Debug, PartialEq, Eq, Structural)]
pub enum Direction {
    Left,
    Right,
    Up,
    Down,
}

impl Direction {
    /// The direction opposite to `self`.
    pub open spec fn spec_inverse(self) -> Direction {
        match self {
            Direction::Up => Direction::Down,
            Direction::Down => Direction::Up,
            Direction::Left => Direction::Right,
            Direction::Right => Direction::Left,
        }
    }

    /// Neither equal nor opposite: the two directions meet at a right angle.
    pub open spec fn spec_is_orthogonal_to(self, other: Direction) -> bool {
        self != other && self != other.spec_inverse()
    }

    /// The unit displacement `(dx, dy)` of one step in this direction, with
    /// the vertical axis growing downwards.
    pub open spec fn spec_velocity(self) -> (int, int) {
        match self {
            Direction::Left => (-1int, 0int),
            Direction::Right => (1int, 0int),
            Direction::Up => (0int, -1int),
            Direction::Down => (0int, 1int),
        }
    }

    /// Returns the inverse of this `Direction`.
    pub fn inverse(&self) -> (r: Direction)
        ensures
            r == self.spec_inverse(),
    {
        match self {
            Direction::Up => Direction::Down,
            Direction::Down => Direction::Up,
            Direction::Left => Direction::Right,
            Direction::Right => Direction::Left,
        }
    }

    /// Whether `self` and `other` are neither equal nor inverse.
    pub fn is_orthogonal_to(&self, other: Direction) -> (r: bool)
        ensures
            r == self.spec_is_orthogonal_to(other),
    {
        *self != other && *self != other.inverse()
    }

    /// The unit displacement of one step in this direction.
    pub fn velocity(&self) -> (v: (i16, i16))
        ensures
            (v.0 as int, v.1 as int) == self.spec_velocity(),
    {
        match self {
            Direction::Left => (-1, 0),
            Direction::Right => (1, 0),
            Direction::Up => (0, -1),
            Direction::Down => (0, 1),
        }
    }
}

/// For every direction: taking the inverse twice yields the direction again,
/// the inverse is never the direction itself, and no direction is orthogonal
/// to itself or to its own inverse.
pub proof fn lemma_direction_inverse_orthogonality()
    ensures
        forall|d: Direction| #[trigger] d.spec_inverse().spec_inverse() == d,
        forall|d: Direction| #[trigger] d.spec_inverse() != d,
        forall|d: Direction| !(#[trigger] d.spec_is_orthogonal_to(d)),
        forall|d: Direction| !d.spec_is_orthogonal_to(#[trigger] d.spec_inverse()),
{
}

/// What the snake ate during one tick, if anything.
#[derive(Clone, Copy, Debug, PartialEq, Eq, Structural)]
pub enum Ate {
    Itself,
    Food,
}

/// A location on the grid: a cell of the board.
#[derive(Clone, Copy, Debug, PartialEq, Eq, Structural)]
pub struct GridPosition {
    pub x: i16,
    pub y: i16,
}

impl GridPosition {
    /// Whether the position lies on the board.
    pub open spec fn wf(self) -> bool {
        0 <= self.x < GRID_WIDTH && 0 <= self.y < GRID_HEIGHT
    }

    /// One step from `p` in direction `d`: unit displacement, then each axis
    /// wrapped independently with Euclidean (floor) modulo, so stepping left
    /// from column zero lands in the rightmost column.
    pub open spec fn spec_move(p: GridPosition, d: Direction) -> GridPosition {
        match d {
            Direction::Up => GridPosition { x: p.x, y: ((p.y - 1) % (GRID_HEIGHT as int)) as i16 },
            Direction::Down => GridPosition {
                x: p.x,
                y: ((p.y + 1) % (GRID_HEIGHT as int)) as i16,
            },
            Direction::Left => GridPosition { x: ((p.x - 1) % (GRID_WIDTH as int)) as i16, y: p.y },
            Direction::Right => GridPosition {
                x: ((p.x + 1) % (GRID_WIDTH as int)) as i16,
                y: p.y,
            },
        }
    }

    pub fn new(x: i16, y: i16) -> (p: GridPosition)
        ensures
            p == (GridPosition { x, y }),
    {
        GridPosition { x, y }
    }

    /// `n` successive steps from `p` in direction `d`.
    pub open spec fn spec_iter_move(p: GridPosition, d: Direction, n: nat) -> GridPosition
        decreases n,
    {
        if n == 0 {
            p
        } else {
            Self::spec_move(Self::spec_iter_move(p, d, (n - 1) as nat), d)
        }
    }

    /// Creates a random `GridPosition` from `(0, 0)` inclusive to
    /// `(max_x, max_y)` exclusive.
    ///
    /// Relies on rand's `thread_rng` and `Rng::gen_range(low..high)`: the
    /// sample is drawn from the given range, which must not be empty.
    #[verifier::external_body]
    pub fn random(max_x: i16, max_y: i16) -> (p: GridPosition)
        requires
            0 < max_x,
            0 < max_y,
        ensures
            0 <= p.x < max_x,
            0 <= p.y < max_y,
    {
        let mut rng = rand::thread_rng();
        GridPosition { x: rng.gen_range(0..max_x), y: rng.gen_range(0..max_y) }
    }

    /// Creates a `GridPosition` from another position and a `Direction`,
    /// wrapping around the board edges.
    pub fn new_from_move(position: GridPosition, direction: Direction) -> (p: GridPosition)
        requires
            i16::MIN < position.x < i16::MAX,
            i16::MIN < position.y < i16::MAX,
        ensures
            p == Self::spec_move(position, direction),
            position.wf() ==> p.wf(),
    {
        match direction {
            Direction::Up => GridPosition::new(
                position.x,
                (position.y - 1).modulo_signed(GRID_HEIGHT),
            ),
            Direction::Down => GridPosition::new(
                position.x,
                (position.y + 1).modulo_signed(GRID_HEIGHT),
            ),
            Direction::Left => GridPosition::new(
                (position.x - 1).modulo_signed(GRID_WIDTH),
                position.y,
            ),
            Direction::Right => GridPosition::new(
                (position.x + 1).modulo_signed(GRID_WIDTH),
                position.y,
            ),
        }
    }
}

impl From<(i16, i16)> for GridPosition {
    fn from(pos: (i16, i16)) -> (p: GridPosition) {
        GridPosition { x: pos.0, y: pos.1 }
    }
}

impl vstd::std_specs::convert::FromSpecImpl<(i16, i16)> for GridPosition {
    open spec fn obeys_from_spec() -> bool {
        true
    }

    open spec fn from_spec(pos: (i16, i16)) -> Self {
        GridPosition { x: pos.0, y: pos.1 }
    }
}

/// After `k` upward steps from an on-board position, the column is unchanged
/// and the row is the starting row minus `k`, wrapped into the board height.
proof fn lemma_up_steps(p: GridPosition, k: nat)
    requires
        p.wf(),
    ensures
        GridPosition::spec_iter_move(p, Direction::Up, k).x == p.x,
        GridPosition::spec_iter_move(p, Direction::Up, k).y as int == (p.y - k) % (
        GRID_HEIGHT as int),
    decreases k,
{
    let h = GRID_HEIGHT as int;
    if k == 0 {
        vstd::arithmetic::div_mod::lemma_small_mod(p.y as nat, h as nat);
    } else {
        lemma_up_steps(p, (k - 1) as nat);
        vstd::arithmetic::div_mod::lemma_sub_mod_noop(p.y - (k - 1), 1, h);
    }
}

/// Stepping upwards `GRID_HEIGHT` times goes once around the board and
/// returns to the starting cell.
pub proof fn lemma_vertical_wrap_cycle(p: GridPosition)
    requires
        p.wf(),
    ensures
        GridPosition::spec_iter_move(p, Direction::Up, GRID_HEIGHT as nat) == p,
{
    let h = GRID_HEIGHT as int;
    lemma_up_steps(p, GRID_HEIGHT as nat);
    vstd::arithmetic::div_mod::lemma_mod_sub_multiples_vanish(p.y as int, h);
    vstd::arithmetic::div_mod::lemma_small_mod(p.y as nat, h as nat);
}

/// The sprites available in the 4-by-4 sprite sheet, addressed by
/// `(column, row)` tiles.
#[derive(Clone, Copy, Debug, PartialEq, Eq, Structural)]
pub enum Sprite {
    /// A head sprite; the `Direction` is where the head points.
    Head(Direction),
    /// A body sprite, straight or curved. The first `Direction` points back
    /// along the body toward where the segment was entered from; the second
    /// points toward where it exits. Two equal directions would mean the
    /// snake turned around inside one cell, which cannot happen; such a
    /// sprite has no tile.
    Segment(Direction, Direction),
    /// A tail sprite; the `Direction` is where the rest of the body lies,
    /// the opposite of where the tail points.
    Tail(Direction),
    Rabit,
    Grass,
}

impl Sprite {
    /// Every sprite has a tile in the sheet except a body segment with twice
    /// the same direction.
    pub open spec fn wf(self) -> bool {
        match self {
            Sprite::Segment(a, b) => a != b,
            _ => true,
        }
    }

    /// The `(column, row)` tile of a body segment entered from `a` (pointing
    /// back along the body) and exiting toward `b`. The value for two equal
    /// directions is irrelevant: no such segment exists.
    pub open spec fn spec_segment_tile(a: Direction, b: Direction) -> (u8, u8) {
        if (a == Direction::Left && b == Direction::Right) || (a == Direction::Right && b
            == Direction::Left) {
            (1u8, 3u8)
        } else if (a == Direction::Up && b == Direction::Down) || (a == Direction::Down && b
            == Direction::Up) {
            (0u8, 3u8)
        } else if (a == Direction::Up && b == Direction::Right) || (a == Direction::Right && b
            == Direction::Up) {
            (0u8, 2u8)
        } else if (a == Direction::Down && b == Direction::Right) || (a == Direction::Right && b
            == Direction::Down) {
            (1u8, 2u8)
        } else if (a == Direction::Left && b == Direction::Down) || (a == Direction::Down && b
            == Direction::Left) {
            (2u8, 2u8)
        } else if (a == Direction::Left && b == Direction::Up) || (a == Direction::Up && b
            == Direction::Left) {
            (3u8, 2u8)
        } else {
            (0u8, 0u8)
        }
    }

    /// Whether `t` is one of the two straight body tiles.
    pub open spec fn is_straight_tile(t: (u8, u8)) -> bool {
        t == (0u8, 3u8) || t == (1u8, 3u8)
    }

    /// Whether `t` is one of the four corner body tiles.
    pub open spec fn is_corner_tile(t: (u8, u8)) -> bool {
        t == (0u8, 2u8) || t == (1u8, 2u8) || t == (2u8, 2u8) || t == (3u8, 2u8)
    }

    /// The `(column, row)` of the tile in the sprite sheet that draws this
    /// sprite.
    pub open spec fn spec_tile(self) -> (u8, u8) {
        match self {
            Sprite::Head(d) => match d {
                Direction::Up => (0u8, 0u8),
                Direction::Right => (1u8, 0u8),
                Direction::Down => (2u8, 0u8),
                Direction::Left => (3u8, 0u8),
            },
            Sprite::Segment(a, b) => Self::spec_segment_tile(a, b),
            Sprite::Tail(d) => match d {
                Direction::Up => (0u8, 1u8),
                Direction::Right => (1u8, 1u8),
                Direction::Down => (2u8, 1u8),
                Direction::Left => (3u8, 1u8),
            },
            Sprite::Rabit => (2u8, 3u8),
            Sprite::Grass => (3u8, 3u8),
        }
    }

    /// Selects the tile in the sprite sheet that draws this sprite.
    ///
    /// A body segment whose two directions are equal is a broken invariant
    /// (the snake cannot turn 180 degrees inside one cell); the precondition
    /// excludes such a sprite instead of aborting at run time.
    pub fn tile(&self) -> (t: (u8, u8))
        requires
            self.wf(),
        ensures
            t == self.spec_tile(),
    {
        match self {
            Sprite::Head(d) => match d {
                Direction::Up => (0, 0),
                Direction::Right => (1, 0),
                Direction::Down => (2, 0),
                Direction::Left => (3, 0),
            },
            Sprite::Segment(a, b) => match (a, b) {
                (Direction::Left, Direction::Right) | (Direction::Right, Direction::Left) => (
                    1,
                    3,
                ),
                (Direction::Up, Direction::Down) | (Direction::Down, Direction::Up) => (0, 3),
                (Direction::Up, Direction::Right) | (Direction::Right, Direction::Up) => (0, 2),
                (Direction::Down, Direction::Right) | (Direction::Right, Direction::Down) => (
                    1,
                    2,
                ),
                (Direction::Left, Direction::Down) | (Direction::Down, Direction::Left) => (2, 2),
                (Direction::Left, Direction::Up) | (Direction::Up, Direction::Left) => (3, 2),
                // Excluded by the precondition: both directions equal.
                _ => (0, 0),
            },
            Sprite::Tail(d) => match d {
                Direction::Up => (0, 1),
                Direction::Right => (1, 1),
                Direction::Down => (2, 1),
                Direction::Left => (3, 1),
            },
            Sprite::Rabit => (2, 3),
            Sprite::Grass => (3, 3),
        }
    }
}

/// Laws of the body-segment tile selection: the tile depends only on the
/// unordered pair of directions; a pair of a direction and its inverse
/// selects a straight tile; an orthogonal pair selects a corner tile; and
/// two distinct unordered pairs never share a tile.
pub proof fn lemma_segment_tile_laws()
    ensures
        forall|a: Direction, b: Direction| #[trigger]
            Sprite::spec_segment_tile(a, b) == Sprite::spec_segment_tile(b, a),
        forall|a: Direction, b: Direction|
            b == a.spec_inverse() ==> Sprite::is_straight_tile(
                #[trigger] Sprite::spec_segment_tile(a, b),
            ),
        forall|a: Direction, b: Direction|
            a.spec_is_orthogonal_to(b) ==> Sprite::is_corner_tile(
                #[trigger] Sprite::spec_segment_tile(a, b),
            ),
        forall|a: Direction, b: Direction, c: Direction, d: Direction|
            a != b && c != d ==> ((#[trigger] Sprite::spec_segment_tile(a, b) == #[trigger]
            Sprite::spec_segment_tile(c, d)) <==> ((a == c && b == d) || (a == d && b == c))),
{
}

/// A sprite together with the grid cell it stands on: one entry of the draw
/// list handed to the renderer.
#[derive(Clone, Copy, Debug, PartialEq, Eq, Structural)]
pub struct PositionedSprite {
    pub sprite: Sprite,
    pub position: GridPosition,
}

impl PositionedSprite {
    pub fn new(sprite: Sprite, position: GridPosition) -> (s: PositionedSprite)
        ensures
            s == (PositionedSprite { sprite, position }),
    {
        PositionedSprite { sprite, position }
    }

    /// The direction this sprite travels in, used by the renderer to offset
    /// its screen position between ticks; `None` for sprites that stand
    /// still (food and background).
    pub open spec fn spec_travel_direction(self) -> Option<Direction> {
        match self.sprite {
            Sprite::Head(d) => Some(d),
            Sprite::Segment(_, d) => Some(d),
            Sprite::Tail(d) => Some(d),
            _ => None,
        }
    }

    /// Returns the direction this sprite travels in, if any.
    pub fn travel_direction(&self) -> (r: Option<Direction>)
        ensures
            r == self.spec_travel_direction(),
    {
        match self.sprite {
            Sprite::Head(d) => Some(d),
            Sprite::Segment(_, d) => Some(d),
            Sprite::Tail(d) => Some(d),
            _ => None,
        }
    }
}

} // verus!
