//! The game session: it owns the snake and the food, makes the per-tick
//! decisions, places new food and decides when a tick is due.

use crate::entities::Food;
use crate::entities::Snake;
use crate::primitives::Ate;
use crate::primitives::Direction;
use crate::primitives::GridPosition;
use crate::primitives::PositionedSprite;
use crate::primitives::Sprite;
use crate::primitives::GRID_HEIGHT;
use crate::primitives::GRID_WIDTH;
use crate::primitives::MILLIS_PER_UPDATE;
use vstd::prelude::*;

verus! {

/// How many random samples food placement tries before it falls back to a
/// deterministic scan of the board.
pub const PLACEMENT_ATTEMPTS: usize = 600;

/// Whether enough time has passed since the last completed tick for the
/// next simulation tick to fire. One call of the simulation never fires
/// more than one tick, however far behind it is.
pub fn tick_due(elapsed_millis: u64) -> (r: bool)
    ensures
        r == (elapsed_millis >= MILLIS_PER_UPDATE),
{
    elapsed_millis >= MILLIS_PER_UPDATE
}

/// Whether `p` occurs in `v`.
fn contains_position(v: &Vec<GridPosition>, p: GridPosition) -> (r: bool)
    ensures
        r == v@.contains(p),
{
    let mut i: usize = 0;
    while i < v.len()
        invariant
            i <= v@.len(),
            forall|j: int| 0 <= j < i ==> v@[j] != p,
        decreases v@.len() - i,
    {
        if v[i] == p {
            return true;
        }
        i += 1;
    }
    false
}

/// Produces a grid cell that is not among `forbidden`.
///
/// Cells are sampled uniformly at random; after `PLACEMENT_ATTEMPTS` misses
/// the board is scanned cell by cell instead, so the call terminates even
/// when free cells are scarce. `None` comes back only when every cell of
/// the board is forbidden, a state the game can reach only with the snake
/// covering the whole grid.
pub fn place(forbidden: &Vec<GridPosition>) -> (r: Option<GridPosition>)
    ensures
        r matches Some(p) ==> p.wf() && !forbidden@.contains(p),
        r is None ==> forall|p: GridPosition| p.wf() ==> forbidden@.contains(p),
{
    let mut attempts: usize = 0;
    while attempts < PLACEMENT_ATTEMPTS
        decreases PLACEMENT_ATTEMPTS - attempts,
    {
        let p = GridPosition::random(GRID_WIDTH, GRID_HEIGHT);
        if !contains_position(forbidden, p) {
            return Some(p);
        }
        attempts += 1;
    }
    let mut x: i16 = 0;
    while x < GRID_WIDTH
        invariant
            0 <= x <= GRID_WIDTH,
            forall|p: GridPosition| p.wf() && p.x < x ==> forbidden@.contains(p),
        decreases GRID_WIDTH - x,
    {
        let mut y: i16 = 0;
        while y < GRID_HEIGHT
            invariant
                0 <= x < GRID_WIDTH,
                0 <= y <= GRID_HEIGHT,
                forall|p: GridPosition| p.wf() && p.x < x ==> forbidden@.contains(p),
                forall|p: GridPosition|
                    p.wf() && p.x == x && p.y < y ==> forbidden@.contains(p),
            decreases GRID_HEIGHT - y,
        {
            let p = GridPosition::new(x, y);
            if !contains_position(forbidden, p) {
                return Some(p);
            }
            y += 1;
        }
        x += 1;
    }
    None
}

/// One grass sprite for every cell of the board, column by column.
pub open spec fn spec_grass_field() -> Seq<PositionedSprite> {
    Seq::new(
        (GRID_WIDTH * GRID_HEIGHT) as nat,
        |k: int|
            PositionedSprite {
                sprite: Sprite::Grass,
                position: GridPosition {
                    x: (k / (GRID_HEIGHT as int)) as i16,
                    y: (k % (GRID_HEIGHT as int)) as i16,
                },
            },
    )
}

/// Returns the background draw list: one grass sprite on every cell of the
/// board, column by column.
pub fn grass_field() -> (v: Vec<PositionedSprite>)
    ensures
        v@ == spec_grass_field(),
{
    let mut v: Vec<PositionedSprite> = Vec::new();
    let mut x: i16 = 0;
    while x < GRID_WIDTH
        invariant
            0 <= x <= GRID_WIDTH,
            v@ == spec_grass_field().subrange(0, x as int * GRID_HEIGHT as int),
        decreases GRID_WIDTH - x,
    {
        let mut y: i16 = 0;
        while y < GRID_HEIGHT
            invariant
                0 <= x < GRID_WIDTH,
                0 <= y <= GRID_HEIGHT,
                v@ == spec_grass_field().subrange(0, x as int * GRID_HEIGHT as int + y as int),
            decreases GRID_HEIGHT - y,
        {
            v.push(PositionedSprite::new(Sprite::Grass, GridPosition::new(x, y)));
            proof {
                let k = x as int * GRID_HEIGHT as int + y as int;
                vstd::arithmetic::div_mod::lemma_fundamental_div_mod_converse(
                    k,
                    GRID_HEIGHT as int,
                    x as int,
                    y as int,
                );
                assert(v@ =~= spec_grass_field().subrange(0, k + 1));
            }
            y += 1;
        }
        x += 1;
    }
    proof {
        assert(spec_grass_field().subrange(0, (GRID_WIDTH * GRID_HEIGHT) as int)
            =~= spec_grass_field());
    }
    v
}

/// One game session: the snake and the food, and whether the session has
/// ended. The session owns both entities and is their sole mutator.
pub struct Game {
    pub snake: Snake,
    pub food: Food,
    pub game_over: bool,
}

impl Game {
    pub open spec fn wf(self) -> bool {
        &&& self.snake.wf()
        &&& self.food.wf()
        &&& self.food.spec_position().wf()
    }

    /// The starting state of a session: a running game with a snake of
    /// length two near the top-left corner, moving right, and the food at
    /// the center of the board.
    pub open spec fn spec_initial(g: Game) -> bool {
        &&& !g.game_over
        &&& g.snake.head == (PositionedSprite {
            sprite: Sprite::Head(Direction::Right),
            position: GridPosition { x: 1, y: 0 },
        })
        &&& g.snake.body@ == Seq::<PositionedSprite>::empty()
        &&& g.snake.tail == (PositionedSprite {
            sprite: Sprite::Tail(Direction::Right),
            position: GridPosition::spec_move(GridPosition { x: 1, y: 0 }, Direction::Left),
        })
        &&& g.snake.direction == Direction::Right
        &&& g.snake.previous_direction == Direction::Right
        &&& g.snake.next_direction is None
        &&& g.food.spec_position() == (GridPosition {
            x: (GRID_WIDTH / 2) as i16,
            y: (GRID_HEIGHT / 2) as i16,
        })
    }

    /// Starts a fresh session.
    pub fn new() -> (g: Game)
        ensures
            g.wf(),
            Game::spec_initial(g),
    {
        Game {
            snake: Snake::new(GridPosition::new(1, 0)),
            food: Food::new(GridPosition::new(GRID_WIDTH / 2, GRID_HEIGHT / 2)),
            game_over: false,
        }
    }

    /// Restarts the session: a full replacement of snake, food and state by
    /// the starting state, with no partial resets.
    pub fn restart(&mut self)
        ensures
            final(self).wf(),
            Game::spec_initial(*final(self)),
    {
        *self = Game::new();
    }

    /// Advances the session by one tick, unless it has already ended.
    ///
    /// The snake advances by `Snake::update`; self-collision ends the
    /// session; eaten food is replaced by a cell off the snake whenever a
    /// free cell exists. The result reports what the snake ate, so the
    /// caller can trigger the matching sound.
    pub fn tick(&mut self) -> (r: Option<Ate>)
        requires
            old(self).wf(),
        ensures
            final(self).wf(),
            old(self).game_over ==> *final(self) == *old(self) && r is None,
            !old(self).game_over ==> Snake::spec_update(
                old(self).snake,
                final(self).snake,
                old(self).food.spec_position(),
                r,
            ),
            !old(self).game_over ==> final(self).game_over == (r == Some(Ate::Itself)),
            !old(self).game_over && r != Some(Ate::Food) ==> final(self).food == old(self).food,
            !old(self).game_over && r == Some(Ate::Food) ==> ((exists|p: GridPosition|
                p.wf() && !final(self).snake.spec_segments().contains(p))
                ==> !final(self).snake.spec_segments().contains(final(self).food.spec_position())),
            !old(self).game_over && r == Some(Ate::Food) ==> ((forall|p: GridPosition|
                p.wf() ==> final(self).snake.spec_segments().contains(p)) ==> final(self).food
                == old(self).food),
    {
        if self.game_over {
            return None;
        }
        let outcome = self.snake.update(&self.food);
        match outcome {
            Some(Ate::Itself) => {
                self.game_over = true;
            },
            Some(Ate::Food) => {
                let segments = self.snake.segments();
                match place(&segments) {
                    Some(position) => self.food.set_position(position),
                    None => {},
                }
            },
            None => {},
        }
        outcome
    }
}

} // verus!
