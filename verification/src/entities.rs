//! The snake state machine and the food entity.

use crate::primitives::Ate;
use crate::primitives::Direction;
use crate::primitives::GridPosition;
use crate::primitives::PositionedSprite;
use crate::primitives::SnakeError;
use crate::primitives::SnakeResult;
use crate::primitives::Sprite;
use std::collections::VecDeque;
use vstd::prelude::*;

verus! {

/// The positions of a sequence of placed sprites, cell by cell.
pub open spec fn positions_of(s: Seq<PositionedSprite>) -> Seq<GridPosition> {
    s.map_values(|ps: PositionedSprite| ps.position)
}

/// The state of the snake itself: an ordered chain of cells with a head at
/// the front and a tail at the back, together with the committed, previous
/// and buffered movement directions.
pub struct Snake {
    pub head: PositionedSprite,
    pub body: VecDeque<PositionedSprite>,
    pub tail: PositionedSprite,
    /// The direction that will be applied on the next tick.
    pub direction: Direction,
    /// The direction applied on the last completed tick.
    pub previous_direction: Direction,
    /// A direction requested while a change was already committed; it
    /// commits one tick later.
    pub next_direction: Option<Direction>,
}

impl Snake {
    /// A body cell wears a segment sprite with two distinct directions and
    /// stands on the board.
    pub open spec fn wf_body_cell(c: PositionedSprite) -> bool {
        &&& c.sprite matches Sprite::Segment(a, b) && a != b
        &&& c.position.wf()
    }

    /// Well-formedness of the snake: the head wears a head sprite pointing
    /// the way it last moved, the tail wears a tail sprite, every cell
    /// stands on the board, the committed direction is never the reverse of
    /// the last applied one, and a buffered direction exists only while a
    /// change is already committed and is itself no reversal.
    pub open spec fn wf(self) -> bool {
        &&& self.head.sprite == Sprite::Head(self.previous_direction)
        &&& self.head.position.wf()
        &&& self.tail.sprite matches Sprite::Tail(_)
        &&& self.tail.position.wf()
        &&& forall|i: int|
            0 <= i < self.body@.len() ==> Self::wf_body_cell(#[trigger] self.body@[i])
        &&& self.direction != self.previous_direction.spec_inverse()
        &&& self.next_direction matches Some(d) ==> d != self.direction.spec_inverse()
            && self.direction != self.previous_direction
    }

    /// Number of cells the snake occupies: head, body cells and tail.
    pub open spec fn spec_len(self) -> nat {
        self.body@.len() + 2
    }

    /// The positions of the head and of every body cell. The tail cell is
    /// not among them, just as in `segments`.
    pub open spec fn spec_segments(self) -> Seq<GridPosition> {
        positions_of(self.body@).push(self.head.position)
    }

    /// Whether the head lies on one of the body cells.
    pub open spec fn spec_eats_self(self) -> bool {
        exists|i: int|
            0 <= i < self.body@.len() && (#[trigger] self.body@[i]).position
                == self.head.position
    }

    /// The body cell that the head leaves behind when it advances: the old
    /// head position, wearing a segment sprite that points back along the
    /// previous tick's direction and exits toward the committed one.
    pub open spec fn spec_vacated_cell(self) -> PositionedSprite {
        PositionedSprite {
            sprite: Sprite::Segment(self.previous_direction.spec_inverse(), self.direction),
            position: self.head.position,
        }
    }

    /// The body after the head advances: the vacated head cell pushed in
    /// front of the old body, before any tail removal.
    pub open spec fn spec_grown_body(self) -> Seq<PositionedSprite> {
        seq![self.spec_vacated_cell()] + self.body@
    }

    /// The exit direction of a body segment sprite: where the next cell
    /// toward the head lies.
    pub open spec fn spec_segment_exit(s: Sprite) -> Direction {
        match s {
            Sprite::Segment(_, b) => b,
            _ => arbitrary(),
        }
    }

    /// The relation between the snake before a call of `update`, the snake
    /// after it, the food position handed to the call, and the result: the
    /// head advances one wrapped cell in the committed direction, the
    /// vacated cell joins the body, a buffered direction commits for the
    /// following tick; reaching the food grows the snake and short-circuits
    /// every other check, otherwise the oldest body cell becomes the new
    /// tail and the result reports whether the head landed on a remaining
    /// body cell.
    pub open spec fn spec_update(
        pre: Snake,
        post: Snake,
        food_position: GridPosition,
        r: Option<Ate>,
    ) -> bool {
        &&& post.head == (PositionedSprite {
            sprite: Sprite::Head(pre.direction),
            position: GridPosition::spec_move(pre.head.position, pre.direction),
        })
        &&& post.previous_direction == pre.direction
        &&& post.next_direction is None
        &&& post.direction == (match pre.next_direction {
            Some(d) => d,
            None => pre.direction,
        })
        &&& (r == Some(Ate::Food) <==> post.head.position == food_position)
        &&& (post.head.position == food_position ==> post.body@ == pre.spec_grown_body()
            && post.tail == pre.tail)
        &&& (post.head.position != food_position ==> {
            &&& post.body@ == pre.spec_grown_body().drop_last()
            &&& post.tail.position == pre.spec_grown_body().last().position
            &&& post.tail.sprite == Sprite::Tail(
                Self::spec_segment_exit(pre.spec_grown_body().last().sprite),
            )
            &&& r == (if post.spec_eats_self() {
                Some(Ate::Itself)
            } else {
                None
            })
        })
    }

    /// Creates a new `Snake` of length two: a head at the given position and
    /// a tail one step behind it, both moving right.
    pub fn new(position: GridPosition) -> (s: Snake)
        requires
            position.wf(),
        ensures
            s.wf(),
            s.head == (PositionedSprite { sprite: Sprite::Head(Direction::Right), position }),
            s.body@ == Seq::<PositionedSprite>::empty(),
            s.tail == (PositionedSprite {
                sprite: Sprite::Tail(Direction::Right),
                position: GridPosition::spec_move(position, Direction::Left),
            }),
            s.direction == Direction::Right,
            s.previous_direction == Direction::Right,
            s.next_direction is None,
    {
        let head = PositionedSprite::new(Sprite::Head(Direction::Right), position);
        let body = VecDeque::new();
        let tail = PositionedSprite::new(
            Sprite::Tail(Direction::Right),
            GridPosition::new_from_move(position, Direction::Left),
        );
        Snake {
            head,
            body,
            tail,
            direction: Direction::Right,
            previous_direction: Direction::Right,
            next_direction: None,
        }
    }

    /// Requests a direction change.
    ///
    /// A request for the reverse of the currently committed direction fails
    /// with a `LogicError` and changes nothing; this uses the committed
    /// direction, not a buffered one, so a rapid double key-press cannot
    /// smuggle in a reversal. A valid request is applied immediately when no
    /// change is pending since the last completed tick; otherwise it is
    /// buffered, replacing any earlier buffered request, so only the latest
    /// request before the next tick takes effect.
    pub fn set_direction(&mut self, direction: Direction) -> (r: SnakeResult)
        requires
            old(self).wf(),
        ensures
            final(self).wf(),
            direction == old(self).direction.spec_inverse() ==> (r matches Err(
                SnakeError::LogicError(_),
            )) && *final(self) == *old(self),
            direction != old(self).direction.spec_inverse() ==> r is Ok && (if old(
                self,
            ).previous_direction == old(self).direction {
                *final(self) == (Snake { direction, ..*old(self) })
            } else {
                *final(self) == (Snake { next_direction: Some(direction), ..*old(self) })
            }),
    {
        let is_valid = self.direction.inverse() != direction;
        if is_valid {
            if self.previous_direction == self.direction {
                self.direction = direction;
            } else {
                self.next_direction = Some(direction);
            }
            Ok(())
        } else {
            Err(
                SnakeError::LogicError(
                    "Can only update direction if it is orthogonal to previous direction".to_owned(),
                ),
            )
        }
    }

    /// Returns the positions of all of the segments of the snake that count
    /// for placing food: every body cell, then the head.
    pub fn segments(&self) -> (v: Vec<GridPosition>)
        ensures
            v@ == self.spec_segments(),
    {
        let mut vec: Vec<GridPosition> = Vec::new();
        let mut i: usize = 0;
        while i < self.body.len()
            invariant
                i <= self.body@.len(),
                vec@ == positions_of(self.body@.subrange(0, i as int)),
            decreases self.body@.len() - i,
        {
            vec.push(self.body[i].position);
            proof {
                assert(self.body@.subrange(0, i + 1 as int) =~= self.body@.subrange(
                    0,
                    i as int,
                ).push(self.body@[i as int]));
                assert(positions_of(self.body@.subrange(0, i + 1 as int)) =~= positions_of(
                    self.body@.subrange(0, i as int),
                ).push(self.body@[i as int].position));
            }
            i += 1;
        }
        proof {
            assert(self.body@.subrange(0, self.body@.len() as int) =~= self.body@);
        }
        vec.push(self.head.position);
        vec
    }

    /// Whether the head lies on the food in the current state.
    fn eats_food(&self, food: &Food) -> (r: bool)
        ensures
            r == (self.head.position == food.spec_position()),
    {
        self.head.position == food.position()
    }

    /// Whether the head lies on one of the body cells in the current state.
    /// The tail cell does not count: it is about to move away.
    fn eats_self(&self) -> (r: bool)
        ensures
            r == self.spec_eats_self(),
    {
        let mut i: usize = 0;
        while i < self.body.len()
            invariant
                i <= self.body@.len(),
                forall|j: int|
                    0 <= j < i ==> (#[trigger] self.body@[j]).position != self.head.position,
            decreases self.body@.len() - i,
        {
            if self.body[i].position == self.head.position {
                return true;
            }
            i += 1;
        }
        false
    }

    /// Advances the snake by one tick.
    ///
    /// The head moves one cell in the committed direction, wrapping at the
    /// board edges; the vacated head cell joins the body; a buffered
    /// direction commits for the following tick. If the new head reaches the
    /// food the snake grows by one cell and nothing else is checked; a tick
    /// never reports food and self-collision at once. Otherwise the oldest
    /// body cell becomes the new tail, and the result reports whether the
    /// head landed on one of the remaining body cells.
    pub fn update(&mut self, food: &Food) -> (r: Option<Ate>)
        requires
            old(self).wf(),
        ensures
            final(self).wf(),
            Snake::spec_update(*old(self), *final(self), food.spec_position(), r),
            r == Some(Ate::Food) ==> final(self).spec_len() == old(self).spec_len() + 1,
            r != Some(Ate::Food) ==> final(self).spec_len() == old(self).spec_len(),
    {
        // move in the committed direction
        let new_head = PositionedSprite::new(
            Sprite::Head(self.direction),
            GridPosition::new_from_move(self.head.position, self.direction),
        );

        // the vacated head cell joins the body as a segment from the
        // previous tick's direction toward the committed one
        self.body.push_front(
            PositionedSprite::new(
                Sprite::Segment(self.previous_direction.inverse(), self.direction),
                self.head.position,
            ),
        );
        self.head = new_head;

        // the committed direction becomes the last applied one; a buffered
        // request commits for the following tick
        self.previous_direction = self.direction;
        if let Some(next_direction) = self.next_direction {
            self.direction = next_direction;
            self.next_direction = None;
        }

        if self.eats_food(food) {
            Some(Ate::Food)
        } else {
            // the snake did not grow: the oldest body cell becomes the new
            // tail, keeping the length constant
            let mut new_tail = match self.body.pop_back() {
                Some(segment) => segment,
                // Unreachable: a cell was pushed onto the body above.
                None => self.head,
            };
            let tail_direction = match new_tail.sprite {
                Sprite::Segment(_, target) => target,
                // Unreachable: body cells wear segment sprites.
                _ => self.direction,
            };
            new_tail.sprite = Sprite::Tail(tail_direction);
            self.tail = new_tail;
            if self.eats_self() {
                Some(Ate::Itself)
            } else {
                None
            }
        }
    }

    /// The draw list for the snake: the tail first, then the body cells from
    /// the one nearest the head backwards, the head last so that it is drawn
    /// on top of everything else.
    pub open spec fn spec_draw_list(self) -> Seq<PositionedSprite> {
        seq![self.tail] + self.body@ + seq![self.head]
    }

    /// Returns the sprites of the whole chain in drawing order.
    pub fn draw_list(&self) -> (v: Vec<PositionedSprite>)
        ensures
            v@ == self.spec_draw_list(),
    {
        let mut v: Vec<PositionedSprite> = Vec::new();
        v.push(self.tail);
        let mut i: usize = 0;
        while i < self.body.len()
            invariant
                i <= self.body@.len(),
                v@ == seq![self.tail] + self.body@.subrange(0, i as int),
            decreases self.body@.len() - i,
        {
            v.push(self.body[i]);
            i += 1;
        }
        proof {
            assert(self.body@.subrange(0, self.body@.len() as int) =~= self.body@);
        }
        v.push(self.head);
        v
    }
}

/// A piece of food that the snake can eat.
pub struct Food {
    pub segment: PositionedSprite,
}

impl Food {
    /// The food always wears the rabbit sprite.
    pub open spec fn wf(self) -> bool {
        self.segment.sprite == Sprite::Rabit
    }

    /// The cell the food stands on.
    pub open spec fn spec_position(self) -> GridPosition {
        self.segment.position
    }

    pub fn new(position: GridPosition) -> (f: Food)
        ensures
            f.wf(),
            f.spec_position() == position,
    {
        Food { segment: PositionedSprite::new(Sprite::Rabit, position) }
    }

    pub fn position(&self) -> (p: GridPosition)
        ensures
            p == self.spec_position(),
    {
        self.segment.position
    }

    pub fn set_position(&mut self, position: GridPosition)
        ensures
            final(self).segment.position == position,
            final(self).segment.sprite == old(self).segment.sprite,
    {
        self.segment.position = position;
    }
}

} // verus!
