//! The snake: an ordered body of cells, head first, and a heading.

use std::collections::VecDeque;
use vstd::prelude::*;

use crate::Direction;
use crate::Point;

verus! {

/// Why a snake could not be made.
#[derive(PartialEq, Eq, Debug, Clone, Copy, Structural)]
pub enum SnakeError {
    /// The body given holds no cell, so there is no head.
    EmptyBody,
}

/// The snake as a mathematical value.
pub struct SnakeView {
    /// The cells of the body, head first, tail last.
    pub body: Seq<Point>,
    /// The direction of the last step, or `Right` before the first one.
    pub heading: Direction,
}

impl SnakeView {
    /// A snake always has a head.
    pub open spec fn wf(self) -> bool {
        self.body.len() > 0
    }

    /// The first cell of the body.
    pub open spec fn head(self) -> Point
        recommends
            self.wf(),
    {
        self.body[0]
    }

    /// The direction in which the snake moves when asked for `requested`: a
    /// request to reverse is dropped and the heading kept.
    pub open spec fn effective(self, requested: Direction) -> Direction {
        if requested.compatible(self.heading) {
            requested
        } else {
            self.heading
        }
    }

    /// Whether the cell that a step would reach has coordinates.
    pub open spec fn can_crawl(self, requested: Direction) -> bool {
        self.head().has_neighbour(self.effective(requested))
    }

    /// One step: the new head goes in front, the tail cell leaves, and the
    /// heading becomes the effective direction.
    pub open spec fn crawl(self, requested: Direction) -> SnakeView
        recommends
            self.wf(),
            self.can_crawl(requested),
    {
        SnakeView {
            body: seq![self.head().neighbour(self.effective(requested))] + self.body.drop_last(),
            heading: self.effective(requested),
        }
    }

    /// Growth: the tail cell is doubled.
    pub open spec fn eat(self) -> SnakeView
        recommends
            self.wf(),
    {
        SnakeView { body: self.body.push(self.body.last()), heading: self.heading }
    }

    /// Whether the head shares its cell with another cell of the body.
    pub open spec fn hits_self(self) -> bool {
        exists|i: int| 1 <= i < self.body.len() && self.body[i] == self.head()
    }

    /// A snake asked to reverse goes straight on: its heading stays, and its
    /// head moves one cell in that heading.
    pub proof fn lemma_no_reversal(self, requested: Direction)
        requires
            self.wf(),
            requested == self.heading.opposite(),
        ensures
            self.crawl(requested).heading == self.heading,
            self.crawl(requested).head() == self.head().neighbour(self.heading),
            self.crawl(requested) == self.crawl(self.heading),
    {
    }

    /// A step keeps the length of the body and every cell but the tail, each
    /// one place further back; growth adds a copy of the tail and keeps every
    /// cell in its place.
    pub proof fn lemma_shapes(self, requested: Direction)
        requires
            self.wf(),
        ensures
            self.crawl(requested).body.len() == self.body.len(),
            forall|i: int|
                1 <= i < self.body.len() ==> self.crawl(requested).body[i] == self.body[i - 1],
            self.eat().body.len() == self.body.len() + 1,
            forall|i: int| 0 <= i < self.body.len() ==> self.eat().body[i] == self.body[i],
            self.eat().body.last() == self.body.last(),
            self.eat().heading == self.heading,
    {
    }
}

/// The snake. Its body is never empty when made by `Snake::new`.
#[derive(Clone)]
pub struct Snake {
    /// The cells of the body, head first.
    pub body: VecDeque<Point>,
    direction: Direction,
}

impl View for Snake {
    type V = SnakeView;

    closed spec fn view(&self) -> SnakeView {
        SnakeView { body: self.body@, heading: self.direction }
    }
}

impl Snake {
    /// A snake with the given body, heading right. A body without a cell is
    /// refused.
    pub fn new(body: VecDeque<Point>) -> (made: Result<Snake, SnakeError>)
        ensures
            body@.len() == 0 ==> made == Err::<Snake, SnakeError>(SnakeError::EmptyBody),
            body@.len() > 0 ==> made is Ok && made->Ok_0@ == (SnakeView {
                body: body@,
                heading: Direction::Right,
            }),
    {
        if body.len() == 0 {
            return Err(SnakeError::EmptyBody);
        }
        Ok(Snake { body, direction: Direction::Right })
    }

    /// The direction of the last step.
    pub fn heading(&self) -> (d: Direction)
        ensures
            d == self@.heading,
    {
        self.direction
    }

    /// The first cell of the body.
    pub fn head(&self) -> (p: Point)
        requires
            self@.wf(),
        ensures
            p == self@.head(),
    {
        self.body[0]
    }

    /// Whether the head lies on `point`.
    pub fn is_head_on(&self, point: Point) -> (on: bool)
        requires
            self@.wf(),
        ensures
            on == (self@.head() == point),
    {
        self.body[0] == point
    }

    /// Whether some cell of the body, the head included, lies on `point`.
    pub fn occupies(&self, point: Point) -> (on: bool)
        ensures
            on == self@.body.contains(point),
    {
        let mut i: usize = 0;
        while i < self.body.len()
            invariant
                i <= self.body@.len(),
                forall|k: int| 0 <= k < i ==> self.body@[k] != point,
            decreases self.body@.len() - i,
        {
            if self.body[i] == point {
                return true;
            }
            i += 1;
        }
        false
    }

    /// Whether the head lies on another cell of the body.
    pub fn hits_self(&self) -> (hit: bool)
        requires
            self@.wf(),
        ensures
            hit == self@.hits_self(),
    {
        let head = self.body[0];
        let mut i: usize = 1;
        while i < self.body.len()
            invariant
                1 <= i <= self.body@.len(),
                head == self.body@[0],
                forall|k: int| 1 <= k < i ==> self.body@[k] != head,
            decreases self.body@.len() - i,
        {
            if self.body[i] == head {
                assert(1 <= i < self@.body.len() && self@.body[i as int] == self@.head());
                return true;
            }
            i += 1;
        }
        false
    }

    /// A copy of the body's cells, head first.
    pub fn cells(&self) -> (cells: VecDeque<Point>)
        ensures
            cells@ == self@.body,
    {
        self.body.clone()
    }

    /// Whether `crawl` may be called with `direction`.
    pub fn can_crawl(&self, direction: Direction) -> (ok: bool)
        requires
            self@.wf(),
        ensures
            ok == self@.can_crawl(direction),
    {
        let effective = if direction.is_compatible_with(self.direction) {
            direction
        } else {
            self.direction
        };
        let head = self.body[0];
        match effective {
            Direction::Up => head.y > 0,
            Direction::Down => head.y < usize::MAX,
            Direction::Left => head.x > 0,
            Direction::Right => head.x < usize::MAX,
        }
    }

    /// Moves the snake one cell forward. The length stays.
    pub fn crawl(&mut self, direction: Direction)
        requires
            old(self)@.wf(),
            old(self)@.can_crawl(direction),
        ensures
            final(self)@ == old(self)@.crawl(direction),
    {
        let mut direction = direction;
        if !direction.is_compatible_with(self.direction) {
            direction = self.direction;
        }
        self.direction = direction;

        let head = self.body[0];
        let new_head = match self.direction {
            Direction::Up => Point { x: head.x, y: head.y - 1 },
            Direction::Down => Point { x: head.x, y: head.y + 1 },
            Direction::Left => Point { x: head.x - 1, y: head.y },
            Direction::Right => Point { x: head.x + 1, y: head.y },
        };

        self.body.pop_back();
        self.body.push_front(new_head);
    }

    /// Grows the snake by one cell: the tail cell is doubled, and the copy is
    /// used up by the next step.
    pub fn eat(&mut self)
        requires
            old(self)@.wf(),
        ensures
            final(self)@ == old(self)@.eat(),
    {
        let tail = self.body[self.body.len() - 1];
        self.body.push_back(tail);
    }
}

} // verus!
