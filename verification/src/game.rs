//! The game state and its per-turn evaluation: move, collide, eat, grow,
//! and the snapshot of the state as a frame of cell kinds.
use vstd::prelude::*;
use core::marker::PhantomData;
use crate::input::InputKey;
use crate::point::{shifted_body, Point};
use crate::render::{DisplayRenderer, MyDisplay};

verus! {

/// Some segment with index in `[from, body.len())` stands on the cell
/// `(x, y)`.
pub open spec fn occupied(body: Seq<Point>, from: int, x: int, y: int) -> bool {
    exists|i: int| from <= i < body.len() && body[i].x == x && body[i].y == y
}

/// The head stands on the same cell as some later segment.
pub open spec fn self_collides(body: Seq<Point>) -> bool {
    occupied(body, 1, body[0].x as int, body[0].y as int)
}

/// Some segment stands on the apple's cell.
pub open spec fn hits_apple(body: Seq<Point>, apple: Point) -> bool {
    occupied(body, 0, apple.x as int, apple.y as int)
}

/// The kind of the cell `(x, y)` in a frame built from `body` and `apple`:
/// the apple is written first, the head second, the other segments last, so
/// a later write takes precedence at a shared cell.
pub open spec fn cell_kind(body: Seq<Point>, apple: Point, x: int, y: int) -> u8 {
    if occupied(body, 1, x, y) {
        1u8
    } else if body[0].x == x && body[0].y == y {
        3u8
    } else if apple.x == x && apple.y == y {
        2u8
    } else {
        0u8
    }
}

/// Where a move command sends a point: one cell in its cardinal direction.
/// Quit moves nothing.
pub open spec fn step_point(p: Point, key: InputKey) -> Point {
    match key {
        InputKey::W => Point { x: p.x, y: (p.y - 1) as i16 },
        InputKey::S => Point { x: p.x, y: (p.y + 1) as i16 },
        InputKey::A => Point { x: (p.x - 1) as i16, y: p.y },
        InputKey::D => Point { x: (p.x + 1) as i16, y: p.y },
        InputKey::Quit => p,
    }
}

/// True iff some segment with index at least `start` stands on `(x, y)`.
pub fn segment_at(positions: &Vec<Point>, start: usize, x: i16, y: i16) -> (r: bool)
    ensures
        r == occupied(positions@, start as int, x as int, y as int),
{
    let mut i: usize = start;
    while i < positions.len()
        invariant
            start <= i,
            forall|j: int| start <= j < i && j < positions@.len()
                ==> !(positions@[j].x == x && positions@[j].y == y),
        decreases positions@.len() - i,
    {
        if positions[i].x == x && positions[i].y == y {
            return true;
        }
        i = i + 1;
    }
    false
}

/// True iff the head stands on the same cell as some later segment; any
/// match counts, whatever the scan order.
pub fn self_collision(positions: &Vec<Point>) -> (r: bool)
    requires
        positions@.len() >= 1,
    ensures
        r == self_collides(positions@),
{
    let head = positions[0];
    segment_at(positions, 1, head.x, head.y)
}

/// The game state: the body (head first, never empty during play) and the
/// apple.
pub struct SnakeGame {
    pub positions: Vec<Point>,
    pub apple: Point,
}

impl SnakeGame {
    /// Runs the movement and growth rules of one turn on a grid of side
    /// `size`: shift the body, end the game if the head left the grid or
    /// collided with a later segment, otherwise relocate the apple and grow
    /// by a copy of the tail if a segment stands on the apple. Returns
    /// whether play continues.
    pub fn update_frame<F: Fn(Point) -> Point>(
        &mut self,
        transformer: F,
        size: u8,
    ) -> (r: bool)
        requires
            old(self).positions@.len() >= 1,
            size >= 1,
            call_requires(transformer, (old(self).positions@[0],)),
        ensures
            ({
                let h = final(self).positions@[0];
                let b1 = shifted_body(old(self).positions@, h);
                &&& call_ensures(transformer, (old(self).positions@[0],), h)
                &&& if h.spec_out_of_bounds(size) {
                    &&& !r
                    &&& final(self).positions@ == b1
                    &&& final(self).apple == old(self).apple
                } else if self_collides(b1) {
                    &&& !r
                    &&& final(self).positions@ == b1
                    &&& final(self).apple == old(self).apple
                } else if hits_apple(b1, old(self).apple) {
                    &&& r
                    &&& final(self).positions@ == b1.push(b1.last())
                    &&& !final(self).apple.spec_out_of_bounds(size)
                } else {
                    &&& r
                    &&& final(self).positions@ == b1
                    &&& final(self).apple == old(self).apple
                }
            }),
    {
        crate::point::shift_positions(&mut self.positions, transformer);

        let first = self.positions[0];
        if first.out_of_bounds(size) {
            return false;
        }
        if self_collision(&self.positions) {
            return false;
        }

        if segment_at(&self.positions, 0, self.apple.x, self.apple.y) {
            let new_apple = Point::random_point(size);
            self.apple.x = new_apple.x;
            self.apple.y = new_apple.y;
            let last = self.positions[self.positions.len() - 1];
            self.positions.push(last);
        }

        true
    }

    /// Evaluates one decoded command on a grid of side `size`: Quit ends
    /// play with the state untouched; a move command runs one turn with the
    /// head sent one cell in that direction. Returns whether play continues.
    pub fn tick(&mut self, key: InputKey, size: u8) -> (r: bool)
        requires
            old(self).positions@.len() >= 1,
            size >= 1,
            !old(self).positions@[0].spec_out_of_bounds(size),
        ensures
            ({
                let h = step_point(old(self).positions@[0], key);
                let b1 = shifted_body(old(self).positions@, h);
                match key {
                    InputKey::Quit => !r && *final(self) == *old(self),
                    _ => {
                        &&& final(self).positions@[0] == h
                        &&& if h.spec_out_of_bounds(size) {
                            &&& !r
                            &&& final(self).positions@ == b1
                            &&& final(self).apple == old(self).apple
                        } else if self_collides(b1) {
                            &&& !r
                            &&& final(self).positions@ == b1
                            &&& final(self).apple == old(self).apple
                        } else if hits_apple(b1, old(self).apple) {
                            &&& r
                            &&& final(self).positions@ == b1.push(b1.last())
                            &&& !final(self).apple.spec_out_of_bounds(size)
                        } else {
                            &&& r
                            &&& final(self).positions@ == b1
                            &&& final(self).apple == old(self).apple
                        }
                    },
                }
            }),
    {
        match key {
            InputKey::W => {
                let t = (|it: Point| -> (p: Point)
                    requires
                        it.y > i16::MIN,
                    ensures
                        p.x == it.x && p.y == it.y - 1,
                    {
                        Point { x: it.x, y: it.y - 1 }
                    });
                self.update_frame(t, size)
            },
            InputKey::S => {
                let t = (|it: Point| -> (p: Point)
                    requires
                        it.y < i16::MAX,
                    ensures
                        p.x == it.x && p.y == it.y + 1,
                    {
                        Point { x: it.x, y: it.y + 1 }
                    });
                self.update_frame(t, size)
            },
            InputKey::D => {
                let t = (|it: Point| -> (p: Point)
                    requires
                        it.x < i16::MAX,
                    ensures
                        p.x == it.x + 1 && p.y == it.y,
                    {
                        Point { x: it.x + 1, y: it.y }
                    });
                self.update_frame(t, size)
            },
            InputKey::A => {
                let t = (|it: Point| -> (p: Point)
                    requires
                        it.x > i16::MIN,
                    ensures
                        p.x == it.x - 1 && p.y == it.y,
                    {
                        Point { x: it.x - 1, y: it.y }
                    });
                self.update_frame(t, size)
            },
            InputKey::Quit => false,
        }
    }

    /// The kind of the cell `(x, y)` under the frame's write precedence.
    fn kind_at(&self, x: i16, y: i16) -> (k: u8)
        requires
            self.positions@.len() >= 1,
        ensures
            k == cell_kind(self.positions@, self.apple, x as int, y as int),
    {
        if segment_at(&self.positions, 1, x, y) {
            1
        } else if self.positions[0].x == x && self.positions[0].y == y {
            3
        } else if self.apple.x == x && self.apple.y == y {
            2
        } else {
            0
        }
    }

    /// Snapshots the state as a `size` by `size` frame of cell kinds:
    /// every cell holds exactly the kind the write precedence assigns it.
    pub fn create_snake_frame<R: DisplayRenderer>(&self, size: u8) -> (display: MyDisplay<R>)
        requires
            self.positions@.len() >= 1,
        ensures
            display.content@.len() == size as int,
            forall|y: int| 0 <= y < size ==> display.content@[y]@.len() == size as int,
            forall|y: int, x: int| 0 <= y < size && 0 <= x < size
                ==> display.content@[y]@[x] == cell_kind(self.positions@, self.apple, x, y),
    {
        let mut content: Vec<Vec<u8>> = Vec::new();
        let mut y: usize = 0;
        while y < size as usize
            invariant
                self.positions@.len() >= 1,
                y <= size as usize,
                content@.len() == y,
                forall|yy: int| 0 <= yy < y ==> content@[yy]@.len() == size as int,
                forall|yy: int, x: int| 0 <= yy < y && 0 <= x < size
                    ==> content@[yy]@[x] == cell_kind(self.positions@, self.apple, x, yy),
            decreases size as usize - y,
        {
            let mut row: Vec<u8> = Vec::new();
            let mut x: usize = 0;
            while x < size as usize
                invariant
                    self.positions@.len() >= 1,
                    x <= size as usize,
                    y < size as usize,
                    row@.len() == x,
                    forall|xx: int| 0 <= xx < x
                        ==> row@[xx] == cell_kind(self.positions@, self.apple, xx, y as int),
                decreases size as usize - x,
            {
                row.push(self.kind_at(x as i16, y as i16));
                x = x + 1;
            }
            content.push(row);
            y = y + 1;
        }
        MyDisplay { content, _marker: PhantomData }
    }
}

/// Law: a frame read back at the coordinates it was built from reproduces
/// the expected kinds. Every non-head segment's cell reads as a body cell;
/// the head's cell reads as the head unless a later segment shares it; the
/// apple's cell reads as the apple unless some segment shares it.
pub proof fn lemma_frame_round_trip(body: Seq<Point>, apple: Point)
    requires
        body.len() >= 1,
    ensures
        forall|i: int| 1 <= i < body.len()
            ==> cell_kind(body, apple, body[i].x as int, body[i].y as int) == 1u8,
        !self_collides(body)
            ==> cell_kind(body, apple, body[0].x as int, body[0].y as int) == 3u8,
        !hits_apple(body, apple)
            ==> cell_kind(body, apple, apple.x as int, apple.y as int) == 2u8,
{
    assert forall|i: int| 1 <= i < body.len()
        implies cell_kind(body, apple, body[i].x as int, body[i].y as int) == 1u8 by {
        assert(occupied(body, 1, body[i].x as int, body[i].y as int));
    }
}

} // verus!
