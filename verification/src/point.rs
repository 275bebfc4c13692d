//! Grid positions and the follow-the-leader movement of the snake body.
use vstd::prelude::*;
use rand::Rng;

verus! {

/// A 2D grid coordinate. Signed, so that a step off the left or top edge is
/// representable and can be detected by `out_of_bounds`.
#[derive(Copy, Clone, Debug, PartialEq, Eq, Structural)]
pub struct Point {
    pub x: i16,
    pub y: i16,
}

impl Point {
    /// A point lies outside the square grid `[0, bound) x [0, bound)`.
    pub open spec fn spec_out_of_bounds(&self, bound: u8) -> bool {
        self.x < 0 || self.x >= bound || self.y < 0 || self.y >= bound
    }

    /// True iff the point lies outside the square grid `[0, bound) x [0, bound)`.
    pub fn out_of_bounds(&self, bound: u8) -> (r: bool)
        ensures
            r == self.spec_out_of_bounds(bound),
    {
        !(self.x >= 0 && self.x < bound as i16 && self.y >= 0 && self.y < bound as i16)
    }

    /// A point with each axis drawn from `[0, largest)` by the process-wide
    /// random generator.
    pub fn random_point(largest: u8) -> (p: Point)
        requires
            largest >= 1,
        ensures
            0 <= p.x < largest,
            0 <= p.y < largest,
    {
        Point { x: rand_below(largest) as i16, y: rand_below(largest) as i16 }
    }
}

/// Relies on `rand::thread_rng` and `rand::Rng::gen_range`: a value drawn
/// from the non-empty range `[0, bound)` on the process-wide generator.
/// Nothing more is assumed of which value comes back.
#[verifier::external_body]
fn rand_below(bound: u8) -> (r: u8)
    requires
        bound >= 1,
    ensures
        r < bound,
{
    rand::thread_rng().gen_range(0..bound)
}

/// The body after one step: `head` in front, every other segment where its
/// predecessor stood.
pub open spec fn shifted_body(body: Seq<Point>, head: Point) -> Seq<Point> {
    Seq::new(body.len(), |i: int| if i == 0 { head } else { body[i - 1] })
}

/// Moves every segment into the place of the one ahead of it (from the tail
/// forward, so each copy reads the predecessor's pre-call position), then
/// applies `transformer` to the head alone.
pub fn shift_positions<F: Fn(Point) -> Point>(positions: &mut Vec<Point>, transformer: F)
    requires
        old(positions)@.len() >= 1,
        call_requires(transformer, (old(positions)@[0],)),
    ensures
        final(positions)@.len() == old(positions)@.len(),
        forall|i: int| 1 <= i < final(positions)@.len()
            ==> final(positions)@[i] == old(positions)@[i - 1],
        call_ensures(transformer, (old(positions)@[0],), final(positions)@[0]),
        final(positions)@ == shifted_body(old(positions)@, final(positions)@[0]),
{
    let ghost orig = positions@;
    let mut i: usize = positions.len() - 1;
    while i >= 1
        invariant
            positions@.len() == orig.len(),
            orig.len() >= 1,
            i <= orig.len() - 1,
            forall|j: int| 0 <= j <= i ==> positions@[j] == orig[j],
            forall|j: int| i < j < positions@.len() ==> positions@[j] == orig[j - 1],
        decreases i,
    {
        let previous = positions[i - 1];
        positions[i] = previous;
        i = i - 1;
    }
    let head = transformer(positions[0]);
    positions[0] = head;
    proof {
        assert(positions@ =~= shifted_body(orig, positions@[0]));
    }
}

} // verus!
