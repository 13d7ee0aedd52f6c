//! Vertex records and the drift space that positions live in.
//!
//! Coordinates are single-precision floats, held here by their IEEE-754 bit
//! patterns so that the rules on them can be stated and proved. The first two
//! coordinates of a position move in a space that wraps at plus and minus
//! one: a value that leaves on one side comes back exactly on the other
//! boundary. The third and fourth coordinates are carried unchanged.

use vstd::prelude::*;

verus! {

/// The bit pattern of `1.0`.
pub const ONE: u32 = 0x3F80_0000;

/// The bit pattern of `-1.0`.
pub const MINUS_ONE: u32 = 0xBF80_0000;

/// The bit pattern of positive infinity: the largest magnitude that is a
/// number.
pub const INFINITY: u32 = 0x7F80_0000;

/// The bit pattern of negative infinity.
pub const MINUS_INFINITY: u32 = 0xFF80_0000;

/// The sign bit.
pub const SIGN: u32 = 0x8000_0000;

/// The pattern without its sign bit.
pub open spec fn magnitude(bits: u32) -> int {
    if bits >= SIGN {
        bits - SIGN
    } else {
        bits as int
    }
}

/// The pattern is not a number.
pub open spec fn is_nan(bits: u32) -> bool {
    magnitude(bits) > INFINITY
}

/// An integer that orders the patterns of numbers as the floats that they
/// stand for are ordered; both zeros share the rank zero.
pub open spec fn rank(bits: u32) -> int {
    if bits >= SIGN {
        -magnitude(bits)
    } else {
        magnitude(bits)
    }
}

/// The value lies within the drift space, boundaries included.
pub open spec fn within_bounds(bits: u32) -> bool {
    !is_nan(bits) && -(ONE as int) <= rank(bits) <= ONE
}

/// Where a coordinate comes to rest: a number above one at exactly minus
/// one, a number below minus one at exactly one, and anything else where it
/// is.
pub open spec fn wrapped(bits: u32) -> u32 {
    if !is_nan(bits) && rank(bits) > ONE {
        MINUS_ONE
    } else if !is_nan(bits) && rank(bits) < -(ONE as int) {
        ONE
    } else {
        bits
    }
}

/// Wraps one coordinate at the boundary of the drift space.
pub fn wrap_coordinate(bits: u32) -> (settled: u32)
    ensures
        settled == wrapped(bits),
{
    if ONE < bits && bits <= INFINITY {
        MINUS_ONE
    } else if MINUS_ONE < bits && bits <= MINUS_INFINITY {
        ONE
    } else {
        bits
    }
}

/// Every number comes to rest within the drift space, a value within it
/// stays where it is, and wrapping what was wrapped changes nothing.
pub proof fn wrapping_keeps_within_bounds(bits: u32)
    ensures
        !is_nan(bits) ==> within_bounds(wrapped(bits)),
        within_bounds(bits) ==> wrapped(bits) == bits,
        wrapped(wrapped(bits)) == wrapped(bits),
        is_nan(bits) ==> wrapped(bits) == bits,
{
}

/// A position only: the record of the plain pipeline.
#[derive(Clone, Copy, Debug, PartialEq, Eq)]
pub struct Vertex {
    pub position: [u32; 4],
}

/// The position after a move to `x` and `y` on the first two axes: those two
/// wrapped, the other two as they were.
pub open spec fn moved(position: Seq<u32>, x: u32, y: u32) -> Seq<u32> {
    seq![wrapped(x), wrapped(y), position[2], position[3]]
}

/// The position after a series of moves, the first in the sequence first.
pub open spec fn drifted(position: Seq<u32>, moves: Seq<(u32, u32)>) -> Seq<u32>
    decreases moves.len(),
{
    if moves.len() == 0 {
        position
    } else {
        let last = moves.last();
        moved(drifted(position, moves.drop_last()), last.0, last.1)
    }
}

impl Vertex {
    /// The vertex after a move: `x` and `y` are where the first two
    /// coordinates have been moved to, before wrapping.
    pub fn moved_to(&self, x: u32, y: u32) -> (vertex: Vertex)
        ensures
            vertex.position@ == moved(self.position@, x, y),
    {
        let position = [wrap_coordinate(x), wrap_coordinate(y), self.position[2], self.position[3]];
        proof {
            assert(position@ =~= moved(self.position@, x, y));
        }
        Vertex { position }
    }
}

/// After one or more moves to numbers, the first two coordinates lie within
/// the drift space. The third and the fourth coordinate are those of the
/// start after any moves at all.
pub proof fn drift_stays_within_bounds(position: Seq<u32>, moves: Seq<(u32, u32)>)
    requires
        position.len() == 4,
    ensures
        drifted(position, moves).len() == 4,
        drifted(position, moves)[2] == position[2],
        drifted(position, moves)[3] == position[3],
        moves.len() > 0 && !is_nan(moves.last().0) ==> within_bounds(drifted(position, moves)[0]),
        moves.len() > 0 && !is_nan(moves.last().1) ==> within_bounds(drifted(position, moves)[1]),
    decreases moves.len(),
{
    if moves.len() > 0 {
        drift_stays_within_bounds(position, moves.drop_last());
        wrapping_keeps_within_bounds(moves.last().0);
        wrapping_keeps_within_bounds(moves.last().1);
    }
}

/// The points to draw, and where each has moved to since it was last
/// drawn. The sums that move a point are taken by whoever owns the feed; the
/// feed wraps them when the points are next fetched for a draw.
#[derive(Debug, PartialEq, Eq)]
pub struct VertexFeed {
    pub vertices: Vec<Vertex>,
    /// For each vertex in order, where its first two coordinates have moved
    /// to, before wrapping. A vertex without an entry has not moved.
    pub moved: Vec<(u32, u32)>,
}

/// `after` are the vertices `before`, each moved to its target where it has
/// one and left as it is where it has none.
pub open spec fn settles(before: Seq<Vertex>, targets: Seq<(u32, u32)>, after: Seq<Vertex>) -> bool {
    &&& after.len() == before.len()
    &&& forall|i: int|
        0 <= i < before.len() ==> (#[trigger] after[i]).position@ == if i < targets.len() {
            moved(before[i].position@, targets[i].0, targets[i].1)
        } else {
            before[i].position@
        }
}

impl VertexFeed {
    /// A feed of points that have not moved.
    pub fn new(vertices: Vec<Vertex>) -> (feed: VertexFeed)
        ensures
            feed.vertices == vertices,
            feed.moved@.len() == 0,
    {
        VertexFeed { vertices, moved: Vec::new() }
    }

    /// Fetches the points for a draw: every point that has moved comes to
    /// rest where its target wraps to, and the targets are used up. Returns
    /// the points as they are then.
    pub fn get(&mut self) -> (vertices: Vec<Vertex>)
        ensures
            settles(old(self).vertices@, old(self).moved@, final(self).vertices@),
            final(self).moved@.len() == 0,
            vertices@ == final(self).vertices@,
    {
        let ghost before = self.vertices@;
        let mut settled: Vec<Vertex> = Vec::new();
        let mut i: usize = 0;
        while i < self.vertices.len()
            invariant
                0 <= i <= self.vertices@.len(),
                self.vertices@ == before,
                settles(before.take(i as int), self.moved@, settled@),
            decreases self.vertices@.len() - i,
        {
            let vertex = self.vertices[i];
            let next = if i < self.moved.len() {
                let target = self.moved[i];
                vertex.moved_to(target.0, target.1)
            } else {
                vertex
            };
            let ghost earlier = settled@;
            settled.push(next);
            proof {
                let taken = before.take(i as int + 1);
                assert forall|k: int| 0 <= k < taken.len() implies (#[trigger] settled@[k]).position@
                    == if k < self.moved@.len() {
                    moved(taken[k].position@, self.moved@[k].0, self.moved@[k].1)
                } else {
                    taken[k].position@
                } by {
                    if k < i {
                        assert(settled@[k] == earlier[k]);
                        assert(taken[k] == before.take(i as int)[k]);
                    }
                }
            }
            i = i + 1;
        }
        proof {
            assert(before.take(i as int) =~= before);
        }
        let mut vertices: Vec<Vertex> = Vec::new();
        let mut k: usize = 0;
        while k < settled.len()
            invariant
                0 <= k <= settled@.len(),
                vertices@ == settled@.take(k as int),
            decreases settled@.len() - k,
        {
            vertices.push(settled[k]);
            proof {
                assert(vertices@ =~= settled@.take(k as int + 1));
            }
            k = k + 1;
        }
        proof {
            assert(settled@.take(k as int) =~= settled@);
        }
        self.vertices = settled;
        self.moved = Vec::new();
        vertices
    }
}

/// What a settled point holds: its first two coordinates are its target's,
/// wrapped, and lie within the drift space where the target is a number;
/// its third and fourth coordinate are what they were. A point without a
/// target is what it was.
pub proof fn settled_points_are_wrapped(
    before: Seq<Vertex>,
    targets: Seq<(u32, u32)>,
    after: Seq<Vertex>,
    i: int,
)
    requires
        settles(before, targets, after),
        0 <= i < before.len(),
    ensures
        after[i].position@[2] == before[i].position@[2],
        after[i].position@[3] == before[i].position@[3],
        i < targets.len() ==> {
            &&& after[i].position@[0] == wrapped(targets[i].0)
            &&& after[i].position@[1] == wrapped(targets[i].1)
            &&& !is_nan(targets[i].0) ==> within_bounds(after[i].position@[0])
            &&& !is_nan(targets[i].1) ==> within_bounds(after[i].position@[1])
        },
        i >= targets.len() ==> after[i].position@ == before[i].position@,
{
    if i < targets.len() {
        wrapping_keeps_within_bounds(targets[i].0);
        wrapping_keeps_within_bounds(targets[i].1);
    }
}

} // verus!
