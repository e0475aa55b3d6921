use vstd::prelude::*;

verus! {

/// A place in the buffer: `x` counts characters within the row, `y` counts rows.
#[derive(Clone, Copy, Debug, PartialEq, Eq, Structural)]
pub struct CursorPos {
    pub x: usize,
    pub y: usize,
}

/// Row-major order on positions: `a` comes no later than `b`.
pub open spec fn pos_le(a: CursorPos, b: CursorPos) -> bool {
    a.y < b.y || (a.y == b.y && a.x <= b.x)
}

/// The earlier of two positions.
pub open spec fn range_start(a: CursorPos, b: CursorPos) -> CursorPos {
    if pos_le(a, b) {
        a
    } else {
        b
    }
}

/// The later of two positions.
pub open spec fn range_end(a: CursorPos, b: CursorPos) -> CursorPos {
    if pos_le(a, b) {
        b
    } else {
        a
    }
}

/// Orders two positions, earlier one first.
pub fn ordered(a: CursorPos, b: CursorPos) -> (r: (CursorPos, CursorPos))
    ensures
        r.0 == range_start(a, b),
        r.1 == range_end(a, b),
{
    if a.y > b.y || (a.y == b.y && a.x > b.x) {
        (b, a)
    } else {
        (a, b)
    }
}

/// Row-major order is total, so the ordered pair does not depend on the
/// order in which the two ends are given.
pub proof fn lemma_range_symmetric(a: CursorPos, b: CursorPos)
    ensures
        range_start(a, b) == range_start(b, a),
        range_end(a, b) == range_end(b, a),
        pos_le(range_start(a, b), range_end(a, b)),
{
}

} // verus!
