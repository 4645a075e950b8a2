//! Rectangles and the alignment rules used to place tiles.
use vstd::prelude::*;

verus! {

/// The largest width or height of a primitive tile, in layout grid units.
pub const MAX_DIM: i64 = 1_000_000;

/// A bound on the coordinates of a tile's placement origin.
pub const MAX_ORIGIN: i64 = 1_000_000_000_000;

/// An axis-aligned rectangle in layout grid units.
#[derive(Clone, Copy, Debug, Hash, PartialEq, Eq, Structural)]
pub struct Rect {
    pub left: i64,
    pub bot: i64,
    pub right: i64,
    pub top: i64,
}

/// The orientation of a placed tile.
#[derive(Clone, Copy, Debug, Hash, PartialEq, Eq, Structural)]
pub enum Orientation {
    /// As generated.
    R0,
    /// Mirrored about a vertical axis.
    ReflectHoriz,
}

impl Rect {
    pub open spec fn width(self) -> int {
        self.right - self.left
    }

    pub open spec fn height(self) -> int {
        self.top - self.bot
    }

    /// The rectangle spans at least one grid unit, and at most `MAX_DIM`, each way.
    pub open spec fn sized(self) -> bool {
        &&& 1 <= self.width() <= MAX_DIM
        &&& 1 <= self.height() <= MAX_DIM
    }

    /// The rectangle of size `w` by `h` whose lower left corner is `(x, y)`.
    pub open spec fn at(x: int, y: int, w: int, h: int) -> Rect {
        Rect { left: x as i64, bot: y as i64, right: (x + w) as i64, top: (y + h) as i64 }
    }

    /// Builds the rectangle of size `w` by `h` whose lower left corner is `(x, y)`.
    pub fn from_corner(x: i64, y: i64, w: i64, h: i64) -> (r: Rect)
        requires
            i64::MIN <= x + w <= i64::MAX,
            i64::MIN <= y + h <= i64::MAX,
        ensures
            r == Rect::at(x as int, y as int, w as int, h as int),
    {
        Rect { left: x, bot: y, right: x + w, top: y + h }
    }

    /// Every side lies within `3 * MAX_ORIGIN` of zero.
    pub open spec fn within_reach(self) -> bool {
        &&& -3 * MAX_ORIGIN <= self.left <= 3 * MAX_ORIGIN
        &&& -3 * MAX_ORIGIN <= self.right <= 3 * MAX_ORIGIN
        &&& -3 * MAX_ORIGIN <= self.bot <= 3 * MAX_ORIGIN
        &&& -3 * MAX_ORIGIN <= self.top <= 3 * MAX_ORIGIN
    }

    /// The origin lies within `MAX_ORIGIN` of zero each way, and the sides are
    /// ordered.
    pub open spec fn near_origin(self) -> bool {
        &&& -MAX_ORIGIN <= self.left <= self.right <= MAX_ORIGIN
        &&& -MAX_ORIGIN <= self.bot <= self.top <= MAX_ORIGIN
    }
}

} // verus!
