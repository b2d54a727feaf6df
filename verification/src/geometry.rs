//! Vectors and axis-aligned rectangles on the lattice.

use vstd::prelude::*;
use crate::lattice::{in_world, is_extent, sign, signum};

verus! {

/// A pair of lattice numbers: a position in ticks or a velocity in thousandths.
#[derive(Clone, Copy, Debug, PartialEq, Eq, Structural)]
pub struct Vec2 {
    pub x: i64,
    pub y: i64,
}

impl Vec2 {
    /// Both components are coordinates of the world.
    pub open spec fn wf(self) -> bool {
        in_world(self.x as int) && in_world(self.y as int)
    }

    /// Both components have a negation.
    pub open spec fn reflectable(self) -> bool {
        self.x > i64::MIN && self.y > i64::MIN
    }
}

/// An axis-aligned rectangle: its top-left corner and its size. The y axis
/// points down.
#[derive(Clone, Copy, Debug, PartialEq, Eq, Structural)]
pub struct Rect {
    pub x: i64,
    pub y: i64,
    pub w: i64,
    pub h: i64,
}

impl Rect {
    /// The corner lies in the world and the size is neither negative nor
    /// larger than the world's limit.
    pub open spec fn wf(self) -> bool {
        &&& in_world(self.x as int)
        &&& in_world(self.y as int)
        &&& is_extent(self.w as int)
        &&& is_extent(self.h as int)
    }

    /// The x coordinate of the right edge.
    pub open spec fn right(self) -> int {
        self.x + self.w
    }

    /// The y coordinate of the bottom edge.
    pub open spec fn bottom(self) -> int {
        self.y + self.h
    }

    /// The width of the strip that both rectangles cover; negative when a
    /// gap lies between them on the x axis.
    pub open spec fn overlap_w(self, other: Rect) -> int {
        let left = if self.x >= other.x { self.x } else { other.x };
        let right = if self.right() <= other.right() { self.right() } else { other.right() };
        right - left
    }

    /// The height of the strip that both rectangles cover; negative when a
    /// gap lies between them on the y axis.
    pub open spec fn overlap_h(self, other: Rect) -> int {
        let top = if self.y >= other.y { self.y } else { other.y };
        let bottom = if self.bottom() <= other.bottom() { self.bottom() } else { other.bottom() };
        bottom - top
    }

    /// The rectangles share at least a point: an edge or a corner counts.
    pub open spec fn meets(self, other: Rect) -> bool {
        self.overlap_w(other) >= 0 && self.overlap_h(other) >= 0
    }

    /// A gap lies between the rectangles on one axis at least.
    pub open spec fn separated(self, other: Rect) -> bool {
        ||| self.right() < other.x
        ||| other.right() < self.x
        ||| self.bottom() < other.y
        ||| other.bottom() < self.y
    }

    /// What both rectangles cover, if they meet.
    pub open spec fn spec_intersect(self, other: Rect) -> Option<Rect> {
        if self.meets(other) {
            Some(
                Rect {
                    x: if self.x >= other.x { self.x } else { other.x },
                    y: if self.y >= other.y { self.y } else { other.y },
                    w: self.overlap_w(other) as i64,
                    h: self.overlap_h(other) as i64,
                },
            )
        } else {
            None
        }
    }

    /// On which side of this rectangle's centre the centre of `other` lies
    /// on the x axis: -1 left of it, 1 right of it, 0 on it.
    pub open spec fn toward_x(self, other: Rect) -> int {
        sign((2 * other.x + other.w) - (2 * self.x + self.w))
    }

    /// On which side of this rectangle's centre the centre of `other` lies
    /// on the y axis: -1 above it, 1 below it, 0 on it.
    pub open spec fn toward_y(self, other: Rect) -> int {
        sign((2 * other.y + other.h) - (2 * self.y + self.h))
    }

    /// Computes what both rectangles cover, if they meet.
    pub fn intersect(&self, other: &Rect) -> (r: Option<Rect>)
        requires
            self.wf(),
            other.wf(),
        ensures
            r == self.spec_intersect(*other),
            r is Some <==> !self.separated(*other),
            r matches Some(i) ==> i.wf() && i.w <= self.w && i.w <= other.w && i.h <= self.h
                && i.h <= other.h,
    {
        let left: i64 = if self.x >= other.x { self.x } else { other.x };
        let top: i64 = if self.y >= other.y { self.y } else { other.y };
        let self_right: i64 = self.x + self.w;
        let other_right: i64 = other.x + other.w;
        let self_bottom: i64 = self.y + self.h;
        let other_bottom: i64 = other.y + other.h;
        let right: i64 = if self_right <= other_right { self_right } else { other_right };
        let bottom: i64 = if self_bottom <= other_bottom { self_bottom } else { other_bottom };
        if right < left || bottom < top {
            None
        } else {
            Some(Rect { x: left, y: top, w: right - left, h: bottom - top })
        }
    }

    /// The signs of the vector from this rectangle's centre to the centre
    /// of `other`.
    pub fn toward(&self, other: &Rect) -> (s: Vec2)
        requires
            self.wf(),
            other.wf(),
        ensures
            s.x == self.toward_x(*other),
            s.y == self.toward_y(*other),
    {
        let dx: i64 = (2 * other.x + other.w) - (2 * self.x + self.w);
        let dy: i64 = (2 * other.y + other.h) - (2 * self.y + self.h);
        Vec2 { x: signum(dx), y: signum(dy) }
    }
}

/// Rectangles with a gap between them do not meet, and rectangles that do
/// not meet have a gap between them.
pub proof fn lemma_separated_iff_not_meeting(a: Rect, b: Rect)
    requires
        a.wf(),
        b.wf(),
    ensures
        a.separated(b) <==> !a.meets(b),
        a.meets(b) <==> b.meets(a),
{
}

} // verus!
