//! Collision of a moving rectangle with an obstacle: detection, push-out
//! and reflection.

use vstd::prelude::*;
use crate::geometry::{Rect, Vec2};
use crate::lattice::{abs, clamp_world, magnitude, saturate};

verus! {

/// A collision is resolved on the y axis when the overlap is wider than it
/// is tall, and on the x axis otherwise: an overlap as wide as it is tall
/// is resolved on the x axis.
pub open spec fn resolves_on_y(a: Rect, b: Rect) -> bool {
    a.overlap_w(b) > a.overlap_h(b)
}

/// Where `a` stands after it was pushed out of `b`: moved along the chosen
/// axis by the depth of the overlap, away from the centre of `b`.
pub open spec fn pushed_out(a: Rect, b: Rect) -> Rect {
    if resolves_on_y(a, b) {
        Rect { y: clamp_world(a.y - a.toward_y(b) * a.overlap_h(b)) as i64, ..a }
    } else {
        Rect { x: clamp_world(a.x - a.toward_x(b) * a.overlap_w(b)) as i64, ..a }
    }
}

/// The velocity after the bounce: on the chosen axis the component keeps
/// its magnitude and points away from the centre of `b`.
pub open spec fn reflected(a: Rect, vel: Vec2, b: Rect) -> Vec2 {
    if resolves_on_y(a, b) {
        Vec2 { y: (-a.toward_y(b) * magnitude(vel.y as int)) as i64, ..vel }
    } else {
        Vec2 { x: (-a.toward_x(b) * magnitude(vel.x as int)) as i64, ..vel }
    }
}

/// Tests the moving rectangle `a` against the obstacle `b`. Where they do
/// not meet, nothing changes. Where they meet, `a` is pushed out of `b` and
/// its velocity `vel` is reflected.
pub fn collision_resolver(a: &mut Rect, vel: &mut Vec2, b: &Rect) -> (hit: bool)
    requires
        old(a).wf(),
        old(vel).reflectable(),
        b.wf(),
    ensures
        hit == old(a).meets(*b),
        *final(a) == if hit { pushed_out(*old(a), *b) } else { *old(a) },
        *final(vel) == if hit { reflected(*old(a), *old(vel), *b) } else { *old(vel) },
        final(a).wf(),
        final(a).w == old(a).w,
        final(a).h == old(a).h,
        final(vel).reflectable(),
        // No component of the velocity grows.
        magnitude(final(vel).x as int) <= magnitude(old(vel).x as int),
        magnitude(final(vel).y as int) <= magnitude(old(vel).y as int),
        // Rectangles with a gap between them do not collide.
        old(a).separated(*b) ==> !hit && *final(a) == *old(a) && *final(vel) == *old(vel),
        // The reflected component points away from the obstacle and keeps
        // its magnitude, unless the centres are level on that axis.
        hit && resolves_on_y(*old(a), *b) ==> {
            &&& final(vel).x == old(vel).x
            &&& old(a).toward_y(*b) > 0 ==> final(vel).y <= 0
            &&& old(a).toward_y(*b) < 0 ==> final(vel).y >= 0
            &&& old(a).toward_y(*b) != 0 ==> magnitude(final(vel).y as int) == magnitude(
                old(vel).y as int,
            )
        },
        hit && !resolves_on_y(*old(a), *b) ==> {
            &&& final(vel).y == old(vel).y
            &&& old(a).toward_x(*b) > 0 ==> final(vel).x <= 0
            &&& old(a).toward_x(*b) < 0 ==> final(vel).x >= 0
            &&& old(a).toward_x(*b) != 0 ==> magnitude(final(vel).x as int) == magnitude(
                old(vel).x as int,
            )
        },
{
    let intersection = match a.intersect(b) {
        Some(intersection) => intersection,
        None => {
            return false;
        },
    };
    let to_signum = a.toward(b);
    if intersection.w > intersection.h {
        let speed: i64 = abs(vel.y);
        proof {
            lemma_mul_by_sign(to_signum.y as int, intersection.h as int);
            lemma_mul_by_sign(-to_signum.y as int, speed as int);
        }
        a.y = saturate(a.y - to_signum.y * intersection.h);
        vel.y = -to_signum.y * speed;
    } else {
        let speed: i64 = abs(vel.x);
        proof {
            lemma_mul_by_sign(to_signum.x as int, intersection.w as int);
            lemma_mul_by_sign(-to_signum.x as int, speed as int);
        }
        a.x = saturate(a.x - to_signum.x * intersection.w);
        vel.x = -to_signum.x * speed;
    }
    true
}

/// A product with a sign is the other factor, its negation or zero.
proof fn lemma_mul_by_sign(s: int, v: int)
    requires
        -1 <= s <= 1,
    ensures
        s * v == if s == 1 {
            v
        } else if s == -1 {
            -v
        } else {
            0
        },
{
    assert(1 * v == v && (-1) * v == -v && 0 * v == 0) by (nonlinear_arith);
}

/// An overlap as wide as it is tall is resolved on the x axis: the
/// rectangle keeps its height on the screen and its vertical velocity.
pub proof fn lemma_tie_resolves_on_x(a: Rect, vel: Vec2, b: Rect)
    requires
        a.wf(),
        b.wf(),
        a.meets(b),
        a.overlap_w(b) == a.overlap_h(b),
    ensures
        !resolves_on_y(a, b),
        pushed_out(a, b).y == a.y,
        reflected(a, vel, b).y == vel.y,
        pushed_out(a, b).x == clamp_world(a.x - a.toward_x(b) * a.overlap_w(b)),
{
}

} // verus!
