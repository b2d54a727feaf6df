//! The balls: how one is launched, how it moves in a frame, and how it
//! bounces off an obstacle.

use vstd::prelude::*;
use crate::collision::{collision_resolver, pushed_out, reflected};
use crate::geometry::{Rect, Vec2};
use crate::lattice::{abs, clamp_world, is_extent, magnitude, saturate, sign, ONE, UNIT};
use crate::random::random_below;
use crate::render::{Color, Sprite};
use crate::root::{isqrt, lemma_square_monotonic, root_floor};

verus! {

/// The side of a ball.
pub const BALL_SIZE: i64 = 50 * UNIT;

/// The speed, in length units per second, of a ball whose velocity has
/// length one.
pub const BALL_SPEED: i64 = 400;

/// How many headings a new ball is launched with: each whole number of
/// thousandths from `-ONE` to `ONE`.
pub const HEADINGS: usize = 2_001;

/// The velocity of a new ball: the vector `(heading, ONE)` scaled to
/// length one. It is divided by its length rounded down, and each
/// quotient is rounded toward zero.
pub open spec fn launch_velocity(heading: int) -> Vec2 {
    let length = root_floor(heading * heading + ONE * ONE);
    Vec2 {
        x: (sign(heading) * (magnitude(heading) * ONE / length)) as i64,
        y: (ONE * ONE / length) as i64,
    }
}

/// Computes the velocity of a ball launched with the given heading.
pub fn launch(heading: i64) -> (velocity: Vec2)
    requires
        -ONE <= heading <= ONE,
    ensures
        velocity == launch_velocity(heading as int),
        -ONE <= velocity.x <= ONE,
        0 < velocity.y <= ONE,
{
    let reach: i64 = abs(heading);
    proof {
        lemma_square_monotonic(reach as int, ONE as int);
        assert(reach * reach == heading * heading) by (nonlinear_arith)
            requires
                reach == heading || reach == -heading,
        ;
    }
    let squared: i64 = reach * reach + ONE * ONE;
    let root: u64 = isqrt(squared as u64);
    proof {
        if root < ONE {
            lemma_square_monotonic(root + 1, ONE as int);
        }
        if root > 2 * ONE {
            lemma_square_monotonic(2 * ONE, root as int);
        }
    }
    let length: i64 = root as i64;
    let across: i64 = reach * ONE / length;
    let down: i64 = ONE * ONE / length;
    proof {
        assert(0 <= across <= ONE && (reach == 0 ==> across == 0)) by (nonlinear_arith)
            requires
                across == reach * ONE / (length as int),
                0 <= reach <= ONE,
                ONE <= length <= 2 * ONE,
                ONE == 1000,
        ;
        assert(0 < down <= ONE) by (nonlinear_arith)
            requires
                down == ONE * ONE / (length as int),
                ONE <= length <= 2 * ONE,
                ONE == 1000,
        ;
        assert(sign(heading as int) * across == if heading < 0 {
            -across
        } else {
            across as int
        }) by (nonlinear_arith)
            requires
                heading == 0 ==> across == 0,
        ;
    }
    Vec2 { x: if heading < 0 { -across } else { across }, y: down }
}

/// A ball: where it is, and the direction in which it moves.
#[derive(Clone, Copy, Debug, PartialEq, Eq, Structural)]
pub struct Ball {
    pub rect: Rect,
    /// In thousandths. A new ball's velocity is about one long; bounces
    /// and the top edge of the screen may change its length.
    pub velocity: Vec2,
}

impl Ball {
    /// The rectangle lies in the world and no component of the velocity
    /// is larger than one.
    pub open spec fn wf(self) -> bool {
        &&& self.rect.wf()
        &&& -ONE <= self.velocity.x <= ONE
        &&& -ONE <= self.velocity.y <= ONE
    }

    /// Every one of the balls is well formed.
    pub open spec fn all_wf(balls: Seq<Ball>) -> bool {
        forall|i: int| 0 <= i < balls.len() ==> (#[trigger] balls[i]).wf()
    }

    /// A ball at `pos`, launched with the given heading.
    pub open spec fn spec_with_heading(pos: Vec2, heading: int) -> Ball {
        Ball {
            rect: Rect { x: pos.x, y: pos.y, w: BALL_SIZE, h: BALL_SIZE },
            velocity: launch_velocity(heading),
        }
    }

    /// The ball after a frame of `delta` microseconds on a screen
    /// `screen_w` wide. It moves by its velocity. Past the left edge it is
    /// put back one unit inside the screen; past the right edge it is put
    /// one unit left of the screen's left edge; neither changes its
    /// velocity. Above the top edge its vertical velocity becomes one,
    /// downward. Nothing holds it at the bottom edge.
    pub open spec fn spec_tick(self, delta: u32, screen_w: i64) -> Ball {
        let x = clamp_world(self.rect.x + self.velocity.x * delta * BALL_SPEED);
        let y = clamp_world(self.rect.y + self.velocity.y * delta * BALL_SPEED);
        let x_left = if x < 0 { UNIT as int } else { x };
        let x_kept = if x_left > screen_w - self.rect.w { -UNIT as int } else { x_left };
        Ball {
            rect: Rect { x: x_kept as i64, y: y as i64, ..self.rect },
            velocity: Vec2 { y: if y < 0 { ONE } else { self.velocity.y }, ..self.velocity },
        }
    }

    /// The ball after it was tested against an obstacle: pushed out and
    /// reflected where it meets the obstacle, unchanged where it does not.
    pub open spec fn spec_bounce(self, obstacle: Rect) -> Ball {
        if self.rect.meets(obstacle) {
            Ball {
                rect: pushed_out(self.rect, obstacle),
                velocity: reflected(self.rect, self.velocity, obstacle),
            }
        } else {
            self
        }
    }

    /// What the ball looks like on the screen.
    pub open spec fn sprite(self) -> Sprite {
        Sprite { rect: self.rect, color: Color::DarkBlue }
    }

    /// A ball at `pos`, launched with the given heading.
    pub fn with_heading(pos: Vec2, heading: i64) -> (ball: Ball)
        requires
            -ONE <= heading <= ONE,
        ensures
            ball == Ball::spec_with_heading(pos, heading as int),
            ball.velocity.y > 0,
            pos.wf() ==> ball.wf(),
    {
        Ball {
            rect: Rect { x: pos.x, y: pos.y, w: BALL_SIZE, h: BALL_SIZE },
            velocity: launch(heading),
        }
    }

    /// A ball at `pos`, launched downward with a heading drawn at random.
    pub fn new(pos: Vec2) -> (ball: Ball)
        ensures
            exists|heading: int|
                -ONE <= heading <= ONE && ball == #[trigger] Ball::spec_with_heading(pos, heading),
            ball.velocity.y > 0,
            pos.wf() ==> ball.wf(),
    {
        let drawn: usize = random_below(HEADINGS);
        let heading: i64 = drawn as i64 - ONE;
        Ball::with_heading(pos, heading)
    }

    /// Tests the ball against an obstacle and resolves the collision, if
    /// there is one.
    pub fn bounce(&mut self, obstacle: &Rect) -> (hit: bool)
        requires
            old(self).wf(),
            obstacle.wf(),
        ensures
            hit == old(self).rect.meets(*obstacle),
            *final(self) == old(self).spec_bounce(*obstacle),
            final(self).wf(),
    {
        collision_resolver(&mut self.rect, &mut self.velocity, obstacle)
    }

    /// Says what to draw for the ball.
    pub fn draw(&self) -> (sprite: Sprite)
        ensures
            sprite == self.sprite(),
    {
        Sprite { rect: self.rect, color: Color::DarkBlue }
    }

    /// Moves the ball for a frame of `delta` microseconds on a screen
    /// `screen_w` wide.
    pub fn tick(&mut self, delta: u32, screen_w: i64)
        requires
            old(self).wf(),
            is_extent(screen_w as int),
        ensures
            *final(self) == old(self).spec_tick(delta, screen_w),
            final(self).wf(),
            final(self).velocity.x == old(self).velocity.x,
    {
        proof {
            lemma_mul_within(self.velocity.x as int, delta as int, ONE as int, u32::MAX as int);
            lemma_mul_within(self.velocity.y as int, delta as int, ONE as int, u32::MAX as int);
        }
        self.rect.x = saturate(self.rect.x + self.velocity.x * (delta as i64) * BALL_SPEED);
        self.rect.y = saturate(self.rect.y + self.velocity.y * (delta as i64) * BALL_SPEED);
        if self.rect.x < 0 {
            self.rect.x = UNIT;
        }
        if self.rect.x > screen_w - self.rect.w {
            self.rect.x = -UNIT;
        }
        if self.rect.y < 0 {
            self.velocity.y = ONE;
        }
    }
}

/// A product is no larger in magnitude than the product of its factors'
/// bounds.
proof fn lemma_mul_within(a: int, b: int, bound_a: int, bound_b: int)
    requires
        -bound_a <= a <= bound_a,
        0 <= b <= bound_b,
    ensures
        -(bound_a * bound_b) <= a * b <= bound_a * bound_b,
{
    assert(-(bound_a * bound_b) <= a * b <= bound_a * bound_b) by (nonlinear_arith)
        requires
            -bound_a <= a <= bound_a,
            0 <= b <= bound_b,
    ;
}

} // verus!
