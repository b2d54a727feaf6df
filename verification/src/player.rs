//! The paddle that the player steers along the bottom of the screen.

use vstd::prelude::*;
use crate::geometry::Rect;
use crate::lattice::{is_extent, ONE, UNIT};
use crate::render::{Color, Sprite};

verus! {

/// The paddle's speed in length units per second.
pub const PLAYER_SPEED: i64 = 700;

/// The width of the paddle.
pub const PLAYER_WIDTH: i64 = 150 * UNIT;

/// The height of the paddle.
pub const PLAYER_HEIGHT: i64 = 40 * UNIT;

/// How far above the bottom of the screen the paddle's top edge lies.
pub const PLAYER_RAISE: i64 = 100 * UNIT;

/// The direction that the two keys ask for: -1 for left alone, 1 for right
/// alone, 0 for both or neither.
pub open spec fn direction(left: bool, right: bool) -> int {
    if left && !right {
        -1
    } else if right && !left {
        1
    } else {
        0
    }
}

/// The paddle.
#[derive(Clone, Copy, Debug, PartialEq, Eq, Structural)]
pub struct Player {
    pub rect: Rect,
}

impl Player {
    /// The paddle lies in the world.
    pub open spec fn wf(self) -> bool {
        self.rect.wf()
    }

    /// The paddle at the start: centred, a fixed distance above the bottom.
    pub open spec fn spec_new(screen_w: i64, screen_h: i64) -> Player {
        Player {
            rect: Rect {
                x: (screen_w / 2 - PLAYER_WIDTH / 2) as i64,
                y: (screen_h - PLAYER_RAISE) as i64,
                w: PLAYER_WIDTH,
                h: PLAYER_HEIGHT,
            },
        }
    }

    /// Where the paddle's left edge is after `delta` microseconds: moved at
    /// the paddle's speed in the direction asked for, then held on the
    /// screen. Where the screen is narrower than the paddle, the paddle's
    /// right edge is held at the screen's right edge.
    pub open spec fn spec_tick_x(self, delta: u32, left: bool, right: bool, screen_w: i64) -> int {
        let moved = self.rect.x + direction(left, right) * ONE * delta * PLAYER_SPEED;
        let held_left = if moved < 0 { 0 } else { moved };
        if held_left > screen_w - self.rect.w {
            screen_w - self.rect.w
        } else {
            held_left
        }
    }

    /// The paddle after a frame: only its left edge moves.
    pub open spec fn spec_tick(self, delta: u32, left: bool, right: bool, screen_w: i64) -> Player {
        Player {
            rect: Rect { x: self.spec_tick_x(delta, left, right, screen_w) as i64, ..self.rect },
        }
    }

    /// What the paddle looks like on the screen.
    pub open spec fn sprite(self) -> Sprite {
        Sprite { rect: self.rect, color: Color::DarkBlue }
    }

    /// The paddle at the start of a game on a screen of the given size.
    pub fn new(screen_w: i64, screen_h: i64) -> (player: Player)
        requires
            is_extent(screen_w as int),
            is_extent(screen_h as int),
        ensures
            player == Player::spec_new(screen_w, screen_h),
            player.wf(),
    {
        Player {
            rect: Rect {
                x: screen_w / 2 - PLAYER_WIDTH / 2,
                y: screen_h - PLAYER_RAISE,
                w: PLAYER_WIDTH,
                h: PLAYER_HEIGHT,
            },
        }
    }

    /// Says what to draw for the paddle.
    pub fn draw(&self) -> (sprite: Sprite)
        ensures
            sprite == self.sprite(),
    {
        Sprite { rect: self.rect, color: Color::DarkBlue }
    }

    /// Moves the paddle for a frame of `delta` microseconds in which the
    /// left and right keys are held as given, on a screen `screen_w` wide.
    pub fn tick(&mut self, delta: u32, left: bool, right: bool, screen_w: i64)
        requires
            old(self).wf(),
            is_extent(screen_w as int),
        ensures
            *final(self) == old(self).spec_tick(delta, left, right, screen_w),
            final(self).rect.x == old(self).spec_tick_x(delta, left, right, screen_w),
            final(self).wf(),
            // The paddle stays on a screen that is wide enough to hold it.
            screen_w >= old(self).rect.w ==> 0 <= final(self).rect.x && final(self).rect.x
                + final(self).rect.w <= screen_w,
    {
        let reach: i64 = ONE * (delta as i64) * PLAYER_SPEED;
        let x_move: i64 = match (left, right) {
            (true, false) => -reach,
            (false, true) => reach,
            _ => 0,
        };
        assert(x_move == direction(left, right) * ONE * delta * PLAYER_SPEED) by (nonlinear_arith)
            requires
                reach == ONE * delta * PLAYER_SPEED,
                x_move == direction(left, right) * reach,
        ;
        self.rect.x = self.rect.x + x_move;
        if self.rect.x < 0 {
            self.rect.x = 0;
        }
        if self.rect.x > screen_w - self.rect.w {
            self.rect.x = screen_w - self.rect.w;
        }
    }
}

} // verus!
