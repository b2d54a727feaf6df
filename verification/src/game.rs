//! The game: the paddle, the blocks and the balls, and what a frame does
//! to them.

use vstd::prelude::*;
use crate::ball::Ball;
use crate::block::Block;
use crate::board::{grid, init_blocks, picks_within, with_bonuses, BONUS_PICKS};
use crate::geometry::Vec2;
use crate::lattice::{is_extent, ONE};
use crate::physics::{
    alive_blocks, balls_through_board, collide, remove_dead, tick_balls, ticked, MAX_BALLS,
};
use crate::player::Player;
use crate::render::{Color, Frame, Sprite};

verus! {

/// What the player and the window report for one frame.
#[derive(Clone, Copy, Debug, PartialEq, Eq, Structural)]
pub struct FrameInput {
    /// The time since the frame before, in microseconds.
    pub delta: u32,
    /// Whether the key for moving left is held.
    pub left: bool,
    /// Whether the key for moving right is held.
    pub right: bool,
    /// Whether the key for one more ball was pressed in this frame.
    pub spawn: bool,
    /// The width of the screen in this frame.
    pub screen_w: i64,
    /// The height of the screen in this frame.
    pub screen_h: i64,
}

impl FrameInput {
    /// The screen fits in the world.
    pub open spec fn wf(self) -> bool {
        is_extent(self.screen_w as int) && is_extent(self.screen_h as int)
    }
}

/// The middle of the screen, where a new ball appears.
pub open spec fn screen_center(screen_w: i64, screen_h: i64) -> Vec2 {
    Vec2 { x: (screen_w / 2) as i64, y: (screen_h / 2) as i64 }
}

/// The game as a value: the view of a `Game`.
pub struct Scene {
    pub player: Player,
    pub blocks: Seq<Block>,
    pub balls: Seq<Ball>,
}

impl Scene {
    /// Everything lies in the world, every block on the board has a life
    /// left, and the balls are no more than `MAX_BALLS`.
    pub open spec fn wf(self) -> bool {
        &&& self.player.wf()
        &&& Block::all_wf(self.blocks)
        &&& Block::all_alive(self.blocks)
        &&& Ball::all_wf(self.balls)
        &&& self.balls.len() <= MAX_BALLS
    }

    /// The scene with one more ball, behind the others.
    pub open spec fn with_ball(self, ball: Ball) -> Scene {
        Scene { balls: self.balls.push(ball), ..self }
    }

    /// The scene after a frame: the paddle moves, then every ball moves,
    /// then the balls are tested against the paddle and the blocks, then
    /// the blocks without a life leave the board.
    pub open spec fn advance(self, input: FrameInput) -> Scene {
        let player = self.player.spec_tick(input.delta, input.left, input.right, input.screen_w);
        let moved = ticked(self.balls, input.delta, input.screen_w);
        let (balls, blocks) = balls_through_board(moved, player.rect, self.blocks, moved.len());
        Scene { player, blocks: alive_blocks(blocks), balls }
    }

    /// The scene after a frame in which a ball with the given heading
    /// appears first if the frame's input asks for one.
    pub open spec fn step(self, input: FrameInput, heading: int) -> Scene {
        if input.spawn {
            self.with_ball(
                Ball::spec_with_heading(screen_center(input.screen_w, input.screen_h), heading),
            ).advance(input)
        } else {
            self.advance(input)
        }
    }

    /// What a frame shows, in the order in which it is drawn: the paddle,
    /// the blocks, the balls.
    pub open spec fn sprites(self) -> Seq<Sprite> {
        seq![self.player.sprite()] + self.blocks.map_values(|block: Block| block.sprite())
            + self.balls.map_values(|ball: Ball| ball.sprite())
    }
}

/// The game: one paddle, the blocks on the board and the balls in play.
#[derive(Debug)]
pub struct Game {
    pub player: Player,
    pub blocks: Vec<Block>,
    pub balls: Vec<Ball>,
}

impl View for Game {
    type V = Scene;

    open spec fn view(&self) -> Scene {
        Scene { player: self.player, blocks: self.blocks@, balls: self.balls@ }
    }
}

/// Computes the middle of the screen.
pub fn center_of(screen_w: i64, screen_h: i64) -> (center: Vec2)
    requires
        is_extent(screen_w as int),
        is_extent(screen_h as int),
    ensures
        center == screen_center(screen_w, screen_h),
        center.wf(),
{
    Vec2 { x: screen_w / 2, y: screen_h / 2 }
}

impl Game {
    /// A new game on a screen of the given size: the paddle at its start,
    /// one ball in the middle of the screen and a fresh board.
    pub fn new(screen_w: i64, screen_h: i64) -> (game: Game)
        requires
            is_extent(screen_w as int),
            is_extent(screen_h as int),
        ensures
            game@.wf(),
            game@.player == Player::spec_new(screen_w, screen_h),
            exists|heading: int|
                -ONE <= heading <= ONE && game@.balls == seq![
                    #[trigger] Ball::spec_with_heading(screen_center(screen_w, screen_h), heading),
                ],
            exists|picks: Seq<int>|
                {
                    &&& picks.len() == BONUS_PICKS
                    &&& picks_within(picks, game@.blocks.len() as int)
                    &&& game@.blocks == #[trigger] with_bonuses(grid(screen_w as int), picks)
                },
    {
        let player = Player::new(screen_w, screen_h);
        let mut blocks: Vec<Block> = Vec::new();
        let mut balls: Vec<Ball> = Vec::new();
        let ball = Ball::new(center_of(screen_w, screen_h));
        balls.push(ball);
        init_blocks(&mut blocks, screen_w);
        proof {
            assert(Seq::<Block>::empty() + grid(screen_w as int) == grid(screen_w as int));
            assert(balls@ == seq![ball]);
        }
        Game { player, blocks, balls }
    }

    /// Puts one more ball in play.
    pub fn add_ball(&mut self, ball: Ball)
        requires
            old(self)@.wf(),
            old(self)@.balls.len() < MAX_BALLS,
            ball.wf(),
        ensures
            final(self)@ == old(self)@.with_ball(ball),
            final(self)@.wf(),
    {
        self.balls.push(ball);
    }

    /// Plays one frame with the balls that are in play.
    pub fn advance(&mut self, input: &FrameInput)
        requires
            old(self)@.wf(),
            input.wf(),
        ensures
            final(self)@ == old(self)@.advance(*input),
            final(self)@.wf(),
            // No ball leaves the game, and no block comes back.
            final(self)@.balls.len() == old(self)@.balls.len(),
            final(self)@.blocks.len() <= old(self)@.blocks.len(),
            // The paddle stays on a screen that is wide enough to hold it.
            input.screen_w >= old(self)@.player.rect.w ==> 0 <= final(self)@.player.rect.x
                && final(self)@.player.rect.x + final(self)@.player.rect.w <= input.screen_w,
    {
        self.player.tick(input.delta, input.left, input.right, input.screen_w);
        tick_balls(&mut self.balls, input.delta, input.screen_w);
        collide(&mut self.balls, &self.player.rect, &mut self.blocks);
        remove_dead(&mut self.blocks);
    }

    /// Plays one frame: where the input asks for one more ball, a ball
    /// with a heading drawn at random appears in the middle of the screen
    /// first.
    pub fn step(&mut self, input: &FrameInput)
        requires
            old(self)@.wf(),
            input.wf(),
            input.spawn ==> old(self)@.balls.len() < MAX_BALLS,
        ensures
            exists|heading: int|
                -ONE <= heading <= ONE && final(self)@ == #[trigger] old(self)@.step(*input, heading),
            !input.spawn ==> final(self)@ == old(self)@.advance(*input),
            final(self)@.wf(),
            final(self)@.balls.len() == old(self)@.balls.len() + if input.spawn {
                1int
            } else {
                0int
            },
            final(self)@.blocks.len() <= old(self)@.blocks.len(),
            input.screen_w >= old(self)@.player.rect.w ==> 0 <= final(self)@.player.rect.x
                && final(self)@.player.rect.x + final(self)@.player.rect.w <= input.screen_w,
    {
        if input.spawn {
            let ball = Ball::new(center_of(input.screen_w, input.screen_h));
            let ghost heading: int = choose|heading: int|
                -ONE <= heading <= ONE && ball == #[trigger] Ball::spec_with_heading(
                    screen_center(input.screen_w, input.screen_h),
                    heading,
                );
            self.add_ball(ball);
            self.advance(input);
            assert(self@ == old(self)@.step(*input, heading));
        } else {
            self.advance(input);
            assert(self@ == old(self)@.step(*input, 0));
        }
    }

    /// Says what the frame shows: a white screen, and on it the paddle,
    /// the blocks and the balls in that order.
    pub fn draw(&self) -> (frame: Frame)
        ensures
            frame.background == Color::White,
            frame.sprites@ == self@.sprites(),
    {
        let mut sprites: Vec<Sprite> = Vec::new();
        sprites.push(self.player.draw());
        let mut i: usize = 0;
        while i < self.blocks.len()
            invariant
                i <= self.blocks.len(),
                sprites@ == seq![self.player.sprite()] + self.blocks@.take(i as int).map_values(
                    |block: Block| block.sprite(),
                ),
            decreases self.blocks.len() - i,
        {
            sprites.push(self.blocks[i].draw());
            i = i + 1;
        }
        assert(self.blocks@.take(self.blocks@.len() as int) == self.blocks@);
        let mut k: usize = 0;
        while k < self.balls.len()
            invariant
                k <= self.balls.len(),
                sprites@ == seq![self.player.sprite()] + self.blocks@.map_values(
                    |block: Block| block.sprite(),
                ) + self.balls@.take(k as int).map_values(|ball: Ball| ball.sprite()),
            decreases self.balls.len() - k,
        {
            sprites.push(self.balls[k].draw());
            k = k + 1;
        }
        assert(self.balls@.take(self.balls@.len() as int) == self.balls@);
        Frame { background: Color::White, sprites }
    }
}

} // verus!
