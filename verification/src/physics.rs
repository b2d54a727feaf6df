//! What a frame does to the balls and the blocks: the balls move, then
//! each ball in turn is tested against the paddle and against every
//! block, then the blocks without a life leave the board.

use vstd::prelude::*;
use crate::ball::Ball;
use crate::block::Block;
use crate::geometry::Rect;
use crate::lattice::is_extent;

verus! {

/// No more balls than this are in play. The bound keeps the lives of a
/// block, which every ball may hit once in a frame, within their type.
pub const MAX_BALLS: usize = 0x7fff_ffff;

/// The balls after a frame of `delta` microseconds in which nothing stood
/// in their way.
pub open spec fn ticked(balls: Seq<Ball>, delta: u32, screen_w: i64) -> Seq<Ball> {
    balls.map_values(|ball: Ball| ball.spec_tick(delta, screen_w))
}

/// The blocks that have a life left, in their order.
pub open spec fn alive_blocks(blocks: Seq<Block>) -> Seq<Block> {
    blocks.filter(|block: Block| block.alive())
}

/// The ball and the blocks after the ball was tested against the first
/// `n` blocks in order. A block that the ball meets loses a life, and the
/// ball goes on to the next block from where the bounce left it.
pub open spec fn ball_through_blocks(ball: Ball, blocks: Seq<Block>, n: nat) -> (Ball, Seq<Block>)
    decreases n,
{
    if n == 0 {
        (ball, blocks)
    } else {
        let (before, hit) = ball_through_blocks(ball, blocks, (n - 1) as nat);
        let block = hit[n - 1];
        if before.rect.meets(block.rect) {
            (before.spec_bounce(block.rect), hit.update(n - 1, block.spec_hit()))
        } else {
            (before, hit)
        }
    }
}

/// The balls and the blocks after each of the first `n` balls was tested
/// against the paddle and then against every block.
pub open spec fn balls_through_board(
    balls: Seq<Ball>,
    paddle: Rect,
    blocks: Seq<Block>,
    n: nat,
) -> (Seq<Ball>, Seq<Block>)
    decreases n,
{
    if n == 0 {
        (balls, blocks)
    } else {
        let (done, hit) = balls_through_board(balls, paddle, blocks, (n - 1) as nat);
        let (ball, hit_again) = ball_through_blocks(
            done[n - 1].spec_bounce(paddle),
            hit,
            hit.len(),
        );
        (done.update(n - 1, ball), hit_again)
    }
}

/// Tests one ball against every block in order. Each block that the ball
/// meets pushes the ball out, reflects it and loses a life.
pub fn collide_ball(ball: &mut Ball, blocks: &mut Vec<Block>)
    requires
        old(ball).wf(),
        Block::all_wf(old(blocks)@),
        forall|j: int| 0 <= j < old(blocks)@.len() ==> (#[trigger] old(blocks)@[j]).lives > i32::MIN,
    ensures
        *final(ball) == ball_through_blocks(*old(ball), old(blocks)@, old(blocks)@.len()).0,
        final(blocks)@ == ball_through_blocks(*old(ball), old(blocks)@, old(blocks)@.len()).1,
        final(ball).wf(),
        Block::all_wf(final(blocks)@),
        final(blocks)@.len() == old(blocks)@.len(),
        forall|j: int|
            0 <= j < old(blocks)@.len() ==> {
                &&& (#[trigger] final(blocks)@[j]).rect == old(blocks)@[j].rect
                &&& final(blocks)@[j].block_type == old(blocks)@[j].block_type
                &&& old(blocks)@[j].lives - 1 <= final(blocks)@[j].lives <= old(blocks)@[j].lives
            },
{
    let ghost ball_before: Ball = *ball;
    let ghost blocks_before: Seq<Block> = blocks@;
    let mut j: usize = 0;
    while j < blocks.len()
        invariant
            j <= blocks.len(),
            blocks@.len() == blocks_before.len(),
            ball.wf(),
            *ball == ball_through_blocks(ball_before, blocks_before, j as nat).0,
            blocks@ == ball_through_blocks(ball_before, blocks_before, j as nat).1,
            forall|k: int|
                0 <= k < blocks_before.len() ==> {
                    &&& (#[trigger] blocks@[k]).rect == blocks_before[k].rect
                    &&& blocks@[k].block_type == blocks_before[k].block_type
                    &&& blocks_before[k].lives - 1 <= blocks@[k].lives <= blocks_before[k].lives
                    &&& blocks_before[k].wf()
                    &&& blocks_before[k].lives > i32::MIN
                },
            forall|k: int| j <= k < blocks_before.len() ==> #[trigger] blocks@[k] == blocks_before[k],
        decreases blocks.len() - j,
    {
        let mut block: Block = blocks[j];
        if ball.bounce(&block.rect) {
            block.hit();
            blocks.set(j, block);
        }
        j = j + 1;
    }
}

/// Moves every ball for a frame of `delta` microseconds on a screen
/// `screen_w` wide.
pub fn tick_balls(balls: &mut Vec<Ball>, delta: u32, screen_w: i64)
    requires
        is_extent(screen_w as int),
        Ball::all_wf(old(balls)@),
    ensures
        final(balls)@ == ticked(old(balls)@, delta, screen_w),
        Ball::all_wf(final(balls)@),
{
    let ghost before: Seq<Ball> = balls@;
    let mut i: usize = 0;
    while i < balls.len()
        invariant
            i <= balls.len(),
            is_extent(screen_w as int),
            balls@.len() == before.len(),
            forall|k: int| 0 <= k < before.len() ==> (#[trigger] before[k]).wf(),
            forall|k: int|
                0 <= k < i ==> #[trigger] balls@[k] == before[k].spec_tick(delta, screen_w)
                    && balls@[k].wf(),
            forall|k: int| i <= k < before.len() ==> #[trigger] balls@[k] == before[k],
        decreases balls.len() - i,
    {
        let mut ball: Ball = balls[i];
        ball.tick(delta, screen_w);
        balls.set(i, ball);
        i = i + 1;
    }
}

/// Tests every ball against the paddle and then against every block, one
/// ball after the other.
pub fn collide(balls: &mut Vec<Ball>, paddle: &Rect, blocks: &mut Vec<Block>)
    requires
        old(balls)@.len() <= MAX_BALLS,
        paddle.wf(),
        Ball::all_wf(old(balls)@),
        Block::all_wf(old(blocks)@),
        Block::all_alive(old(blocks)@),
    ensures
        final(balls)@ == balls_through_board(
            old(balls)@,
            *paddle,
            old(blocks)@,
            old(balls)@.len(),
        ).0,
        final(blocks)@ == balls_through_board(
            old(balls)@,
            *paddle,
            old(blocks)@,
            old(balls)@.len(),
        ).1,
        final(balls)@.len() == old(balls)@.len(),
        final(blocks)@.len() == old(blocks)@.len(),
        Ball::all_wf(final(balls)@),
        Block::all_wf(final(blocks)@),
        forall|j: int|
            0 <= j < old(blocks)@.len() ==> {
                &&& (#[trigger] final(blocks)@[j]).rect == old(blocks)@[j].rect
                &&& final(blocks)@[j].block_type == old(blocks)@[j].block_type
                &&& final(blocks)@[j].lives <= old(blocks)@[j].lives
            },
{
    let ghost balls_before: Seq<Ball> = balls@;
    let ghost blocks_before: Seq<Block> = blocks@;
    let mut i: usize = 0;
    while i < balls.len()
        invariant
            i <= balls.len(),
            balls@.len() == balls_before.len(),
            balls_before.len() <= MAX_BALLS,
            blocks@.len() == blocks_before.len(),
            paddle.wf(),
            balls@ == balls_through_board(balls_before, *paddle, blocks_before, i as nat).0,
            blocks@ == balls_through_board(balls_before, *paddle, blocks_before, i as nat).1,
            forall|k: int| 0 <= k < balls@.len() ==> (#[trigger] balls@[k]).wf(),
            forall|k: int|
                0 <= k < blocks_before.len() ==> {
                    &&& (#[trigger] blocks@[k]).rect == blocks_before[k].rect
                    &&& blocks@[k].block_type == blocks_before[k].block_type
                    &&& blocks_before[k].lives - i <= blocks@[k].lives <= blocks_before[k].lives
                    &&& blocks_before[k].wf()
                    &&& blocks_before[k].alive()
                },
        decreases balls.len() - i,
    {
        let mut ball: Ball = balls[i];
        ball.bounce(paddle);
        collide_ball(&mut ball, blocks);
        balls.set(i, ball);
        i = i + 1;
    }
}

/// Takes the blocks without a life off the board.
pub fn remove_dead(blocks: &mut Vec<Block>)
    ensures
        final(blocks)@ == alive_blocks(old(blocks)@),
        Block::all_alive(final(blocks)@),
        Block::all_wf(old(blocks)@) ==> Block::all_wf(final(blocks)@),
{
    let mut kept: Vec<Block> = Vec::new();
    let mut i: usize = 0;
    proof {
        reveal(Seq::filter);
        assert(blocks@.take(0) == Seq::<Block>::empty());
    }
    while i < blocks.len()
        invariant
            i <= blocks.len(),
            kept@ == alive_blocks(blocks@.take(i as int)),
            Block::all_alive(kept@),
            Block::all_wf(blocks@) ==> Block::all_wf(kept@),
        decreases blocks.len() - i,
    {
        let block: Block = blocks[i];
        proof {
            reveal(Seq::filter);
            assert(blocks@.take(i + 1).drop_last() == blocks@.take(i as int));
        }
        if block.lives > 0 {
            kept.push(block);
        }
        i = i + 1;
    }
    proof {
        assert(blocks@.take(blocks@.len() as int) == blocks@);
    }
    *blocks = kept;
}

/// The cleanup keeps the blocks that have a life left and no others.
pub proof fn lemma_cleanup_keeps_the_alive(blocks: Seq<Block>, block: Block)
    ensures
        alive_blocks(blocks).contains(block) <==> blocks.contains(block) && block.alive(),
        alive_blocks(blocks).len() <= blocks.len(),
{
    let alive = |block: Block| block.alive();
    blocks.lemma_filter_len(alive);
    if alive_blocks(blocks).contains(block) {
        blocks.lemma_filter_contains_rev(alive, block);
        let i = choose|i: int| 0 <= i < blocks.filter(alive).len() && blocks.filter(alive)[i] == block;
        blocks.lemma_filter_pred(alive, i);
    }
    if blocks.contains(block) && block.alive() {
        let i = choose|i: int| 0 <= i < blocks.len() && blocks[i] == block;
        blocks.lemma_filter_contains(alive, i);
    }
}

} // verus!
