//! The board: a grid of blocks, a few of them picked at random as bonus
//! blocks.

use vstd::prelude::*;
use crate::block::{Block, BlockType, BLOCK_HEIGHT, BLOCK_WIDTH};
use crate::geometry::Vec2;
use crate::lattice::{half, halve, is_extent, UNIT};
use crate::random::random_below;

verus! {

/// The blocks in a row of the fresh board.
pub const BOARD_COLUMNS: usize = 6;

/// The rows of the fresh board.
pub const BOARD_ROWS: usize = 6;

/// The gap between neighbouring blocks.
pub const BOARD_PADDING: i64 = UNIT;

/// The distance of the first row from the top of the screen.
pub const BOARD_TOP: i64 = 50 * UNIT;

/// How many times a block is picked to become a bonus block.
pub const BONUS_PICKS: usize = 3;

/// The width of a block and the gap beside it.
pub const CELL_WIDTH: i64 = BLOCK_WIDTH + BOARD_PADDING;

/// The height of a block and the gap below it.
pub const CELL_HEIGHT: i64 = BLOCK_HEIGHT + BOARD_PADDING;

/// The left edge of the board, which is centred on the screen.
pub open spec fn board_left(screen_w: int) -> int {
    half(screen_w - CELL_WIDTH * BOARD_COLUMNS)
}

/// The block of the fresh board with index `i`, counted row by row.
pub open spec fn cell(screen_w: int, i: int) -> Block {
    Block::spec_new(
        Vec2 {
            x: (board_left(screen_w) + (i % BOARD_COLUMNS as int) * CELL_WIDTH) as i64,
            y: (BOARD_TOP + (i / BOARD_COLUMNS as int) * CELL_HEIGHT) as i64,
        },
        BlockType::Regular,
    )
}

/// The fresh board: regular blocks, row by row.
pub open spec fn grid(screen_w: int) -> Seq<Block> {
    Seq::new((BOARD_COLUMNS * BOARD_ROWS) as nat, |i: int| cell(screen_w, i))
}

/// The blocks with the one at `index` turned into a bonus block.
pub open spec fn with_bonus(blocks: Seq<Block>, index: int) -> Seq<Block> {
    blocks.update(index, Block { block_type: BlockType::SpawnBallOnDeath, ..blocks[index] })
}

/// The blocks with each of `picks` turned into a bonus block in turn. A
/// block that is picked twice is a bonus block all the same.
pub open spec fn with_bonuses(blocks: Seq<Block>, picks: Seq<int>) -> Seq<Block>
    decreases picks.len(),
{
    if picks.len() == 0 {
        blocks
    } else {
        with_bonus(with_bonuses(blocks, picks.drop_last()), picks.last())
    }
}

/// Whether each of `picks` is an index below `len`.
pub open spec fn picks_within(picks: Seq<int>, len: int) -> bool {
    forall|k: int| 0 <= k < picks.len() ==> 0 <= #[trigger] picks[k] < len
}

/// How many of the blocks are bonus blocks.
pub open spec fn bonus_count(blocks: Seq<Block>) -> nat {
    blocks.filter(|block: Block| block.block_type == BlockType::SpawnBallOnDeath).len()
}

/// Appends the fresh board for a screen `screen_w` wide.
pub fn lay_out(blocks: &mut Vec<Block>, screen_w: i64)
    requires
        is_extent(screen_w as int),
    ensures
        final(blocks)@ == old(blocks)@ + grid(screen_w as int),
{
    proof {
        lemma_board_width();
    }
    let board_start_x: i64 = halve(screen_w - CELL_WIDTH * (BOARD_COLUMNS as i64));
    let count: usize = BOARD_COLUMNS * BOARD_ROWS;
    let mut i: usize = 0;
    while i < count
        invariant
            i <= count,
            count == BOARD_COLUMNS * BOARD_ROWS,
            is_extent(screen_w as int),
            board_start_x == board_left(screen_w as int),
            blocks@ == old(blocks)@ + grid(screen_w as int).take(i as int),
        decreases count - i,
    {
        proof {
            lemma_cell_in_world(screen_w as int, i as int);
        }
        let block_x: i64 = ((i % BOARD_COLUMNS) as i64) * CELL_WIDTH;
        let block_y: i64 = ((i / BOARD_COLUMNS) as i64) * CELL_HEIGHT;
        blocks.push(
            Block::new(
                Vec2 { x: board_start_x + block_x, y: BOARD_TOP + block_y },
                BlockType::Regular,
            ),
        );
        i = i + 1;
    }
}

/// Turns the block at `index` into a bonus block.
pub fn mark_bonus(blocks: &mut Vec<Block>, index: usize)
    requires
        index < old(blocks).len(),
    ensures
        final(blocks)@ == with_bonus(old(blocks)@, index as int),
{
    let mut block: Block = blocks[index];
    block.block_type = BlockType::SpawnBallOnDeath;
    blocks.set(index, block);
}

/// Sets up the board for a screen `screen_w` wide: appends the fresh board,
/// then picks a block at random, as often as `BONUS_PICKS` says, and turns
/// it into a bonus block. The picks range over all the blocks, those that
/// were there before included.
pub fn init_blocks(blocks: &mut Vec<Block>, screen_w: i64)
    requires
        is_extent(screen_w as int),
    ensures
        exists|picks: Seq<int>|
            {
                &&& picks.len() == BONUS_PICKS
                &&& picks_within(picks, final(blocks)@.len() as int)
                &&& final(blocks)@ == #[trigger] with_bonuses(
                    old(blocks)@ + grid(screen_w as int),
                    picks,
                )
            },
        final(blocks)@.len() == old(blocks)@.len() + BOARD_COLUMNS * BOARD_ROWS,
        forall|i: int|
            0 <= i < final(blocks)@.len() ==> {
                &&& (#[trigger] final(blocks)@[i]).rect == (old(blocks)@ + grid(
                    screen_w as int,
                ))[i].rect
                &&& final(blocks)@[i].lives == (old(blocks)@ + grid(screen_w as int))[i].lives
            },
        bonus_count(final(blocks)@) <= bonus_count(old(blocks)@) + BONUS_PICKS,
        bonus_count(old(blocks)@) == 0 ==> bonus_count(final(blocks)@) >= 1,
        Block::all_wf(old(blocks)@) ==> Block::all_wf(final(blocks)@),
        Block::all_alive(old(blocks)@) ==> Block::all_alive(final(blocks)@),
{
    lay_out(blocks, screen_w);
    let ghost fresh: Seq<Block> = blocks@;
    let ghost mut picks: Seq<int> = Seq::empty();
    proof {
        lemma_bonus_count_of_fresh(old(blocks)@, screen_w as int);
        assert forall|i: int| 0 <= i < grid(screen_w as int).len() implies (#[trigger] grid(
            screen_w as int,
        )[i]).wf() by {
            lemma_cell_in_world(screen_w as int, i);
        }
    }
    let mut n: usize = 0;
    while n < BONUS_PICKS
        invariant
            n <= BONUS_PICKS,
            fresh.len() == old(blocks)@.len() + BOARD_COLUMNS * BOARD_ROWS,
            picks.len() == n,
            picks_within(picks, fresh.len() as int),
            blocks@ == with_bonuses(fresh, picks),
            blocks@.len() == fresh.len(),
            forall|i: int|
                0 <= i < fresh.len() ==> (#[trigger] blocks@[i]).rect == fresh[i].rect
                    && blocks@[i].lives == fresh[i].lives,
            bonus_count(blocks@) <= bonus_count(fresh) + n,
            n >= 1 ==> bonus_count(blocks@) >= 1,
        decreases BONUS_PICKS - n,
    {
        let rand_index: usize = random_below(blocks.len());
        proof {
            lemma_bonus_count_after_mark(blocks@, rand_index as int);
            assert(picks.push(rand_index as int).drop_last() == picks);
            picks = picks.push(rand_index as int);
        }
        mark_bonus(blocks, rand_index);
        n = n + 1;
    }
}

/// On a screen that fits in the world, every block of the fresh board
/// lies in the world.
pub proof fn lemma_cell_in_world(screen_w: int, i: int)
    requires
        is_extent(screen_w),
        0 <= i < BOARD_COLUMNS * BOARD_ROWS,
    ensures
        cell(screen_w, i).wf(),
        cell(screen_w, i).alive(),
        cell(screen_w, i).rect.x == board_left(screen_w) + (i % 6) * CELL_WIDTH,
        cell(screen_w, i).rect.y == BOARD_TOP + (i / 6) * CELL_HEIGHT,
{
    lemma_board_width();
    let column = i % 6;
    let row = i / 6;
    assert(0 <= column * CELL_WIDTH <= 505 * UNIT) by (nonlinear_arith)
        requires
            0 <= column <= 5,
            CELL_WIDTH == 101 * UNIT,
    ;
    assert(0 <= row * CELL_HEIGHT <= 205 * UNIT) by (nonlinear_arith)
        requires
            0 <= row <= 5,
            CELL_HEIGHT == 41 * UNIT,
    ;
}

/// The sizes of a cell and of a row of cells, in units.
proof fn lemma_board_width()
    ensures
        CELL_WIDTH == 101 * UNIT,
        CELL_HEIGHT == 41 * UNIT,
        CELL_WIDTH * BOARD_COLUMNS == 606 * UNIT,
{
    assert(CELL_WIDTH * BOARD_COLUMNS == 606 * UNIT) by (nonlinear_arith)
        requires
            CELL_WIDTH == 101 * UNIT,
            BOARD_COLUMNS == 6,
    ;
}

/// The board is centred: the gap left of it and the gap right of it, the
/// last block's padding counted with the board, differ by one tick at
/// most. Where the screen is narrower than the board, the gaps are
/// negative.
pub proof fn lemma_board_centred(screen_w: int)
    ensures
        ({
            let left_gap = board_left(screen_w);
            let right_gap = screen_w - (board_left(screen_w) + CELL_WIDTH * BOARD_COLUMNS);
            -1 <= left_gap - right_gap <= 1
        }),
{
    lemma_board_width();
}

/// The count of bonus blocks, block by block from the last.
proof fn lemma_bonus_count_by_last(blocks: Seq<Block>)
    ensures
        bonus_count(blocks) == if blocks.len() == 0 {
            0nat
        } else {
            bonus_count(blocks.drop_last()) + if blocks.last().block_type
                == BlockType::SpawnBallOnDeath {
                1nat
            } else {
                0nat
            }
        },
{
    reveal(Seq::filter);
}

/// Turning a block into a bonus block adds one to the count of bonus
/// blocks if it was a regular block, and nothing if it was a bonus block.
pub proof fn lemma_bonus_count_after_mark(blocks: Seq<Block>, index: int)
    requires
        0 <= index < blocks.len(),
    ensures
        bonus_count(with_bonus(blocks, index)) == bonus_count(blocks) + if blocks[index].block_type
            == BlockType::SpawnBallOnDeath {
            0nat
        } else {
            1nat
        },
        bonus_count(with_bonus(blocks, index)) >= 1,
    decreases blocks.len(),
{
    let marked = with_bonus(blocks, index);
    lemma_bonus_count_by_last(blocks);
    lemma_bonus_count_by_last(marked);
    if index == blocks.len() - 1 {
        assert(marked.drop_last() == blocks.drop_last());
    } else {
        lemma_bonus_count_after_mark(blocks.drop_last(), index);
        assert(marked.drop_last() == with_bonus(blocks.drop_last(), index));
    }
}

/// Appending the fresh board adds no bonus block.
pub proof fn lemma_bonus_count_of_fresh(blocks: Seq<Block>, screen_w: int)
    ensures
        bonus_count(blocks + grid(screen_w)) == bonus_count(blocks),
{
    lemma_bonus_count_of_regular_tail(blocks, grid(screen_w));
}

/// Appending regular blocks adds no bonus block.
proof fn lemma_bonus_count_of_regular_tail(blocks: Seq<Block>, tail: Seq<Block>)
    requires
        forall|i: int| 0 <= i < tail.len() ==> (#[trigger] tail[i]).block_type == BlockType::Regular,
    ensures
        bonus_count(blocks + tail) == bonus_count(blocks),
    decreases tail.len(),
{
    if tail.len() == 0 {
        assert(blocks + tail == blocks);
    } else {
        lemma_bonus_count_of_regular_tail(blocks, tail.drop_last());
        lemma_bonus_count_by_last(blocks + tail);
        assert((blocks + tail).drop_last() == blocks + tail.drop_last());
    }
}

} // verus!
