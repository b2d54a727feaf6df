use yabog::block::{Block, BlockType, BLOCK_HEIGHT, BLOCK_LIVES, BLOCK_WIDTH};
use yabog::board::{
    init_blocks, lay_out, mark_bonus, BOARD_COLUMNS, BOARD_PADDING, BOARD_ROWS, BOARD_TOP,
    BONUS_PICKS, CELL_HEIGHT, CELL_WIDTH,
};
use yabog::geometry::{Rect, Vec2};
use yabog::lattice::UNIT;
use yabog::render::{Color, Sprite};

#[test]
fn board_constants() {
    assert_eq!(BOARD_COLUMNS, 6);
    assert_eq!(BOARD_ROWS, 6);
    assert_eq!(BOARD_PADDING, UNIT);
    assert_eq!(BOARD_TOP, 50 * UNIT);
    assert_eq!(BONUS_PICKS, 3);
    assert_eq!(BLOCK_WIDTH, 100 * UNIT);
    assert_eq!(BLOCK_HEIGHT, 40 * UNIT);
    assert_eq!(CELL_WIDTH, 101 * UNIT);
    assert_eq!(CELL_HEIGHT, 41 * UNIT);
    assert_eq!(BLOCK_LIVES, 2);
}

#[test]
fn new_block_has_two_lives() {
    let block = Block::new(Vec2 { x: 3 * UNIT, y: -4 * UNIT }, BlockType::SpawnBallOnDeath);
    assert_eq!(
        block,
        Block {
            rect: Rect { x: 3 * UNIT, y: -4 * UNIT, w: 100 * UNIT, h: 40 * UNIT },
            lives: 2,
            block_type: BlockType::SpawnBallOnDeath,
        }
    );
}

#[test]
fn hit_takes_one_life() {
    let mut block = Block::new(Vec2 { x: 0, y: 0 }, BlockType::Regular);
    block.hit();
    assert_eq!(block.lives, 1);
    block.hit();
    assert_eq!(block.lives, 0);
    block.hit();
    assert_eq!(block.lives, -1);
    assert_eq!(block.rect, Rect { x: 0, y: 0, w: 100 * UNIT, h: 40 * UNIT });
    assert_eq!(block.block_type, BlockType::Regular);
}

#[test]
fn regular_block_is_red_then_orange() {
    let mut block = Block::new(Vec2 { x: 5, y: 6 }, BlockType::Regular);
    assert_eq!(block.draw(), Sprite { rect: block.rect, color: Color::Red });
    block.hit();
    assert_eq!(block.draw(), Sprite { rect: block.rect, color: Color::Orange });
}

#[test]
fn regular_block_with_other_lives_is_orange() {
    let rect = Rect { x: 0, y: 0, w: 100 * UNIT, h: 40 * UNIT };
    for lives in [1, 3, 4, 100] {
        let block = Block { rect, lives, block_type: BlockType::Regular };
        assert_eq!(block.draw().color, Color::Orange);
    }
}

#[test]
fn bonus_block_is_green_whatever_its_lives() {
    let rect = Rect { x: 0, y: 0, w: 100 * UNIT, h: 40 * UNIT };
    for lives in [1, 2, 3, 100] {
        let block = Block { rect, lives, block_type: BlockType::SpawnBallOnDeath };
        assert_eq!(block.draw(), Sprite { rect, color: Color::Green });
    }
}

#[test]
fn lay_out_places_blocks_row_by_row() {
    let mut blocks: Vec<Block> = Vec::new();
    lay_out(&mut blocks, 500 * UNIT);
    assert_eq!(blocks.len(), 36);
    // The board is 606 wide on a screen 500 wide: it starts 53 left of it.
    let mut i: usize = 0;
    while i < 36 {
        let column = (i % 6) as i64;
        let row = (i / 6) as i64;
        assert_eq!(
            blocks[i],
            Block {
                rect: Rect {
                    x: -53 * UNIT + column * 101 * UNIT,
                    y: 50 * UNIT + row * 41 * UNIT,
                    w: 100 * UNIT,
                    h: 40 * UNIT,
                },
                lives: 2,
                block_type: BlockType::Regular,
            }
        );
        i += 1;
    }
    assert_eq!(blocks[0].rect.x, -53 * UNIT);
    assert_eq!(blocks[5].rect.x, 452 * UNIT);
    assert_eq!(blocks[6].rect, Rect { x: -53 * UNIT, y: 91 * UNIT, w: 100 * UNIT, h: 40 * UNIT });
    assert_eq!(blocks[35].rect, Rect { x: 452 * UNIT, y: 255 * UNIT, w: 100 * UNIT, h: 40 * UNIT });
}

#[test]
fn lay_out_centres_the_board() {
    let mut blocks: Vec<Block> = Vec::new();
    lay_out(&mut blocks, 1000 * UNIT);
    assert_eq!(blocks[0].rect.x, 197 * UNIT);
    assert_eq!(blocks[5].rect.x + blocks[5].rect.w + UNIT, 803 * UNIT);
    let mut narrow: Vec<Block> = Vec::new();
    lay_out(&mut narrow, 0);
    assert_eq!(narrow[0].rect.x, -303 * UNIT);
    // Half a tick is dropped, toward zero on either side.
    let mut odd: Vec<Block> = Vec::new();
    lay_out(&mut odd, 606 * UNIT + 3);
    assert_eq!(odd[0].rect.x, 1);
    let mut odd_left: Vec<Block> = Vec::new();
    lay_out(&mut odd_left, 606 * UNIT - 3);
    assert_eq!(odd_left[0].rect.x, -1);
}

#[test]
fn lay_out_appends() {
    let first = Block::new(Vec2 { x: 7, y: 8 }, BlockType::SpawnBallOnDeath);
    let mut blocks: Vec<Block> = vec![first];
    lay_out(&mut blocks, 500 * UNIT);
    assert_eq!(blocks.len(), 37);
    assert_eq!(blocks[0], first);
    assert_eq!(blocks[1].rect.x, -53 * UNIT);
}

#[test]
fn mark_bonus_changes_the_kind_only() {
    let mut blocks: Vec<Block> = Vec::new();
    lay_out(&mut blocks, 500 * UNIT);
    let before = blocks.clone();
    mark_bonus(&mut blocks, 7);
    let mut i: usize = 0;
    while i < 36 {
        if i == 7 {
            assert_eq!(
                blocks[i],
                Block { rect: before[i].rect, lives: 2, block_type: BlockType::SpawnBallOnDeath }
            );
        } else {
            assert_eq!(blocks[i], before[i]);
        }
        i += 1;
    }
    // Marking the same block again changes nothing.
    let once = blocks.clone();
    mark_bonus(&mut blocks, 7);
    assert_eq!(blocks, once);
}

#[test]
fn init_blocks_lays_out_and_marks_up_to_three() {
    let mut round = 0;
    while round < 300 {
        let mut blocks: Vec<Block> = Vec::new();
        init_blocks(&mut blocks, 500 * UNIT);
        assert_eq!(blocks.len(), 36);
        let mut bonus = 0;
        let mut i: usize = 0;
        while i < 36 {
            let column = (i % 6) as i64;
            let row = (i / 6) as i64;
            assert_eq!(
                blocks[i].rect,
                Rect {
                    x: -53 * UNIT + column * 101 * UNIT,
                    y: 50 * UNIT + row * 41 * UNIT,
                    w: 100 * UNIT,
                    h: 40 * UNIT,
                }
            );
            assert_eq!(blocks[i].lives, 2);
            if blocks[i].block_type == BlockType::SpawnBallOnDeath {
                bonus += 1;
            }
            i += 1;
        }
        assert!(bonus >= 1 && bonus <= 3);
        round += 1;
    }
}

#[test]
fn init_blocks_picks_different_blocks() {
    // Over many boards the picks fall on more than one block, and on
    // blocks other than the first and the last.
    let mut marked = [false; 36];
    let mut round = 0;
    while round < 300 {
        let mut blocks: Vec<Block> = Vec::new();
        init_blocks(&mut blocks, 500 * UNIT);
        let mut i: usize = 0;
        while i < 36 {
            if blocks[i].block_type == BlockType::SpawnBallOnDeath {
                marked[i] = true;
            }
            i += 1;
        }
        round += 1;
    }
    let count = marked.iter().filter(|m| **m).count();
    assert!(count >= 10);
}

#[test]
fn init_blocks_picks_among_all_the_blocks() {
    let first = Block::new(Vec2 { x: 7, y: 8 }, BlockType::Regular);
    let mut blocks: Vec<Block> = vec![first];
    init_blocks(&mut blocks, 500 * UNIT);
    assert_eq!(blocks.len(), 37);
    assert_eq!(blocks[0].rect, first.rect);
    assert_eq!(blocks[0].lives, 2);
    let bonus = blocks.iter().filter(|b| b.block_type == BlockType::SpawnBallOnDeath).count();
    assert!(bonus >= 1 && bonus <= 3);
}
