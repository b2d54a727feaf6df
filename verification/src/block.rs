//! The blocks that the ball wears down.

use vstd::prelude::*;
use crate::geometry::{Rect, Vec2};
use crate::lattice::UNIT;
use crate::render::{Color, Sprite};

verus! {

/// The width of a block.
pub const BLOCK_WIDTH: i64 = 100 * UNIT;

/// The height of a block.
pub const BLOCK_HEIGHT: i64 = 40 * UNIT;

/// The lives of a new block.
pub const BLOCK_LIVES: i32 = 2;

/// The kind of a block.
#[derive(Clone, Copy, Debug, PartialEq, Eq, Structural)]
pub enum BlockType {
    Regular,
    /// A bonus block. It is drawn in a colour of its own; it leaves the
    /// board as a regular block does.
    SpawnBallOnDeath,
}

/// A block of the board.
#[derive(Clone, Copy, Debug, PartialEq, Eq, Structural)]
pub struct Block {
    pub rect: Rect,
    /// How many hits the block can still take. Within a frame the count
    /// may fall to zero or below; such a block leaves the board when the
    /// frame ends.
    pub lives: i32,
    pub block_type: BlockType,
}

impl Block {
    /// The block lies in the world.
    pub open spec fn wf(self) -> bool {
        self.rect.wf()
    }

    /// A block stays on the board while it has a life left.
    pub open spec fn alive(self) -> bool {
        self.lives > 0
    }

    /// Every one of the blocks is well formed.
    pub open spec fn all_wf(blocks: Seq<Block>) -> bool {
        forall|i: int| 0 <= i < blocks.len() ==> (#[trigger] blocks[i]).wf()
    }

    /// Every one of the blocks has a life left.
    pub open spec fn all_alive(blocks: Seq<Block>) -> bool {
        forall|i: int| 0 <= i < blocks.len() ==> (#[trigger] blocks[i]).alive()
    }

    /// A block of the standard size with its top-left corner at `pos` and
    /// both lives.
    pub open spec fn spec_new(pos: Vec2, block_type: BlockType) -> Block {
        Block {
            rect: Rect { x: pos.x, y: pos.y, w: BLOCK_WIDTH, h: BLOCK_HEIGHT },
            lives: BLOCK_LIVES,
            block_type,
        }
    }

    /// The block after one hit.
    pub open spec fn spec_hit(self) -> Block {
        Block { lives: (self.lives - 1) as i32, ..self }
    }

    /// The colour tells the player the block's state: a bonus block is
    /// green whatever its lives, a regular block is red while it has both
    /// lives and orange once it is damaged.
    pub open spec fn color(self) -> Color {
        match self.block_type {
            BlockType::SpawnBallOnDeath => Color::Green,
            BlockType::Regular => if self.lives == 2 {
                Color::Red
            } else {
                Color::Orange
            },
        }
    }

    /// What the block looks like on the screen.
    pub open spec fn sprite(self) -> Sprite {
        Sprite { rect: self.rect, color: self.color() }
    }

    /// A block of the standard size with its top-left corner at `pos`.
    pub fn new(pos: Vec2, block_type: BlockType) -> (block: Block)
        ensures
            block == Block::spec_new(pos, block_type),
            block.alive(),
            pos.wf() ==> block.wf(),
    {
        Block {
            rect: Rect { x: pos.x, y: pos.y, w: BLOCK_WIDTH, h: BLOCK_HEIGHT },
            lives: BLOCK_LIVES,
            block_type,
        }
    }

    /// Takes one life.
    pub fn hit(&mut self)
        requires
            old(self).lives > i32::MIN,
        ensures
            *final(self) == old(self).spec_hit(),
            final(self).lives == old(self).lives - 1,
    {
        self.lives = self.lives - 1;
    }

    /// Says what to draw for the block.
    pub fn draw(&self) -> (sprite: Sprite)
        ensures
            sprite == self.sprite(),
    {
        let color = match self.block_type {
            BlockType::Regular => match self.lives {
                2 => Color::Red,
                _ => Color::Orange,
            },
            BlockType::SpawnBallOnDeath => Color::Green,
        };
        Sprite { rect: self.rect, color }
    }
}

/// A new block stays on the board after one hit and leaves it after two.
pub proof fn lemma_new_block_takes_two_hits(pos: Vec2, block_type: BlockType)
    ensures
        Block::spec_new(pos, block_type).alive(),
        Block::spec_new(pos, block_type).spec_hit().alive(),
        !Block::spec_new(pos, block_type).spec_hit().spec_hit().alive(),
{
}

} // verus!
