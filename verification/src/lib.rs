//! The rules of a small brick-breaking game: a paddle, balls that bounce
//! off it, and a board of blocks that the balls wear down.
//!
//! The game is played on an integer lattice (see [`lattice`]), so that
//! every rule is exact: where a ball stands after a frame, which way it
//! bounces, when a block leaves the board. The library neither opens a
//! window nor reads a key. A frame's input comes in as a
//! [`game::FrameInput`]; [`game::Game::step`] plays the frame, and
//! [`game::Game::draw`] says what to show.

pub mod ball;
pub mod block;
pub mod board;
pub mod collision;
pub mod game;
pub mod geometry;
pub mod lattice;
pub mod physics;
pub mod player;
pub mod random;
pub mod render;
pub mod root;

pub use crate::ball::Ball;
pub use crate::block::{Block, BlockType};
pub use crate::board::init_blocks;
pub use crate::collision::collision_resolver;
pub use crate::game::{FrameInput, Game};
pub use crate::geometry::{Rect, Vec2};
pub use crate::player::Player;
pub use crate::render::{Color, Frame, Sprite};
