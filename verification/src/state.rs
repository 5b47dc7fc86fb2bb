//! The game's core data: screen and board dimensions, positions, players,
//! and the board of blocks.
//!
//! All coordinates are integers measured in tenths of a screen pixel
//! ([`PIXEL`] units per pixel), so that sub-pixel movement speeds stay exact
//! in integer arithmetic.

use vstd::prelude::*;

verus! {

/// Coordinate units per screen pixel.
pub const PIXEL: u32 = 10;

/// Height of the screen, in coordinate units.
pub const SCREEN_HEIGHT: u32 = 480 * PIXEL;

/// Width of the screen, in coordinate units.
pub const SCREEN_WIDTH: u32 = 480 * PIXEL;

/// Height of a man's sprite, in coordinate units.
pub const MAN_HEIGHT: u32 = 32 * PIXEL;

/// Width of a man's sprite, in coordinate units.
pub const MAN_WIDTH: u32 = 32 * PIXEL;

/// A point on the screen, in coordinate units.
#[derive(Clone, Copy, Debug, PartialEq, Eq, Structural)]
pub struct Pos {
    pub x: u32,
    pub y: u32,
}

impl Pos {
    pub fn new(x: u32, y: u32) -> (p: Pos)
        ensures
            p.x == x,
            p.y == y,
    {
        Pos { x, y }
    }
}

/// Which of the two player-controlled characters a man belongs to.
#[derive(Clone, Copy, Debug, PartialEq, Eq, Structural)]
pub enum Player {
    Player1,
    Player2,
}

/// A player-controlled character.  Its width and height are in coordinate
/// units.
pub struct Man {
    pub width: u32,
    pub height: u32,
    pub player: Player,
}

impl Man {
    pub fn new(player: Player) -> (m: Man)
        ensures
            m.width == MAN_WIDTH,
            m.height == MAN_HEIGHT,
            m.player == player,
    {
        Man { width: MAN_WIDTH, height: MAN_HEIGHT, player }
    }
}

/// Where a man first appears: player one in the bottom-left corner of the
/// screen, player two in the bottom-right, each with its sprite fully on
/// the screen.
pub fn spawn_position(player: Player, screen_width: u32) -> (p: Pos)
    requires
        MAN_WIDTH / 2 <= screen_width,
    ensures
        player is Player1 ==> p == (Pos { x: MAN_WIDTH / 2, y: MAN_HEIGHT / 2 }),
        player is Player2 ==> p == (Pos { x: (screen_width - MAN_WIDTH / 2) as u32, y: MAN_HEIGHT / 2 }),
{
    match player {
        Player::Player1 => Pos::new(MAN_WIDTH / 2, MAN_HEIGHT / 2),
        Player::Player2 => Pos::new(screen_width - MAN_WIDTH / 2, MAN_HEIGHT / 2),
    }
}

/// Height of one block of the board, in coordinate units.
pub const BLOCK_HEIGHT: u32 = 32 * PIXEL;

/// Width of one block of the board, in coordinate units.
pub const BLOCK_WIDTH: u32 = 32 * PIXEL;

/// Number of block rows on the board.
pub const BOARD_HEIGHT: usize = 15;

/// Number of block columns on the board.
pub const BOARD_WIDTH: usize = 15;

/// What currently occupies one block of the board.
#[derive(Clone, Copy, PartialEq, PartialOrd, Eq, Ord, Debug, Hash, Structural)]
pub enum BlockState {
    Empty,
    Bomb,
    Destructable,
    Indestructable,
}

/// One block of the board.
pub struct Block {
    state: BlockState,
}

impl Block {
    /// The state this block holds.
    pub closed spec fn spec_state(&self) -> BlockState {
        self.state
    }

    pub fn new(state: BlockState) -> (b: Block)
        ensures
            b.spec_state() == state,
    {
        Block { state }
    }

    /// Whether a man may walk through this block.
    pub fn is_empty(&self) -> (r: bool)
        ensures
            r == (self.spec_state() == BlockState::Empty),
    {
        self.state == BlockState::Empty
    }
}

/// The board: one block per cell, row by row from the bottom, so that the
/// block in column `c` of row `r` sits at index `r * BOARD_WIDTH + c`.
pub struct Board {
    pub blocks: Vec<Block>,
}

impl Board {
    pub fn new(blocks: Vec<Block>) -> (b: Board)
        ensures
            b.blocks == blocks,
    {
        Board { blocks }
    }
}

/// The state a fresh board holds in column `column` of row `row`: an
/// indestructable block on every cell whose column and row are both odd, in
/// the classic lattice pattern, and nothing anywhere else.
pub open spec fn spec_initial_state(column: int, row: int) -> BlockState {
    if column % 2 == 1 && row % 2 == 1 {
        BlockState::Indestructable
    } else {
        BlockState::Empty
    }
}

/// Build the blocks of a fresh board, row by row from the bottom.
pub fn initialise_blocks() -> (blocks: Vec<Block>)
    ensures
        blocks@.len() == BOARD_WIDTH * BOARD_HEIGHT,
        forall|row: int, column: int|
            0 <= row < BOARD_HEIGHT && 0 <= column < BOARD_WIDTH
                ==> #[trigger] blocks@[row * BOARD_WIDTH + column].spec_state()
                    == spec_initial_state(column, row),
{
    let mut blocks: Vec<Block> = Vec::new();
    for y in 0..BOARD_HEIGHT
        invariant
            blocks@.len() == y * BOARD_WIDTH,
            forall|row: int, column: int|
                0 <= row < y && 0 <= column < BOARD_WIDTH
                    ==> #[trigger] blocks@[row * BOARD_WIDTH + column].spec_state()
                        == spec_initial_state(column, row),
    {
        for x in 0..BOARD_WIDTH
            invariant
                blocks@.len() == y * BOARD_WIDTH + x,
                y < BOARD_HEIGHT,
                forall|row: int, column: int|
                    0 <= row < y && 0 <= column < BOARD_WIDTH
                        ==> #[trigger] blocks@[row * BOARD_WIDTH + column].spec_state()
                            == spec_initial_state(column, row),
                forall|column: int|
                    0 <= column < x
                        ==> #[trigger] blocks@[y * BOARD_WIDTH + column].spec_state()
                            == spec_initial_state(column, y as int),
        {
            let block_state = match x % 2 == 1 && y % 2 == 1 {
                true => BlockState::Indestructable,
                false => BlockState::Empty,
            };
            blocks.push(Block::new(block_state));
        }
    }
    blocks
}

} // verus!
