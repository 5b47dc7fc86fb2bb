//! Per-frame movement of the men: screen-bound clamping of a proposed
//! translation, and the lookup of which blocks of the board a man's sprite
//! overlaps.

use vstd::prelude::*;

verus! {

use crate::state::{
    Board, Pos, BLOCK_HEIGHT, BLOCK_WIDTH, BOARD_HEIGHT, BOARD_WIDTH, MAN_HEIGHT, MAN_WIDTH,
    SCREEN_HEIGHT, SCREEN_WIDTH,
};

/// Distance a man covers in one frame at full stick deflection, in
/// coordinate units.  Callers scale the raw axis value by this before
/// handing the movement to [`get_new_pos`].
pub const MAN_SPEED: u32 = 12;

/// The per-frame movement system: it turns each man's input for the frame
/// into that man's new position.
pub struct ManSystem;

impl ManSystem {
    /// Advance one man by one frame: apply each axis of input to the man's
    /// translation with screen-bound clamping, then resolve collisions with
    /// the board.
    pub fn step(
        &self,
        movement_x: Option<i32>,
        movement_y: Option<i32>,
        translation: Pos,
        board: &Board,
    ) -> (p: Pos)
        ensures
            p.x == spec_new_pos(movement_x, translation.x),
            p.y == spec_new_pos(movement_y, translation.y),
    {
        let translation_x = get_new_pos(movement_x, translation.x);
        let translation_y = get_new_pos(movement_y, translation.y);

        let new_pos = Pos::new(translation_x, translation_y);
        pos_after_collisions(new_pos, board)
    }
}

/// The new translation along one axis: unchanged when there is no input,
/// otherwise moved by `movement` and clamped to keep the man's sprite on
/// the screen.
pub open spec fn spec_new_pos(movement: Option<i32>, starting_translation: u32) -> int {
    match movement {
        Some(mv) => {
            if mv != 0 {
                let moved = starting_translation + mv;
                let low = MAN_HEIGHT as int / 2;
                let high = SCREEN_HEIGHT as int - MAN_HEIGHT as int / 2;
                if moved > high {
                    high
                } else if moved < low {
                    low
                } else {
                    moved
                }
            } else {
                starting_translation as int
            }
        },
        None => starting_translation as int,
    }
}

/// Apply one axis of input to one axis of a man's translation.  A zero or
/// absent input leaves the translation untouched; any other input moves it
/// and clamps the result so the sprite stays on the screen.
pub fn get_new_pos(movement: Option<i32>, starting_translation: u32) -> (r: u32)
    ensures
        r == spec_new_pos(movement, starting_translation),
{
    if let Some(mv_amount) = movement {
        if mv_amount != 0 {
            let moved: i64 = starting_translation as i64 + mv_amount as i64;
            let low: i64 = (MAN_HEIGHT / 2) as i64;
            let high: i64 = (SCREEN_HEIGHT - MAN_HEIGHT / 2) as i64;
            if moved > high {
                return high as u32;
            } else if moved < low {
                return low as u32;
            } else {
                return moved as u32;
            }
        }
    }
    starting_translation
}

/// A man that starts with its sprite fully on the screen stays so after any
/// single-axis movement.
pub proof fn lemma_new_pos_stays_on_screen(movement: Option<i32>, starting_translation: u32)
    requires
        MAN_HEIGHT / 2 <= starting_translation <= SCREEN_HEIGHT - MAN_HEIGHT / 2,
    ensures
        MAN_HEIGHT / 2 <= spec_new_pos(movement, starting_translation)
            <= SCREEN_HEIGHT - MAN_HEIGHT / 2,
{
}

/// Resolve collisions between a man's proposed position and the occupied
/// blocks of the board.  Collision resolution is still to come: for now
/// every proposed position is allowed and comes back unchanged.
pub fn pos_after_collisions(new_pos: Pos, board: &Board) -> (p: Pos)
    ensures
        p == new_pos,
{
    let _ = board;
    new_pos
}

/// Which horizontally neighbouring block a man's sprite overlaps, if any.
#[derive(Clone, Copy, PartialEq, PartialOrd, Eq, Ord, Debug, Hash)]
enum HorizontalBlockCollision {
    Left,
    Right,
    Neither,
}

/// The index under which [`Board`] keeps the block in column `column` of
/// row `row`.
pub open spec fn spec_board_index(column: int, row: int) -> int {
    row * BOARD_WIDTH + column
}

pub fn board_index(column: usize, row: usize) -> (i: usize)
    requires
        row * BOARD_WIDTH + column <= usize::MAX,
    ensures
        i == spec_board_index(column as int, row as int),
{
    row * BOARD_WIDTH + column
}

/// The column of the board that the coordinate `x` falls in.
pub open spec fn tile_column(x: u32) -> int {
    x as int / BLOCK_WIDTH as int
}

/// The row of the board that the coordinate `y` falls in.
pub open spec fn tile_row(y: u32) -> int {
    y as int / BLOCK_HEIGHT as int
}

/// Whether a man's sprite centred at `x` reaches into the block to the left
/// of its own column.
pub open spec fn touches_left(x: u32) -> bool {
    tile_column(x) != 0 && x % BLOCK_WIDTH < BLOCK_WIDTH / 2
}

/// Whether a man's sprite centred at `x` reaches into the block to the
/// right of its own column.
pub open spec fn touches_right(x: u32) -> bool {
    tile_column(x) != BOARD_WIDTH - 1 && x % BLOCK_WIDTH > BLOCK_WIDTH / 2
}

/// Whether a man's sprite centred at `y` reaches into the block in the row
/// below its own.
pub open spec fn touches_below(y: u32) -> bool {
    tile_row(y) != 0 && y % BLOCK_HEIGHT < BLOCK_HEIGHT / 2
}

/// Whether a man's sprite centred at `y` reaches into the block in the row
/// above its own.  The row guard compares against `BOARD_HEIGHT` itself, so
/// a position in the topmost row can still name the row beyond the board;
/// positions clamped by [`get_new_pos`] never reach such a `y` (see
/// [`lemma_in_blocks_within_board`]).
pub open spec fn touches_above(y: u32) -> bool {
    tile_row(y) != BOARD_HEIGHT && y % BLOCK_HEIGHT > BLOCK_HEIGHT / 2
}

/// The indices of every block of the board that a man's sprite centred at
/// `(x, y)` overlaps: first the block the centre falls in, then the
/// horizontal neighbour it reaches into, then the vertical neighbour, then
/// the diagonal one, whichever of them it reaches.
pub open spec fn spec_in_blocks(x: u32, y: u32) -> Seq<int> {
    let column = tile_column(x);
    let row = tile_row(y);
    let centre = seq![spec_board_index(column, row)];
    let with_horizontal = if touches_left(x) {
        centre + seq![spec_board_index(column - 1, row)]
    } else if touches_right(x) {
        centre + seq![spec_board_index(column + 1, row)]
    } else {
        centre
    };
    if touches_below(y) {
        let with_vertical = with_horizontal + seq![spec_board_index(column, row - 1)];
        if touches_left(x) {
            with_vertical + seq![spec_board_index(column - 1, row - 1)]
        } else if touches_right(x) {
            with_vertical + seq![spec_board_index(column + 1, row - 1)]
        } else {
            with_vertical
        }
    } else if touches_above(y) {
        let with_vertical = with_horizontal + seq![spec_board_index(column, row + 1)];
        if touches_left(x) {
            with_vertical + seq![spec_board_index(column - 1, row + 1)]
        } else if touches_right(x) {
            with_vertical + seq![spec_board_index(column + 1, row + 1)]
        } else {
            with_vertical
        }
    } else {
        with_horizontal
    }
}

/// The indices of every block of the board that a man's sprite centred at
/// `new_pos` overlaps, in the order given by [`spec_in_blocks`].
pub fn in_blocks(new_pos: Pos) -> (block_indexes: Vec<usize>)
    ensures
        block_indexes@.map_values(|v: usize| v as int) == spec_in_blocks(new_pos.x, new_pos.y),
        1 <= block_indexes@.len() <= 4,
{
    let mut block_indexes: Vec<usize> = Vec::new();
    let x = new_pos.x;
    let y = new_pos.y;

    let in_column: usize = (x / BLOCK_WIDTH) as usize;
    let in_row: usize = (y / BLOCK_HEIGHT) as usize;
    block_indexes.push(board_index(in_column, in_row));

    let horizontal = if in_column != 0 && x % BLOCK_WIDTH < BLOCK_WIDTH / 2 {
        block_indexes.push(board_index(in_column - 1, in_row));
        HorizontalBlockCollision::Left
    } else if in_column != BOARD_WIDTH - 1 && x % BLOCK_WIDTH > BLOCK_WIDTH / 2 {
        block_indexes.push(board_index(in_column + 1, in_row));
        HorizontalBlockCollision::Right
    } else {
        HorizontalBlockCollision::Neither
    };

    if in_row != 0 && y % BLOCK_HEIGHT < BLOCK_HEIGHT / 2 {
        block_indexes.push(board_index(in_column, in_row - 1));
        match horizontal {
            HorizontalBlockCollision::Left => {
                block_indexes.push(board_index(in_column - 1, in_row - 1));
            },
            HorizontalBlockCollision::Right => {
                block_indexes.push(board_index(in_column + 1, in_row - 1));
            },
            HorizontalBlockCollision::Neither => {
            },
        }
    } else if in_row != BOARD_HEIGHT && y % BLOCK_HEIGHT > BLOCK_HEIGHT / 2 {
        block_indexes.push(board_index(in_column, in_row + 1));
        match horizontal {
            HorizontalBlockCollision::Left => {
                block_indexes.push(board_index(in_column - 1, in_row + 1));
            },
            HorizontalBlockCollision::Right => {
                block_indexes.push(board_index(in_column + 1, in_row + 1));
            },
            HorizontalBlockCollision::Neither => {
            },
        }
    }

    block_indexes
}

/// Every block index that [`spec_in_blocks`] reports for a position whose
/// sprite the clamping of [`get_new_pos`] keeps on the screen lies on the
/// board.
pub proof fn lemma_in_blocks_within_board(x: u32, y: u32)
    requires
        x <= SCREEN_WIDTH - MAN_WIDTH / 2,
        y <= SCREEN_HEIGHT - MAN_HEIGHT / 2,
    ensures
        forall|i: int|
            0 <= i < spec_in_blocks(x, y).len()
                ==> 0 <= #[trigger] spec_in_blocks(x, y)[i] < BOARD_WIDTH * BOARD_HEIGHT,
{
}

} // verus!
