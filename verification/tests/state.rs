use bomberman::state::{
    initialise_blocks, spawn_position, Block, BlockState, Man, Player, Pos, BOARD_HEIGHT,
    BOARD_WIDTH, MAN_HEIGHT, MAN_WIDTH, SCREEN_WIDTH,
};
use bomberman::systems::man::board_index;

#[test]
fn block_emptiness_follows_state() {
    assert!(Block::new(BlockState::Empty).is_empty());
    assert!(!Block::new(BlockState::Bomb).is_empty());
    assert!(!Block::new(BlockState::Destructable).is_empty());
    assert!(!Block::new(BlockState::Indestructable).is_empty());
}

#[test]
fn fresh_board_covers_the_whole_grid() {
    let blocks = initialise_blocks();
    assert_eq!(blocks.len(), BOARD_WIDTH * BOARD_HEIGHT);
}

#[test]
fn fresh_board_is_a_lattice_of_indestructable_blocks() {
    let blocks = initialise_blocks();
    for row in 0..BOARD_HEIGHT {
        for column in 0..BOARD_WIDTH {
            let occupied = column % 2 == 1 && row % 2 == 1;
            assert_eq!(blocks[board_index(column, row)].is_empty(), !occupied);
        }
    }
}

#[test]
fn men_spawn_in_the_bottom_corners() {
    let left = spawn_position(Player::Player1, SCREEN_WIDTH);
    assert_eq!(left, Pos::new(MAN_WIDTH / 2, MAN_HEIGHT / 2));
    let right = spawn_position(Player::Player2, SCREEN_WIDTH);
    assert_eq!(right, Pos::new(SCREEN_WIDTH - MAN_WIDTH / 2, MAN_HEIGHT / 2));
}

#[test]
fn new_man_takes_the_sprite_size() {
    let man = Man::new(Player::Player1);
    assert_eq!(man.width, MAN_WIDTH);
    assert_eq!(man.height, MAN_HEIGHT);
    assert!(matches!(man.player, Player::Player1));
    let other = Man::new(Player::Player2);
    assert!(matches!(other.player, Player::Player2));
}
