pub mod state;
pub mod systems;
