pub mod color_transition;
pub mod tile;
