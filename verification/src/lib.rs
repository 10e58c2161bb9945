pub mod colors;
pub mod emotion;
pub mod emotion_bg_visualizer;
pub mod gridutils;
pub mod mathutils;
pub mod random;
pub mod shaderutils;
pub mod utils;
