pub mod visualizers;
