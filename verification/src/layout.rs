pub mod alignment;
pub mod geometry;
pub mod laws;
pub mod node;
pub mod sized_node;
pub mod saturating;
pub mod size_resolution;
pub mod sizing;
