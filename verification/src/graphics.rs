pub mod canvas;
pub mod pixel;
