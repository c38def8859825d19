pub mod slider;
pub mod app;
pub mod render;
