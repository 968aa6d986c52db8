pub mod config;
pub mod laws;
pub mod render;
pub mod text;
pub mod ui;
