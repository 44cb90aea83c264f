//! The logic of a character map.
pub mod app;
pub mod helpers;
pub mod laws;
pub mod table;
pub mod text;
pub mod unicode;
pub mod widgets;
