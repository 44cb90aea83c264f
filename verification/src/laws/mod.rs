//! What the operations of the library are for, stated of all inputs.
pub mod app;
pub mod blocks;
pub mod fonts;
pub mod help;
pub mod names;
pub mod table;
pub mod text;
