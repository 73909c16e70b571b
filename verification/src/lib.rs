//! A Rust-aware debugger library: the x86-64 register file of a traced
//! process, the view-model that the debugger's panels render, and the
//! data behind those panels, all with verified contracts.

pub mod error;
pub mod process;
pub mod register_info;
pub mod registers;
pub mod sdb;
pub mod text;
pub mod ui;
pub mod ui_types;
