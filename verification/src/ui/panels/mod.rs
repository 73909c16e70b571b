//! The debugger's panels: their state, and the rows of text they show.

pub mod breakpoints;
pub mod call_stack;
pub mod disassembly;
pub mod memory;
pub mod registers;
pub mod source;
pub mod variables;
