//! The user interface's own logic: the mock debug session that feeds the
//! panels, the panels' state and what they compute for display, and the
//! color themes.

pub mod app;
pub mod mock;
pub mod panels;
pub mod theme;
pub mod widgets;
