//! Small widgets shared by the panels.

pub mod ownership_badge;
