//! A terminal-UI composition layer: a tree of widgets with positional
//! addressing and depth-first iteration, and the event model that a UI main
//! loop consumes.

pub mod componets;
pub mod utils;
pub mod events;
pub mod widgets;
