//! Core of a small retained-mode widget toolkit: properties that remember
//! their own changes, an event taxonomy, and the two traversals that route
//! events through a tree of widgets.

pub mod data;
pub mod event;
pub mod traits;
pub mod widgets;
pub mod backend;
