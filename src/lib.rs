//! Core of a retained-mode widget toolkit: geometry, widget traversal, event
//! dispatch and draw-command batching.
pub mod context;
pub mod dispatcher;
pub mod event;
pub mod geometry;
pub mod image;
pub mod queue;
pub mod visitor;
pub mod widget;
pub mod window;
