//! A scrollable region in whole pixels: the scroll offset of each axis, the
//! geometry of the scrollbars, and what pointer and touch input does to them.
//!
//! Distances are integers. A relative offset is a number of millionths of
//! the scrollable range: [`geometry::WHOLE`] stands for the end.

pub mod geometry;
pub mod offset;
pub mod state;
pub mod scrollbars;
pub mod events;
pub mod view;
pub mod widget;

