//! Core of an emoji picker: the emoji catalog with its category, skin-tone and
//! search filters, the most-recently-used list, and the state of a scrollable
//! region in whole pixels.

pub mod button;
pub mod config;
pub mod emoji;
pub mod favorites;
pub mod filter;
pub mod group;
pub mod locale;
pub mod navigation;
pub mod scrollable;
pub mod skin_tone;
pub mod text;
pub mod window;
