//! Keyboard events from an xkb-style layout engine, and the small
//! primitives the windowing backends share.
pub mod common_util;
pub mod xkb;
