//! Interaction patterns.

pub mod bidi_streaming;
