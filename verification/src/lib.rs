//! A scrollable on-screen text log.
//!
//! The `logger` module holds the log widget itself: an append-only message
//! history, a scroll offset with clamping rules, the plain description of the
//! box outline drawn behind the text, and the computation of the visible
//! window of messages. A rendering host turns the values this crate returns
//! (text blocks, outline geometry, screen positions) into actual draw calls.

pub mod logger;
