//! Session core of a terminal chat client: a single-line editor, a bounded
//! conversation buffer, a line wrapper for display and the interaction state
//! machine that ties them together around an inference engine.

pub mod chars;
pub mod wrap;
pub mod editor;
pub mod conversation;
pub mod session;
