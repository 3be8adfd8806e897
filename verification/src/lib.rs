//! A small library for generating multiple-choice quizzes through a hosted
//! chat-completion service and filing the results on disk.
//!
//! The library itself performs no I/O: it builds the outbound request,
//! interprets the reply, validates the quiz payload against the expected
//! schema, and plans where a quiz should be stored. A thin host around it
//! performs the network call and the file writes.

pub mod digits;
pub mod errors;
pub mod json;
pub mod jsonio;
pub mod quiz;
pub mod requester;
pub mod store;
pub mod strops;
