//! A verified core for a compilation service: commands are submitted to an
//! engine, executed in the background, and their outcomes polled later
//! through durable handles. The compile pipeline's decision logic (path
//! validation, definition discovery, artifact planning, response assembly)
//! is verified here; process invocation and file reads happen outside.

pub mod engine;
pub mod handles;
pub mod paths;
pub mod pipeline;
pub mod types;
pub mod wire;
