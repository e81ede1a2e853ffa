//! Verified core of the coding-assistant back end: error classification and
//! retry policy for the completion API, the agentic tool-calling loop, the
//! streamed (SSE) reply decoder, the MCP tool-result handling and the
//! per-platform command tables.
use vstd::prelude::*;

pub mod agent;
pub mod api;
pub mod json;
pub mod mcp;
pub mod platform;
pub mod retry;
pub mod sse;
pub mod text;

verus! {

} // verus!
