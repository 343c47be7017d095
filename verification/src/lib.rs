//! Verified core of the companion-core sidecar and its desktop launcher:
//! configuration loading, persona and LLM routing decisions, chat thread
//! state, service panels and diagnostics.
use vstd::prelude::*;

pub mod text;
pub mod clock;
pub mod json;
pub mod paths;
pub mod config;
pub mod server;
pub mod launcher_config;
pub mod chat;
pub mod panel;
pub mod diagnostics;
pub mod control;

verus! {

} // verus!
