//! Turning a commit range into a changelog: the diff filter, the line
//! rendering of a commit's diff, the JSON model used to talk to the model
//! endpoint, the prompt builders and the aggregation state machine.
use vstd::prelude::*;

pub mod cli;
pub mod diff;
pub mod filter;
pub mod json;
pub mod ollama;
pub mod pipeline;
pub mod prompt;
pub mod repo;
pub mod sink;
pub mod text;

verus! {

} // verus!
