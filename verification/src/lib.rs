//! Assembles source files into the context of a completion agent.
//!
//! Files that were found and read arrive as a list of [`loader::ReadOutcome`]
//! values. Those that could not be read are dropped, each remaining document
//! becomes one labelled context entry, and the entries are attached in order
//! to an agent that is bound to a completion model. The answer to the single
//! prompt, or the failure of the completion client, is then turned into what
//! the run reports.

pub mod agent;
pub mod context;
pub mod loader;
pub mod pipeline;
