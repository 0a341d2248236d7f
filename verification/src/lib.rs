//! Resolves the configuration of agents of an AI assistant.
//!
//! An agent can be declared in several places: in a document of the project and in
//! one of the user, each of which declares many agents, and in a file of its own
//! in either layer. `generator::discover` finds the sources of every agent and
//! merges them by their precedence with `KdlAgent::merge`. `generator::merge` then
//! merges into each agent the agents that it names as parents, and
//! `Agent::try_from` turns the result into the manifest that is written out.
//!
//! Sets and maps of strings keep the order in which their members were added, so
//! that every result is the same on every run. The contracts speak of them as
//! sequences; `text_set` and `text_map` say what they hold as sets and maps.

pub mod agent;
pub mod commands;
pub mod config;
pub mod error;
pub mod generator;
pub mod source;
pub mod text;
pub mod text_map;
pub mod text_set;
