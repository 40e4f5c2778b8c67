//! A template scaffolding engine for document projects.
//!
//! A small catalog of named templates each carries an ordered pipeline of
//! scaffold steps: directory creation, literal or remotely fetched file
//! writes, and confirmation-gated version-control and README actions.
//! The engine resolves a template identifier, creates a project root under
//! a destination directory, and drives the pipeline step by step.
//!
//! The engine itself performs no input or output: it is an event-driven
//! state machine that tells its caller which action to perform next
//! (create a directory, write a file, fetch a resource, ask the operator)
//! and consumes the outcome of that action as an event.  An unverified
//! front end performs the real filesystem, network, and console work.

pub mod config;
pub mod engine;
pub mod fsmodel;
pub mod laws;
pub mod paths;
pub mod prompt;
pub mod registry;
pub mod script;
pub mod step;
pub mod text;
