//! A worker for the external tasks of a BPMN process engine.
//!
//! The crate holds the parts of the worker that decide something: the decoder
//! for the engine's typed variables, the registry of task handlers, the
//! description of each request to the engine, and the state machine that takes
//! one task after the other through lock, variables, handler and report.
//! Sending the requests and waiting between polls is left to the caller.

pub mod json;
pub mod string_map;
pub mod codec;
pub mod process_variables;
pub mod decoder_laws;
pub mod types;
pub mod settings;
pub mod structures;
pub mod registry;
pub mod api;
pub mod polling;
