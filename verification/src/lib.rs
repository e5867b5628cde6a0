//! The decision logic of the conductor's executor, which drives a rollup's
//! execution service from blocks of the sequencer, and the request routing of
//! the sequencer block service.
pub mod types;
pub mod executed_blocks;
pub mod executor;
pub mod laws;
pub mod sequencer_service;
pub mod time;
