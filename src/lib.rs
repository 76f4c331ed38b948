//! Fault-proof test fixtures: the fixture data model, its content-addressed
//! witness store and the decisions that drive a fault-proof program run.

pub mod cli;
pub mod config;
pub mod error;
pub mod fixture;
pub mod hex_text;
pub mod program;
pub mod rollup_node;
pub mod safe_head;
pub mod witness;
