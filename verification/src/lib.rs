//! Verified core of a multi-stage research-session engine.
//!
//! The library models the session workflow as a typed directed graph over a
//! key/value context, renders explainable traces, validates sandbox requests,
//! scores hybrid retrieval hits, and builds the JSON records that the
//! surrounding service appends to its logs and pipeline files.

pub mod agents;
pub mod config;
pub mod context;
pub mod engine;
pub mod error;
pub mod eval;
pub mod events;
pub mod facade;
pub mod logging;
pub mod orchestrator;
pub mod pipeline;
pub mod planner;
pub mod redact;
pub mod retrieval;
pub mod sandbox;
pub mod storage;
pub mod strutil;
pub mod tasks;
pub mod telemetry;
pub mod trace;
pub mod workflow;
