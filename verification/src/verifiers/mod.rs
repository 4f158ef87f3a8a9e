//! The verifiers that come with the orchestrator.

pub mod file;
