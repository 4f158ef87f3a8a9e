//! Core of an integration-test orchestrator: scenario descriptors, the plugin
//! registry, and the state machine that decides when fakers start and when a
//! scenario is over.

pub mod bus;
pub mod config;
pub mod exec;
pub mod faker;
pub mod fakers;
pub mod scenario;
pub mod text;
pub mod utils;
pub mod verification;
pub mod verifiers;
