//! The fakers that come with the orchestrator.

pub mod http_server;
pub mod kafka_consumer;
pub mod kafka_producer;
