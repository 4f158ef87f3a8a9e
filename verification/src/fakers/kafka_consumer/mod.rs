//! The `kafka-consumer` faker.

pub mod consumer;
