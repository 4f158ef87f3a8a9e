//! The `kafka-producer` faker.

pub mod producer;
