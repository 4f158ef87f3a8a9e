//! The `http-server` faker.

pub mod server;
