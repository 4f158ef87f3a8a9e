//! Helpers around the outside formats that scenarios and plugins are written in.

pub mod json;
pub mod kafka;
pub mod yaml;
