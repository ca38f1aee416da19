//! Startup helpers.

pub mod aws;
