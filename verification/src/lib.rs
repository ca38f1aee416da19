//! Terminal dashboard core: a pluggable resource-browsing framework with a
//! navigation state machine, filtering and selection rules.

pub mod app;
pub mod keys;
pub mod laws;
pub mod services;
pub mod text;
pub mod ui;
pub mod utils;
