//! Screen models: what each part of the screen shows, as plain values that a
//! terminal front end draws.

pub mod content;
pub mod footer;
pub mod header;
pub mod input;
pub mod layout;
pub mod widgets;
