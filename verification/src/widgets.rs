//! The widgets' state machines.

pub mod loading_spinner;
pub mod number_entry;
