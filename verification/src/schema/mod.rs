//! Field metadata shared by generators: component behaviours and
//! non-rendering layout hints.

pub mod components;
pub mod layout;
