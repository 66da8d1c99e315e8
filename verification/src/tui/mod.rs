//! The state behind the terminal interface. Drawing and key handling are
//! done outside; what a key does to the state is decided here.

pub mod search_tab;
