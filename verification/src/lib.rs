//! Verified core of a terminal browser for Arduino libraries.
pub mod app;
pub mod cli;
pub mod laws;
pub mod layout;
pub mod library;
pub mod screen;
pub mod text;
