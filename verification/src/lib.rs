//! The logic of a packet sniffer for the terminal: reading frames, keeping and showing them,
//! and exporting them to a file.

pub mod capture;
pub mod display;
pub mod error;
pub mod export;
pub mod laws;
pub mod layout;
pub mod model;
pub mod parser;
pub mod prompt;
pub mod session;
pub mod text;
