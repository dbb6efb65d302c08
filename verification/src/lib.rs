//! The decisions of a small web server, kept apart from its I/O: looking up
//! switches and typed values in an argument vector, choosing what the process
//! does at start-up, and wording what it prints and what it answers.

pub mod argparser;
pub mod error;
pub mod greeting;
pub mod loglevel;
pub mod startup;
