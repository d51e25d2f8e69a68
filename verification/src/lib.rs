//! A minimal command-line front end: a command grammar with versioned
//! subcommands, an argument parser, a dispatcher over a closed set of
//! commands, and an init-once logging lifecycle.

pub mod dispatch;
pub mod driver;
pub mod grammar;
pub mod laws;
pub mod logging;
pub mod parse;
pub mod text;
