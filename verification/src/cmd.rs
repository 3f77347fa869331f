//! The command line: its arguments and how they are read.

pub mod arg;
