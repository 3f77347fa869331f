//! The command-line layer of a file sharing client: the arguments it
//! understands and the failures it reports to the operator.
//!
//! Everything here works on plain values. Parsing the command line is left to
//! `clap`; the few lookups made in a parsed invocation are declared in
//! [`cmd::arg`] together with what is taken on trust about them.

pub mod cmd;
pub mod error;
