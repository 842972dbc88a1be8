//! Building blocks of a machine bootstrap tool: command descriptors, captured
//! execution results, handles on spawned processes, a defaulted configuration
//! record, a catalog of bundled assets and the rules of the command line.
//!
//! Nothing here spawns a process or touches a file. The caller does that and
//! hands over plain values; what is decided from them is specified and proved.
//! The one thing done to the machine is to send a process the interrupt
//! signal.

pub mod cli;
pub mod config;
pub mod file;
pub mod packages;
pub mod shell;
