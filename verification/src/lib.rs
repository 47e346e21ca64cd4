//! Forge: the verified core of a small, extensible command line toolchain.
//!
//! The library holds what Forge decides: the default configuration, the
//! layout of the command line, how a parsed command line is routed, how
//! extension files are named, recognised and generated, and the text that is
//! shown to the user. Reading and writing files, prompting and running Lua
//! scripts are left to the program around it.
pub mod errors;
pub mod config;
pub mod text;
pub mod naming;
pub mod manifest;
pub mod extension;
pub mod cli;
pub mod dispatch;
