//! Verified core of the Battle Brothers modkit: the stored configuration, the
//! decisions of each command line subcommand, and the per-file plans used when a
//! mod is packed into or unpacked from an archive.

pub mod text;
pub mod config;
pub mod cli;
pub mod bundle;
pub mod laws;
