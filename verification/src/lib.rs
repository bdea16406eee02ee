//! Preflight checks for commands that run unattended.

pub mod cli;
pub mod contract;
pub mod diff;
pub mod finding;
pub mod init;
pub mod lookup;
pub mod names;
pub mod preflight;
pub mod report;
pub mod run;
pub mod script;
pub mod shell;
pub mod text;
pub mod workflow;
pub mod yaml;
