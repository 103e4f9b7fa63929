//! Provisioning of a workstation from a dotfiles repository and a list of tasks.
//!
//! The library decides and never acts: it says which directories to probe, clone
//! or move, which programs to launch and which lines to log, and a driver around
//! it carries those actions out and reports back what happened.
pub mod config;
pub mod display;
pub mod dotfiles;
pub mod logger;
pub mod shell;
pub mod text;
