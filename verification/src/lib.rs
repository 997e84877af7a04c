//! The core of an installer that plans, executes and reverts a sequence of
//! host-mutating actions.
//!
//! Nothing in this crate touches the host. Every decision an installation
//! takes is a function here, from what is known to what is to be done next;
//! the caller performs what is asked and reports back what happened.

pub mod action;
pub mod cli;
pub mod distribution;
pub mod plan;
pub mod settings;
pub mod util;
