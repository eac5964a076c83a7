//! Drives a remote browser, through a remote-control protocol, to log in to a
//! router's web administration console, navigate to its host-exposure page,
//! and toggle the port-forwarding rules between enabled and disabled.
//!
//! The crate holds the decision logic only: the workflow is a verified state
//! machine that turns protocol events into the next protocol command, and the
//! configuration loader is a verified parser over the settings document. An
//! unverified driver loop performs each command against the real protocol
//! client and hands the outcome back as an event.

pub mod config;
pub mod locators;
pub mod workflow;
