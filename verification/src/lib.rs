//! Decision logic of a dynamic DNS updater.
//!
//! One run discovers the caller's public IP address, reads the record that
//! is currently published for a configured subdomain and, only where the two
//! differ, asks the DNS provider to publish the new address. This crate
//! holds everything such a run decides: which requests are made, what they
//! carry, how the answers are read and what is reported at the end. It
//! performs no input or output of its own: a driver performs each
//! [`pipeline::Action`] and hands the outcome back as a [`pipeline::Event`].

pub mod failure;
pub mod laws;
pub mod model;
pub mod pipeline;
pub mod request;
pub mod update;
