//! Decision logic of a network-triggered USB reattachment service.
//!
//! Every inbound connection is a command: detach a USB device from a virtual
//! machine, let the host settle, attach the device again, tell the peer how it
//! went, and then hold off for a fixed time before the next connection is
//! taken. This crate holds the rules of that cycle as a state machine over
//! plain values. The process around it performs each [`server::Action`] and
//! reports how it ended as an [`server::Event`].
//!
//! - [`config`]: the settings a server is started with.
//! - [`command`]: the two hypervisor commands and the output of a finished one.
//! - [`outcome`]: how a cycle ended, and the token that tells the peer.
//! - [`server`]: the state machine.
//! - [`history`]: runs of the machine over whole sequences of events.
//! - [`guarantees`]: what holds of every run.
//! - [`launch`]: what to do at startup when another instance may be running.

pub mod command;
pub mod config;
pub mod guarantees;
pub mod history;
pub mod launch;
pub mod outcome;
pub mod server;
