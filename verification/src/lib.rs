//! Lifecycle control for hooking a content-filtering payload into a target
//! process.
//!
//! The crate holds the decisions of the controller and none of its effects.
//! Every sequence (hooking a target, retiring a hook, shutting down, locating
//! the payload image or the filter configuration) is a state machine: it is
//! handed what happened and answers with the next thing to do. A driver
//! outside this crate performs each [`command::Command`] and reports the
//! outcome back as a [`command::Event`].
//!
//! - [`orchestrator`] takes the signals of the outside world (the target
//!   started or stopped, termination was requested, the user interface
//!   exited) and asks the controller for a hook or an unhook.
//! - [`controller`] owns the hook state. It installs a hook step by step,
//!   after removing what an earlier run left in the target, and retires a
//!   hook step by step, in a fixed order.
//! - [`payload_search`] and [`config_search`] decide where the payload image
//!   and the filter configuration are taken from.
//! - [`handles`] keeps the driver's resources under the tokens by which the
//!   controller speaks of them.
//! - [`laws`] states what holds of the controller in every state and along
//!   every run.
//!
//! Each machine comes as a mathematical model and as executable code that is
//! proved to follow the model step by step.

pub mod command;
pub mod config_search;
pub mod controller;
pub mod filter;
pub mod handles;
pub mod laws;
pub mod orchestrator;
pub mod payload_search;
