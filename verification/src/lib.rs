//! Boot and recovery controller for a single-purpose container appliance.
//!
//! The appliance brings up a container runtime, creates and starts a fixed
//! set of containers, reports its progress to a display, and then
//! supervises the payload for as long as the machine runs.
//!
//! The library holds the decisions and leaves the doing to its caller:
//!
//! - [`manager`] is the appliance manager, a machine that is stepped with
//!   the outcome of the action it asked for last; [`turn`] lays down what
//!   every step answers, and what holds of every step.
//! - [`retry`], [`state`] and [`health`] are its policies: the waits
//!   between attempts, the countdown before a forced reboot, and the
//!   verdict on the payload's condition.
//! - [`api`], [`wire`] and [`ipc`] are the status channel: the events, their
//!   form on the wire, and what either end does.
//! - [`config`] and [`container`] are the configuration and the programs
//!   that the manager has run.
//! - [`net`], [`check`] and [`adapter`] serve the ready message and the
//!   self-test of the network.
//! - [`clock`] and [`text`] are what the others build on.

pub mod adapter;
pub mod api;
pub mod check;
pub mod clock;
pub mod config;
pub mod container;
pub mod health;
pub mod ipc;
pub mod manager;
pub mod net;
pub mod retry;
pub mod state;
pub mod text;
pub mod turn;
pub mod wire;
