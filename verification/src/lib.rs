//! Coordination engine for a small fleet of fabrication devices: print heads
//! that execute blueprints and material containers that feed them.
//!
//! The panel's side is the wire codec ([`codec`]), the state machine of one
//! device ([`part`]), the registry of all devices ([`server`]) with what
//! holds of whole runs ([`runs`]), the REST front end ([`rest`]) and the
//! console ([`cli`]). The dashboard's side is the list of printers
//! ([`printer`]), the job queue ([`dashboard`]), its requests to the panels
//! ([`requests`]) and its pages ([`webui`], [`template`], [`form`]). The
//! simulated devices are in [`device`].
//!
//! All of it is pure: sockets, timers, files and clocks live with the
//! caller, who feeds events in and carries the resulting steps out.

pub mod codec;
pub mod part;
pub mod server;
pub mod runs;
pub mod rest;
pub mod cli;
pub mod device;

pub mod printer;
pub mod dashboard;
pub mod requests;
pub mod webui;
pub mod template;
pub mod form;

pub mod base64;
pub mod buffer;
pub mod text;
