//! Resolution and tunnel-lifecycle engine for reaching private network
//! services through session-manager port forwarding.
//!
//! The engine turns a host or URL into a concrete reachable endpoint (an
//! instance itself, a load balancer's target behind a permitted relay, or a
//! host behind a bastion) and decides every step of the forwarding
//! process's life: start, probe, stop, and rediscovery from the process
//! table. It performs nothing itself: it takes what the control plane, the
//! resolver and the operating system answered, and returns command lines,
//! records and the next thing to do.
//!
//! * [`models`], [`error`]: the records and failures, with their views.
//! * [`text`], [`decimal`], [`json`]: texts, numbers in text, and JSON
//!   documents.
//! * [`commands`], [`queries`], [`inventory`], [`account`]: what is asked
//!   of the control plane, and what its answers hold.
//! * [`resolver`], [`resolver_laws`]: the path resolver and what holds of
//!   it.
//! * [`tunnel`], [`tunnel_laws`]: the tunnel supervisor and what holds of
//!   it.
//! * [`prober`], [`prober_laws`]: the process table prober and what holds
//!   of it.
//! * [`report`]: the resolution report.
//! * [`vpn`]: the texts and command lines of the client VPN.
//! * [`tui`], [`pages`], [`keys`]: the state of the interactive front end.

pub mod account;
pub mod commands;
pub mod decimal;
pub mod error;
pub mod inventory;
pub mod json;
pub mod keys;
pub mod models;
pub mod pages;
pub mod prober;
pub mod prober_laws;
pub mod queries;
pub mod report;
pub mod resolver;
pub mod resolver_laws;
pub mod text;
pub mod tui;
pub mod tunnel;
pub mod tunnel_laws;
pub mod vpn;
