//! The verified core of rProx, a reverse proxy that routes each request by
//! its `Host` header.
//!
//! * [`route`]: the routing table and how a configuration becomes one.
//! * [`slot`]: the place of the table in force, and what a reload does to it.
//! * [`proxy`]: what becomes of one request.
//! * [`watcher`]: the state machine of the configuration watcher.
//! * [`serve`]: the state machine of the serving loop.
//! * [`http_model`]: what is taken on trust from the `http` crate.
//!
//! The library does no I/O. A program around it accepts the connections,
//! reads the configuration file, listens for file events and for the shutdown
//! signal, and asks the library what to do with each.

pub mod http_model;
pub mod proxy;
pub mod route;
pub mod serve;
pub mod slot;
pub mod watcher;
