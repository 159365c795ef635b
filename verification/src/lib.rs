//! litehook watches the public pages of message channels and tells a
//! webhook about each post that is new.
//!
//! This library holds the rules of the service, proved with Verus: how a
//! listener's configuration is merged and validated, how a page is read,
//! how a worker moves through its poll cycle, and how the supervisor keeps
//! the set of workers. It does no I/O. A worker and the supervisor are state
//! machines: a step takes what happened and answers what is to be done next,
//! and a driver around the library does it.

pub mod api;
pub mod config;
pub mod html;
pub mod listener;
pub mod model;
pub mod parser;
pub mod proxy;
pub mod server;
pub mod store;
pub mod text;
pub mod webhook;

pub use server::{ListenerCmd, Server};
