//! Event distribution and deferred asynchronous tasks for a bot-style
//! application: a subscriber registry with fan-out broadcast, an event
//! dispatcher over tagged envelopes, and a deferred-start task that performs
//! its fallible setup at most once.

pub mod cmdsys;
pub mod config;
pub mod emitter;
pub mod error;
pub mod events;
pub mod handler;
pub mod listener;
pub mod logging;
pub mod model;
pub mod plugins;
pub mod utils;
pub mod whitelist;
