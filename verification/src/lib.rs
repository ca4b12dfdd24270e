//! An in-process remote-control layer for a host application's main loop.
//!
//! An external controller thread sends [`protocol::Event`] commands over a
//! single-producer/single-consumer channel; the host's own thread, entering
//! its per-frame tick, drains those commands, synthesizes input, overrides
//! the frame's delta time, and can be frozen and single-stepped. A one-shot
//! notifier reports the start of a new session on the reverse direction of
//! the channel.

pub mod channel;
pub mod drain;
pub mod hook;
pub mod interceptor;
pub mod laws;
pub mod port;
pub mod protocol;
pub mod session;
