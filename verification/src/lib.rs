//! Connection lifecycle of a browser drawing client.
//!
//! The client keeps at most one connection to a remote server. This crate is
//! the part that decides: it turns the user's intents and the transport's
//! lifecycle events into a connection state and into the effects that the
//! surrounding program has to carry out (closing a transport, showing a
//! notification). It performs no input or output itself.
//!
//! - `model` is the machine as mathematics, and `laws` is what is proved of
//!   it.
//! - `machine` is the executable machine, specified against the model.
//! - `handle`, `event` and `transport` are the values that pass between the
//!   machine, the transport adapter and the view.
//! - `screen` says what the view shows for a given state.

pub mod event;
pub mod handle;
pub mod laws;
pub mod machine;
pub mod model;
pub mod screen;
pub mod transport;
