//! Session start-up and keepalive for a push-based real-time gateway.
//!
//! A session with the gateway begins with an identify message, is confirmed
//! by a ready event, and stays alive as long as the client sends heartbeats
//! at the interval the gateway dictates. This crate holds what a client has
//! to decide on that way, and proves with Verus that it decides as stated:
//!
//! * [`payload`] builds the identify and heartbeat messages;
//! * [`address`] builds the URL of the gateway;
//! * [`handshake`] resolves the first events of a connection into the ready
//!   event, with the one retry the protocol allows;
//! * [`keepalive`] is the heartbeat timer and the control channel of a
//!   running session, as a step function from state and event to state and
//!   action; [`keepalive_lemmas`] proves what holds of every run of it;
//! * [`clock`] is the arithmetic of deadlines;
//! * [`json`] says what a JSON value holds and lists the calls into the JSON
//!   library that the crate trusts.
//!
//! The crate performs no input or output. Reading events, sending messages,
//! sleeping and reading the clock are left to the caller, who hands in what
//! it observed and is told what to do next.
pub mod address;
pub mod clock;
pub mod constants;
pub mod error;
pub mod handshake;
pub mod json;
pub mod keepalive;
pub mod keepalive_lemmas;
pub mod payload;
