//! Control plane of a peer-to-peer service-dispatch fabric.
//!
//! Peers hold a long-lived link to a publicly reachable bearer and expose
//! named services to each other. This crate holds the verified core of that
//! fabric: the control-message codec and its length-prefixed framing, the
//! per-substream connection handler, the rendezvous client that obtains a
//! direct connection through a bearer, the service-request handshake, the
//! multi-substream session bookkeeping, and the peer configuration builder.
//! The encrypted multi-stream transport itself, and all I/O, live outside
//! this crate and drive these state machines with plain events.

pub mod codec;
pub mod context;
pub mod dispatcher;
pub mod endpoint;
pub mod error;
pub mod handler;
pub mod peer;
pub mod protocol;
pub mod rendezvous;
pub mod runtime;
pub mod session;
