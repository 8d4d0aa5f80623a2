//! Client-side session engine of a publish/subscribe broker protocol: the
//! handshake negotiation, the keepalive timer, the subscription routing
//! table and the session's reaction to frames, actions and timer firings.
//! The driver that owns the connection hands events in and carries out the
//! effects that come back.
use vstd::prelude::*;

pub mod client;
pub mod frame;
pub mod handshake;
pub mod keepalive;
pub mod mode;
pub mod routes;
pub mod session;

pub use client::{Builder, ClientConfig, Greeting, HandshakeStep, Info, Negotiated};
pub use frame::{Frame, Outbound, Refusal};
pub use handshake::{select_mode, HandShakeError};
pub use keepalive::Keepalive;
pub use mode::Mode;
pub use routes::RouteTable;
pub use session::{Action, Effect, Session};

verus! {

} // verus!
