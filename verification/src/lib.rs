//! Connection admission for a real-time multiplayer session server.
//!
//! An inbound upgrade request may be promoted to a live duplex session only
//! after the admission pipeline has run: the account's ban state is checked,
//! the client's network address is resolved from proxy headers or the raw
//! peer connection, and every failure is classified into a stable
//! status-code/message pair. This crate holds that pipeline; the transport
//! shell around it (request parsing, the websocket upgrade, response
//! rendering) lives outside.

pub mod address;
pub mod admission;
pub mod ban;
pub mod error;
pub mod model;

pub use address::resolve_ip;
pub use admission::admit_connection;
pub use ban::ban_gate;
pub use error::WsError;
pub use model::AuthInfo;
pub use model::Ban;
pub use model::DbError;
pub use model::SessionParams;
