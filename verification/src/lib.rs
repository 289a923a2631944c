//! Construction of outbound DNS-over-QUIC connections.
//!
//! The crate decides which TLS client configuration a connection uses (the
//! caller's own, or a default that is produced at most once and then kept),
//! assembles an inert description of the connection, and wraps it into a
//! connect handle that a driver polls. Nothing here touches a socket: the
//! driver opens the transport when the handle tells it to.

pub mod address;
pub mod exchange;
pub mod quic;
pub mod stream;
pub mod tls;
