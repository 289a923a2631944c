//! The inert description of one connection.
//!
//! A [`ConnectionTarget`] says where to connect and from which local socket;
//! [`build`] joins it with the resolved TLS configuration into a
//! [`StreamDescriptor`]. Neither opens anything.

use crate::address::SocketAddress;
use crate::tls::copy_config;
use rustls::ClientConfig;
use std::sync::Arc;
use vstd::prelude::*;

verus! {

/// The local side of a connection: a socket that the transport opens itself,
/// or one that the caller already owns. A connection has one or the other.
pub enum Binding<S> {
    /// The transport opens its own socket, bound to `bind_addr` if one is
    /// given and to an ephemeral local address otherwise.
    Owned { bind_addr: Option<SocketAddress> },
    /// The transport runs over the caller's socket.
    External { socket: S },
}

/// Where a connection goes.
pub struct ConnectionTarget<S> {
    /// The server's address.
    pub remote: SocketAddress,
    /// The server's DNS name, by which it is identified in the handshake.
    pub host_name: String,
    /// The local side.
    pub binding: Binding<S>,
}

/// Everything that is needed to open a connection, and nothing opened yet.
pub struct StreamDescriptor<S> {
    /// The TLS client configuration of the handshake.
    pub crypto_config: ClientConfig,
    /// The server's address.
    pub remote: SocketAddress,
    /// The server's DNS name.
    pub host_name: String,
    /// The local side.
    pub binding: Binding<S>,
}

impl<S> Binding<S> {
    /// The explicit local address, which only a socket of the transport's own
    /// can have.
    pub open spec fn bind_address(self) -> Option<SocketAddress> {
        match self {
            Binding::Owned { bind_addr } => bind_addr,
            Binding::External { .. } => None,
        }
    }
}

/// The target of a connection whose socket the transport opens.
pub open spec fn address_target<S>(
    remote: SocketAddress,
    bind_addr: Option<SocketAddress>,
    host_name: String,
) -> ConnectionTarget<S> {
    ConnectionTarget { remote, host_name, binding: Binding::Owned { bind_addr } }
}

/// The target of a connection over the caller's `socket`.
pub open spec fn socket_target<S>(socket: S, remote: SocketAddress, host_name: String)
    -> ConnectionTarget<S> {
    ConnectionTarget { remote, host_name, binding: Binding::External { socket } }
}

impl<S> ConnectionTarget<S> {
    /// A target whose socket the transport opens.
    pub fn via_address(
        remote: SocketAddress,
        bind_addr: Option<SocketAddress>,
        host_name: String,
    ) -> (target: ConnectionTarget<S>)
        ensures
            target == address_target::<S>(remote, bind_addr, host_name),
    {
        ConnectionTarget { remote, host_name, binding: Binding::Owned { bind_addr } }
    }

    /// A target reached over the caller's `socket`.
    pub fn via_socket(socket: S, remote: SocketAddress, host_name: String) -> (target:
        ConnectionTarget<S>)
        ensures
            target == socket_target(socket, remote, host_name),
    {
        ConnectionTarget { remote, host_name, binding: Binding::External { socket } }
    }
}

impl<S> StreamDescriptor<S> {
    /// The explicit local address of the connection, if it has one.
    pub fn bind_address(&self) -> (addr: Option<SocketAddress>)
        ensures
            addr == self.binding.bind_address(),
    {
        match &self.binding {
            Binding::Owned { bind_addr } => *bind_addr,
            Binding::External { .. } => None,
        }
    }

    /// The caller's socket, if the connection runs over one.
    pub fn external_socket(&self) -> (socket: Option<&S>)
        ensures
            match self.binding {
                Binding::Owned { .. } => socket is None,
                Binding::External { socket: own } => socket == Some(&own),
            },
    {
        match &self.binding {
            Binding::Owned { .. } => None,
            Binding::External { socket } => Some(socket),
        }
    }
}

/// The descriptor that [`build`] makes of a target and a configuration: the
/// configuration as given, and the target's three parts unchanged.
pub open spec fn described<S>(target: ConnectionTarget<S>, tls: Arc<ClientConfig>)
    -> StreamDescriptor<S> {
    StreamDescriptor {
        crypto_config: *tls,
        remote: target.remote,
        host_name: target.host_name,
        binding: target.binding,
    }
}

/// Joins a target with the resolved configuration.
///
/// The descriptor carries its own copy of `tls`, taken as it is: nothing of
/// it is merged with, or replaced by, settings of any other configuration.
pub fn build<S>(target: ConnectionTarget<S>, tls: &Arc<ClientConfig>) -> (descriptor:
    StreamDescriptor<S>)
    ensures
        descriptor == described(target, *tls),
{
    let ConnectionTarget { remote, host_name, binding } = target;
    StreamDescriptor { crypto_config: copy_config(&**tls), remote, host_name, binding }
}

} // verus!
