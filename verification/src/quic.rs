//! The two ways to start a DNS-over-QUIC connection.
//!
//! Both resolve the TLS configuration, describe the connection and wrap the
//! description into a connect handle. They differ in the local side only:
//! [`new_quic_stream`] lets the transport open a socket,
//! [`new_quic_stream_with_future`] runs over a socket of the caller's.

use crate::address::SocketAddress;
use crate::exchange::{connect, ConnectFuture, PollStep, TransportStatus};
use crate::stream::{
    address_target, build, described, socket_target, Binding, ConnectionTarget,
};
use crate::tls::{resolve_tls_config, settled_outcome, ConfigError, DefaultConfigCache};
use rustls::ClientConfig;
use std::sync::Arc;
use vstd::prelude::*;

verus! {

/// The handle that a resolution leads to: live over the descriptor of
/// `target` with the resolved configuration, or failed with the resolution's
/// error.
pub open spec fn planned<S>(
    target: ConnectionTarget<S>,
    resolution: Result<Arc<ClientConfig>, ConfigError>,
) -> ConnectFuture<S> {
    match resolution {
        Ok(tls) => ConnectFuture::Live(described(target, tls)),
        Err(error) => ConnectFuture::PreFailed(error),
    }
}

/// Starts a connection to `target`.
///
/// The configuration is `client_config` if there is one; `defaults` is then
/// left alone and `compute` is not run. Otherwise it is the default that
/// `defaults` holds, which `compute` produces if the cache is still empty.
/// Where no configuration can be had the handle is made failed and no
/// descriptor is built.
pub fn connect_target<S, F: FnOnce() -> Result<Arc<ClientConfig>, ConfigError>>(
    target: ConnectionTarget<S>,
    client_config: Option<Arc<ClientConfig>>,
    defaults: &mut DefaultConfigCache,
    compute: F,
) -> (future: ConnectFuture<S>)
    requires
        settled_outcome(client_config, old(defaults)@) is None ==> compute.requires(()),
    ensures
        settled_outcome(client_config, old(defaults)@) is Some ==> final(defaults)@ == old(
            defaults,
        )@,
        settled_outcome(client_config, old(defaults)@) is None ==> (final(defaults)@ matches Some(
            fresh,
        ) && compute.ensures((), fresh)),
        (settled_outcome(client_config, final(defaults)@) matches Some(resolution) && future
            == planned(target, resolution)),
{
    match resolve_tls_config(client_config, defaults, compute) {
        Ok(tls) => connect(Ok(build(target, &tls))),
        Err(error) => connect(Err(error)),
    }
}

/// Starts a connection to `socket_addr` over a socket that the transport
/// opens, bound to `bind_addr` if one is given and to an ephemeral local
/// address otherwise. The configuration is chosen as in [`connect_target`].
pub fn new_quic_stream<S, F: FnOnce() -> Result<Arc<ClientConfig>, ConfigError>>(
    socket_addr: SocketAddress,
    bind_addr: Option<SocketAddress>,
    dns_name: String,
    client_config: Option<Arc<ClientConfig>>,
    defaults: &mut DefaultConfigCache,
    compute: F,
) -> (future: ConnectFuture<S>)
    requires
        settled_outcome(client_config, old(defaults)@) is None ==> compute.requires(()),
    ensures
        future.is_constructed(),
        future matches ConnectFuture::Live(descriptor) ==> (descriptor.binding
            == Binding::<S>::Owned { bind_addr } && descriptor.binding.bind_address()
            == bind_addr),
        settled_outcome(client_config, old(defaults)@) is Some ==> final(defaults)@ == old(
            defaults,
        )@,
        settled_outcome(client_config, old(defaults)@) is None ==> (final(defaults)@ matches Some(
            fresh,
        ) && compute.ensures((), fresh)),
        (settled_outcome(client_config, final(defaults)@) matches Some(resolution) && future
            == planned(address_target::<S>(socket_addr, bind_addr, dns_name), resolution)),
{
    connect_target(
        ConnectionTarget::via_address(socket_addr, bind_addr, dns_name),
        client_config,
        defaults,
        compute,
    )
}

/// Starts a connection to `socket_addr` over the caller's `socket`. There is
/// no local address to choose on this path. The configuration is chosen as
/// in [`connect_target`].
pub fn new_quic_stream_with_future<S, F: FnOnce() -> Result<Arc<ClientConfig>, ConfigError>>(
    socket: S,
    socket_addr: SocketAddress,
    dns_name: String,
    client_config: Option<Arc<ClientConfig>>,
    defaults: &mut DefaultConfigCache,
    compute: F,
) -> (future: ConnectFuture<S>)
    requires
        settled_outcome(client_config, old(defaults)@) is None ==> compute.requires(()),
    ensures
        future.is_constructed(),
        future matches ConnectFuture::Live(descriptor) ==> (descriptor.binding
            == Binding::External { socket } && descriptor.binding.bind_address() is None),
        settled_outcome(client_config, old(defaults)@) is Some ==> final(defaults)@ == old(
            defaults,
        )@,
        settled_outcome(client_config, old(defaults)@) is None ==> (final(defaults)@ matches Some(
            fresh,
        ) && compute.ensures((), fresh)),
        (settled_outcome(client_config, final(defaults)@) matches Some(resolution) && future
            == planned(socket_target(socket, socket_addr, dns_name), resolution)),
{
    connect_target(
        ConnectionTarget::via_socket(socket, socket_addr, dns_name),
        client_config,
        defaults,
        compute,
    )
}

/// No connection is shared between handles: whatever is resolved to a
/// configuration gives a live handle with a descriptor of its own, and the
/// first poll of that handle asks for that descriptor to be opened, whether
/// the configuration came from the caller, from the cache or from a fresh
/// computation.
pub proof fn lemma_each_handle_opens_its_own_transport<S>(
    target: ConnectionTarget<S>,
    tls: Arc<ClientConfig>,
    status: TransportStatus,
)
    ensures
        planned(target, Ok(tls)) == ConnectFuture::Live(described(target, tls)),
        planned(target, Ok(tls)).step(status) == PollStep::Open(described(target, tls)),
        planned(target, Ok(tls)).next_state(status) == ConnectFuture::<S>::Connecting,
{
}

} // verus!
