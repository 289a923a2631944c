//! The connect handle and its life.
//!
//! A [`ConnectFuture`] is made either over a descriptor or already failed.
//! It does nothing until it is polled. The driver that polls it owns the
//! transport: a poll tells the driver what to do or what has come of the
//! attempt, and the driver reports the transport's status with the next poll.

use crate::stream::StreamDescriptor;
use crate::tls::ConfigError;
use vstd::prelude::*;

verus! {

/// Why a connect attempt ended without a connection.
#[derive(Clone, Copy, Debug, PartialEq, Eq, Structural)]
pub enum ConnectError {
    /// No TLS configuration could be had; the transport was never opened.
    Config(ConfigError),
    /// Binding the socket, the handshake or the negotiation failed.
    Transport,
}

/// What the transport says of a connection that is being opened.
#[derive(Clone, Copy, Debug, PartialEq, Eq, Structural)]
pub enum TransportStatus {
    /// Still in progress.
    Pending,
    /// The connection stands.
    Established,
    /// The attempt failed.
    Failed,
}

/// A connect attempt, from its construction to its end.
pub enum ConnectFuture<S> {
    /// Constructed over a descriptor and not polled yet.
    Live(StreamDescriptor<S>),
    /// Constructed with its failure already decided, and not polled yet.
    PreFailed(ConfigError),
    /// The transport is opening the connection.
    Connecting,
    /// The connection stands.
    Ready,
    /// The attempt has failed.
    Failed(ConnectError),
}

/// What a poll tells the driver.
pub enum PollStep<S> {
    /// Open the transport as the descriptor says, and poll again.
    Open(StreamDescriptor<S>),
    /// Nothing yet: poll again.
    Pending,
    /// The connection stands.
    Ready,
    /// The attempt has failed.
    Failed(ConnectError),
}

impl<S> ConnectFuture<S> {
    /// Whether the attempt has ended.
    pub open spec fn is_terminal(self) -> bool {
        self is Ready || self is Failed
    }

    /// Whether the handle has not been polled yet.
    pub open spec fn is_constructed(self) -> bool {
        self is Live || self is PreFailed
    }

    /// The state after a poll that brought `status`. The status counts only
    /// while the transport is opening the connection.
    pub open spec fn next_state(self, status: TransportStatus) -> ConnectFuture<S> {
        match self {
            ConnectFuture::Live(_) => ConnectFuture::Connecting,
            ConnectFuture::PreFailed(error) => ConnectFuture::Failed(ConnectError::Config(error)),
            ConnectFuture::Connecting => match status {
                TransportStatus::Pending => ConnectFuture::Connecting,
                TransportStatus::Established => ConnectFuture::Ready,
                TransportStatus::Failed => ConnectFuture::Failed(ConnectError::Transport),
            },
            ConnectFuture::Ready => ConnectFuture::Ready,
            ConnectFuture::Failed(error) => ConnectFuture::Failed(error),
        }
    }

    /// What a poll that brought `status` tells the driver.
    pub open spec fn step(self, status: TransportStatus) -> PollStep<S> {
        match self {
            ConnectFuture::Live(descriptor) => PollStep::Open(descriptor),
            ConnectFuture::PreFailed(error) => PollStep::Failed(ConnectError::Config(error)),
            ConnectFuture::Connecting => match status {
                TransportStatus::Pending => PollStep::Pending,
                TransportStatus::Established => PollStep::Ready,
                TransportStatus::Failed => PollStep::Failed(ConnectError::Transport),
            },
            ConnectFuture::Ready => PollStep::Ready,
            ConnectFuture::Failed(error) => PollStep::Failed(error),
        }
    }

    /// Whether the attempt has ended.
    pub fn is_finished(&self) -> (yes: bool)
        ensures
            yes == self.is_terminal(),
    {
        match self {
            ConnectFuture::Ready => true,
            ConnectFuture::Failed(_) => true,
            _ => false,
        }
    }

    /// One poll. The handle moves to its next state and says what the driver
    /// is to do: a handle over a descriptor hands the descriptor out to be
    /// opened, one that was made failed reports its error without anything
    /// being opened, one that is connecting goes by the transport's `status`,
    /// and one that has ended repeats its end.
    pub fn poll(self, status: TransportStatus) -> (polled: (ConnectFuture<S>, PollStep<S>))
        ensures
            polled.0 == self.next_state(status),
            polled.1 == self.step(status),
    {
        match self {
            ConnectFuture::Live(descriptor) => (ConnectFuture::Connecting, PollStep::Open(descriptor)),
            ConnectFuture::PreFailed(error) => (
                ConnectFuture::Failed(ConnectError::Config(error)),
                PollStep::Failed(ConnectError::Config(error)),
            ),
            ConnectFuture::Connecting => match status {
                TransportStatus::Pending => (ConnectFuture::Connecting, PollStep::Pending),
                TransportStatus::Established => (ConnectFuture::Ready, PollStep::Ready),
                TransportStatus::Failed => (
                    ConnectFuture::Failed(ConnectError::Transport),
                    PollStep::Failed(ConnectError::Transport),
                ),
            },
            ConnectFuture::Ready => (ConnectFuture::Ready, PollStep::Ready),
            ConnectFuture::Failed(error) => (ConnectFuture::Failed(error), PollStep::Failed(error)),
        }
    }
}

/// Wraps the outcome of building a descriptor into a connect handle: a live
/// one over the descriptor, or one that has failed before its first poll.
pub fn connect<S>(outcome: Result<StreamDescriptor<S>, ConfigError>) -> (future: ConnectFuture<S>)
    ensures
        future == match outcome {
            Ok(descriptor) => ConnectFuture::Live(descriptor),
            Err(error) => ConnectFuture::PreFailed(error),
        },
{
    match outcome {
        Ok(descriptor) => ConnectFuture::Live(descriptor),
        Err(error) => ConnectFuture::PreFailed(error),
    }
}

/// The transport is opened by the first poll of a live handle and by nothing
/// else: a poll says `Open` only of a handle that was made over a descriptor
/// and has not been polled, it hands out that very descriptor, and the state
/// that it leaves never says `Open` again.
pub proof fn lemma_opened_once_by_first_poll<S>(
    future: ConnectFuture<S>,
    status: TransportStatus,
    later: TransportStatus,
)
    ensures
        future.step(status) is Open <==> future is Live,
        future matches ConnectFuture::Live(descriptor) ==> future.step(status) == PollStep::Open(
            descriptor,
        ),
        !(future.next_state(status).step(later) is Open),
        !future.next_state(status).is_constructed(),
{
}

/// A handle that was made failed ends at its first poll with the error it
/// was made with, whatever the status, and nothing is opened for it.
pub proof fn lemma_pre_failed_ends_at_first_poll<S>(error: ConfigError, status: TransportStatus)
    ensures
        ConnectFuture::<S>::PreFailed(error).step(status) == PollStep::<S>::Failed(
            ConnectError::Config(error),
        ),
        ConnectFuture::<S>::PreFailed(error).next_state(status) == ConnectFuture::<S>::Failed(
            ConnectError::Config(error),
        ),
        ConnectFuture::<S>::PreFailed(error).next_state(status).is_terminal(),
{
}

/// An attempt that has ended stays as it is: every further poll leaves the
/// state unchanged and repeats the same end.
pub proof fn lemma_end_is_final<S>(
    future: ConnectFuture<S>,
    status: TransportStatus,
    later: TransportStatus,
)
    requires
        future.is_terminal(),
    ensures
        future.next_state(status) == future,
        future.step(status) == future.step(later),
        future.step(status) is Ready || future.step(status) is Failed,
{
}

} // verus!
