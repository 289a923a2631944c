//! Which TLS client configuration a connection uses.
//!
//! A caller may bring its own configuration. Without one, the connection uses
//! a default that is produced on first need, published in a
//! [`DefaultConfigCache`], and never produced again: a failure to produce it
//! is kept and replayed just like a success.

use rustls::ClientConfig;
use std::sync::Arc;
use vstd::prelude::*;

verus! {

/// `rustls::ClientConfig`, carried through as an opaque value.
#[verifier::external_type_specification]
#[verifier::external_body]
pub struct ExClientConfig(ClientConfig);

/// Why no default TLS client configuration could be produced.
#[derive(Clone, Copy, Debug, PartialEq, Eq, Structural)]
pub enum ConfigError {
    /// No trust roots were found to verify servers against.
    MissingTrustRoots,
    /// The cryptography provider supports no usable protocol version.
    NoUsableProtocolVersion,
}

/// The cell that holds the default configuration once it has been produced.
///
/// It is empty until the first resolution that needs the default, and from
/// then on holds that resolution's outcome unchanged.
pub struct DefaultConfigCache {
    slot: Option<Result<Arc<ClientConfig>, ConfigError>>,
}

/// What is resolved without producing a default: the caller's configuration
/// if there is one, else what the cache holds. `None` means that the default
/// has to be produced.
pub open spec fn settled_outcome(
    tls_override: Option<Arc<ClientConfig>>,
    slot: Option<Result<Arc<ClientConfig>, ConfigError>>,
) -> Option<Result<Arc<ClientConfig>, ConfigError>> {
    match tls_override {
        Some(given) => Some(Ok(given)),
        None => slot,
    }
}

/// What the cache holds after a resolution that ended in `outcome`: a new
/// value only where the default had to be produced.
pub open spec fn cache_after(
    tls_override: Option<Arc<ClientConfig>>,
    slot: Option<Result<Arc<ClientConfig>, ConfigError>>,
    outcome: Result<Arc<ClientConfig>, ConfigError>,
) -> Option<Result<Arc<ClientConfig>, ConfigError>> {
    if settled_outcome(tls_override, slot) is Some {
        slot
    } else {
        Some(outcome)
    }
}

/// `Arc::clone` on a shared configuration: the result points to the same
/// allocation, so it stands for the same value.
#[verifier::external_body]
fn share_config(config: &Arc<ClientConfig>) -> (shared: Arc<ClientConfig>)
    ensures
        shared == *config,
{
    Arc::clone(config)
}

/// `ClientConfig::clone`, which rustls derives: every field of the result is
/// the clone of the same field of `config`, so the result is an equal
/// configuration.
#[verifier::external_body]
pub(crate) fn copy_config(config: &ClientConfig) -> (copy: ClientConfig)
    ensures
        copy == *config,
{
    config.clone()
}

impl View for DefaultConfigCache {
    type V = Option<Result<Arc<ClientConfig>, ConfigError>>;

    closed spec fn view(&self) -> Self::V {
        self.slot
    }
}

impl DefaultConfigCache {
    /// An empty cache.
    pub fn new() -> (cache: DefaultConfigCache)
        ensures
            cache@ is None,
    {
        DefaultConfigCache { slot: None }
    }

    /// Whether an outcome has been published.
    pub fn is_initialized(&self) -> (yes: bool)
        ensures
            yes == (self@ is Some),
    {
        self.slot.is_some()
    }

    /// The published outcome, if there is one.
    pub fn published(&self) -> (outcome: Option<Result<Arc<ClientConfig>, ConfigError>>)
        ensures
            outcome == self@,
    {
        match &self.slot {
            Some(Ok(config)) => Some(Ok(share_config(config))),
            Some(Err(error)) => Some(Err(*error)),
            None => None,
        }
    }

    /// The published outcome; if there is none yet, `compute` is run once and
    /// its outcome published. `compute` is not run on a cache that holds an
    /// outcome, whatever that outcome is.
    pub fn get_or_init<F: FnOnce() -> Result<Arc<ClientConfig>, ConfigError>>(
        &mut self,
        compute: F,
    ) -> (outcome: Result<Arc<ClientConfig>, ConfigError>)
        requires
            old(self)@ is None ==> compute.requires(()),
        ensures
            final(self)@ == Some(outcome),
            old(self)@ is Some ==> final(self)@ == old(self)@,
            old(self)@ is None ==> compute.ensures((), outcome),
    {
        match self.published() {
            Some(outcome) => outcome,
            None => {
                let fresh = compute();
                let kept = match &fresh {
                    Ok(config) => Ok(share_config(config)),
                    Err(error) => Err(*error),
                };
                self.slot = Some(kept);
                fresh
            },
        }
    }
}

/// Resolves the configuration of one connection.
///
/// With a `tls_override` the result is that configuration, and the cache is
/// neither read nor written. Without one the result is the cached default;
/// only where the cache is still empty is `compute` run, and its outcome,
/// success or failure, is published and returned.
pub fn resolve_tls_config<F: FnOnce() -> Result<Arc<ClientConfig>, ConfigError>>(
    tls_override: Option<Arc<ClientConfig>>,
    cache: &mut DefaultConfigCache,
    compute: F,
) -> (outcome: Result<Arc<ClientConfig>, ConfigError>)
    requires
        settled_outcome(tls_override, old(cache)@) is None ==> compute.requires(()),
    ensures
        settled_outcome(tls_override, old(cache)@) matches Some(known) ==> outcome == known,
        settled_outcome(tls_override, old(cache)@) is None ==> compute.ensures((), outcome),
        final(cache)@ == cache_after(tls_override, old(cache)@, outcome),
{
    match tls_override {
        Some(given) => Ok(given),
        None => cache.get_or_init(compute),
    }
}

/// A default, once settled, stays: after a resolution without an override
/// that ended in `first`, the cache settles every later resolution without an
/// override to `first`, and such a resolution leaves the cache as it is,
/// whatever a fresh computation would have given.
pub proof fn lemma_default_is_sticky(
    slot: Option<Result<Arc<ClientConfig>, ConfigError>>,
    first: Result<Arc<ClientConfig>, ConfigError>,
    later: Result<Arc<ClientConfig>, ConfigError>,
)
    requires
        settled_outcome(None, slot) matches Some(known) ==> first == known,
    ensures
        settled_outcome(None, cache_after(None, slot, first)) == Some(first),
        cache_after(None, cache_after(None, slot, first), later) == cache_after(
            None,
            slot,
            first,
        ),
{
}

/// An override decides alone: the resolution is the override whatever the
/// cache holds, and the cache is left as it was.
pub proof fn lemma_override_bypasses_cache(
    given: Arc<ClientConfig>,
    slot: Option<Result<Arc<ClientConfig>, ConfigError>>,
    outcome: Result<Arc<ClientConfig>, ConfigError>,
)
    ensures
        settled_outcome(Some(given), slot) == Some(Ok::<Arc<ClientConfig>, ConfigError>(given)),
        cache_after(Some(given), slot, outcome) == slot,
{
}

} // verus!
