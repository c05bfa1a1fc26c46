//! Ownership-transfer container for the native server configuration.
//!
//! The native engine hands out a resource-owning configuration structure and
//! expects the caller to run its cleanup routine exactly once, and only while
//! the caller still owns the structure (creating a server from a
//! configuration, for example, takes the ownership over). [`ServerConfig`]
//! makes this lifecycle explicit as a two-state machine: it is either `Owned`
//! (it holds a configuration value and will clean it up) or `Released` (the
//! value has been handed out and cleanup is the new owner's duty). The state
//! cannot be bypassed: all access goes through the transition functions
//! below.
//!
//! The configuration value itself is modeled by [`ServerConfigData`], which
//! holds, as plain values, exactly the fields this layer reads of the native
//! structure. The unverified shell keeps the native structure and this model
//! in step and performs the actual engine calls; the contracts here pin down
//! every decision the shell must follow.

use vstd::prelude::*;

use crate::error::Error;
use crate::ua::data_types::StatusCode;

verus! {

/// The network port that default population of a configuration derives.
pub const DEFAULT_PORT: u16 = 4840;

/// What this layer reads of the native server configuration: whether the
/// logger reference has been set (non-null), and the configured network
/// port. All other native fields are opaque to this layer and are handled by
/// the engine alone.
#[derive(Clone, Copy, PartialEq, Eq, Structural, Debug)]
pub struct ServerConfigData {
    /// Whether the configuration's logger reference is set. The engine
    /// copies this reference into several sub-structures when defaults are
    /// populated, so it must be assigned exactly once, before that step.
    pub logger_set: bool,
    /// The configured network port.
    pub port: u16,
}

impl ServerConfigData {
    /// The all-zero configuration value: no logger, port zero. The engine
    /// defines zeroed memory as a well-formed, minimally-configured value.
    pub open spec fn spec_zeroed() -> Self {
        ServerConfigData { logger_set: false, port: 0 }
    }

    /// Builds the all-zero configuration value.
    pub fn zeroed() -> (r: Self)
        ensures
            r == Self::spec_zeroed(),
    {
        ServerConfigData { logger_set: false, port: 0 }
    }
}

/// Counting stand-in for the engine's configuration-cleanup routine.
///
/// The verified model cannot invoke native code, so the cleanup that the
/// container must trigger is recorded in this counter instead; the unverified
/// shell runs the real routine at exactly the points where the contracts
/// below increment the count.
#[derive(Debug)]
pub struct CleanupCounter {
    count: u64,
}

impl CleanupCounter {
    /// How often cleanup has run.
    pub closed spec fn spec_count(&self) -> u64 {
        self.count
    }

    /// A counter that has recorded no cleanup yet.
    pub fn new() -> (r: Self)
        ensures
            r.spec_count() == 0,
    {
        CleanupCounter { count: 0 }
    }

    /// How often cleanup has run.
    pub fn count(&self) -> (r: u64)
        ensures
            r == self.spec_count(),
    {
        self.count
    }
}

/// State transition of creation by zero-initialization: the container owns
/// the all-zero value.
pub open spec fn spec_init_state() -> Option<ServerConfigData> {
    Some(ServerConfigData::spec_zeroed())
}

/// State transition of taking ownership of an externally produced value.
pub open spec fn spec_from_raw_state(src: ServerConfigData) -> Option<ServerConfigData> {
    Some(src)
}

/// State transition of giving up ownership: the held value goes to the
/// caller and the container is released.
pub open spec fn spec_into_raw_state(state: Option<ServerConfigData>) -> (
    ServerConfigData,
    Option<ServerConfigData>,
)
    recommends
        state is Some,
{
    (state->0, None)
}

/// State transition of the end of the container's life: cleanup runs exactly
/// once if the container still owns its value, and not at all if ownership
/// was given up before.
pub open spec fn spec_clean(state: Option<ServerConfigData>, count: nat) -> (
    Option<ServerConfigData>,
    nat,
) {
    match state {
        Some(_) => (None, count + 1),
        None => (None, count),
    }
}

/// Container for a native server configuration with explicit ownership
/// transfer.
///
/// The container is `Owned` while [`ServerConfig::is_owned`] holds and
/// `Released` otherwise. Exclusive-access operations ([`ServerConfig::as_mut`],
/// [`ServerConfig::into_raw`], [`ServerConfig::populate_defaults`]) require
/// the `Owned` state: calling them on a released container is a
/// programming-error precondition violation, fatal in the unverified shell
/// (which aborts), and excluded here by `requires`.
#[derive(Debug)]
pub struct ServerConfig {
    inner: Option<ServerConfigData>,
}

impl ServerConfig {
    /// The container's state: the owned value, or `None` once ownership has
    /// been given up.
    pub closed spec fn spec_state(&self) -> Option<ServerConfigData> {
        self.inner
    }

    /// Whether the container still owns its value.
    pub open spec fn is_owned(&self) -> bool {
        self.spec_state() is Some
    }

    /// The owned value.
    pub open spec fn spec_value(&self) -> ServerConfigData
        recommends
            self.is_owned(),
    {
        self.spec_state()->0
    }

    /// Creates a container owning the zero-initialized configuration value.
    ///
    /// Zeroed memory is a well-formed, minimally-configured value by the
    /// engine's definition, so there is no error path. Additional fields may
    /// need to be set before the value is actually useful.
    pub fn init() -> (r: Self)
        ensures
            r.spec_state() == spec_init_state(),
    {
        ServerConfig { inner: Some(ServerConfigData::zeroed()) }
    }

    /// Creates a container by taking ownership of `src`.
    ///
    /// The caller asserts that `src` is not also embedded in another owning
    /// structure: the value will be cleaned up when this container's life
    /// ends, and a second owner would make that cleanup run twice.
    pub fn from_raw(src: ServerConfigData) -> (r: Self)
        ensures
            r.spec_state() == spec_from_raw_state(src),
    {
        ServerConfig { inner: Some(src) }
    }

    /// Gives up ownership and returns the held value.
    ///
    /// The caller becomes responsible for the value's lifetime: it must be
    /// re-wrapped with [`ServerConfig::from_raw`], cleaned up manually, or
    /// copied into another owning structure. After this call the container is
    /// released and its cleanup is a no-op.
    ///
    /// Calling this on a released container is a programming-error
    /// precondition violation (fatal in the unverified shell).
    pub fn into_raw(&mut self) -> (r: ServerConfigData)
        requires
            old(self).is_owned(),
        ensures
            (r, final(self).spec_state()) == spec_into_raw_state(old(self).spec_state()),
            r == old(self).spec_value(),
            !final(self).is_owned(),
    {
        let value = match self.inner {
            Some(v) => v,
            None => unreached(),
        };
        self.inner = None;
        value
    }

    /// Exclusive access to the owned value.
    ///
    /// Ownership stays with the container: writes through the returned
    /// reference are writes to the owned value. Calling this on a released
    /// container is a programming-error precondition violation (fatal in the
    /// unverified shell).
    pub fn as_mut(&mut self) -> (r: &mut ServerConfigData)
        requires
            old(self).is_owned(),
        ensures
            *r == old(self).spec_value(),
            final(self).spec_state() == Some(*final(r)),
    {
        match &mut self.inner {
            Some(v) => v,
            None => unreached(),
        }
    }

    /// Populates the remaining fields of the owned configuration with their
    /// defaults, as far as this layer reads them: the fixed default network
    /// port is derived, and the logger reference is kept (the engine also
    /// copies that reference into sub-structures, which stay opaque here).
    /// Returns the routine's status code.
    ///
    /// The only documented failure of default population is memory
    /// exhaustion; this model performs no allocation, so the returned status
    /// is good. The unverified shell runs the engine's own population
    /// routine instead and translates its status through
    /// [`Error::verify_good`].
    ///
    /// Calling this on a released container is a programming-error
    /// precondition violation (fatal in the unverified shell).
    pub fn populate_defaults(&mut self) -> (s: StatusCode)
        requires
            old(self).is_owned(),
        ensures
            final(self).is_owned(),
            final(self).spec_value().port == DEFAULT_PORT,
            final(self).spec_value().logger_set == old(self).spec_value().logger_set,
            s.spec_is_good(),
    {
        let c = self.as_mut();
        c.port = DEFAULT_PORT;
        let status = StatusCode::new(0);
        proof {
            assert(0u32 >> 30u32 == 0u32) by (bit_vector);
        }
        status
    }

    /// Ends the owning life of the container: if it still owns its value,
    /// cleanup runs exactly once and the container is released; if ownership
    /// was given up before, nothing happens.
    ///
    /// Cleanup is recorded in `log`, the stand-in for the engine's cleanup
    /// routine.
    pub fn clean_up(&mut self, log: &mut CleanupCounter)
        requires
            old(log).spec_count() < u64::MAX,
        ensures
            (final(self).spec_state(), final(log).spec_count() as nat) == spec_clean(
                old(self).spec_state(),
                old(log).spec_count() as nat,
            ),
            !final(self).is_owned(),
            old(self).is_owned() ==> final(log).spec_count() == old(log).spec_count() + 1,
            !old(self).is_owned() ==> final(log).spec_count() == old(log).spec_count(),
    {
        if self.inner.is_some() {
            self.inner = None;
            log.count = log.count + 1;
        }
    }
}

impl Default for ServerConfig {
    /// Creates a server configuration on the default port with a logger set
    /// and no server certificate.
    ///
    /// The assembly zero-initializes the value, assigns a fresh logger, and
    /// then populates the remaining defaults. The logger must be assigned
    /// first, and only to a default-initialized configuration: default
    /// population copies the logger reference into sub-structures, and an
    /// externally supplied configuration might already share its logger
    /// elsewhere, so it could not safely be replaced. Failure of default
    /// population would be unrecoverable resource exhaustion and is treated
    /// as fatal, not surfaced as an error.
    fn default() -> (r: Self)
        ensures
            r.is_owned(),
            r.spec_value().logger_set,
            r.spec_value().port == DEFAULT_PORT,
    {
        let mut config = Self::init();
        // A default-initialized configuration is the only safe place to set
        // the logger; that it is unset here is proved, not checked at run
        // time.
        assert(!config.spec_value().logger_set);
        let c = config.as_mut();
        // Ownership of the fresh logger instance passes to the configuration.
        c.logger_set = true;
        let status = config.populate_defaults();
        match Error::verify_good(&status) {
            Ok(()) => config,
            // Population reported good status, so this branch is provably
            // unreachable; the unverified shell aborts here on resource
            // exhaustion.
            Err(_) => unreached(),
        }
    }
}

/// The container's central invariant: when its life ends, cleanup runs
/// exactly once if it is still `Owned`, and not at all if it is `Released`;
/// either way no owned value remains.
pub proof fn lemma_cleanup_iff_owned(state: Option<ServerConfigData>, count: nat)
    ensures
        state is Some ==> spec_clean(state, count).1 == count + 1,
        state is None ==> spec_clean(state, count).1 == count,
        spec_clean(state, count).0 is None,
{
}

/// Creation by zero-initialization followed immediately by the end of the
/// container's life runs cleanup exactly once.
pub proof fn lemma_init_cleanup_once(count: nat)
    ensures
        ({
            let (state, count_after) = spec_clean(spec_init_state(), count);
            state is None && count_after == count + 1
        }),
{
}

/// Taking ownership of a value and then giving it up returns that value
/// unchanged, and the end of the container's life afterwards runs no
/// cleanup: ownership has already been given up.
pub proof fn lemma_transfer_roundtrip(src: ServerConfigData, count: nat)
    ensures
        ({
            let (out, released) = spec_into_raw_state(spec_from_raw_state(src));
            let (state, count_after) = spec_clean(released, count);
            out == src && count_after == count && state is None
        }),
{
}

/// Taking ownership of a value and then ending the container's life directly
/// runs cleanup exactly once.
pub proof fn lemma_owned_cleanup_once(src: ServerConfigData, count: nat)
    ensures
        ({
            let (state, count_after) = spec_clean(spec_from_raw_state(src), count);
            state is None && count_after == count + 1
        }),
{
}

} // verus!
