//! The readiness domain: the probe ports, the canonical service that
//! collapses every probe failure to a single not-ready signal, and an
//! in-memory probe.
use vstd::prelude::*;

verus! {

/// Why a readiness check failed: the database could not be reached, or an
/// unclassified cause described by a diagnostic message.
#[derive(Debug)]
pub enum ReadinessError {
    DatabaseNotReady,
    Unknown(String),
}

impl ReadinessError {
    /// The text shown for this error.
    pub fn message(&self) -> (m: String)
        ensures
            self is DatabaseNotReady ==> m@ == "database is not ready"@,
            self matches ReadinessError::Unknown(c) ==> m@ == c@,
    {
        match self {
            ReadinessError::DatabaseNotReady => "database is not ready".to_owned(),
            ReadinessError::Unknown(c) => c.clone(),
        }
    }
}

/// `ReadinessService` is the public API for the readiness domain.
pub trait ReadinessService: Sized {
    /// Whether the downstream store can currently be reached.
    spec fn ready(&self) -> bool;

    /// Check if the store is ready; every failure collapses to
    /// [`ReadinessError::DatabaseNotReady`].
    fn is_ready(&self) -> (r: Result<(), ReadinessError>)
        ensures
            r is Ok <==> self.ready(),
            r matches Err(e) ==> e is DatabaseNotReady,
    ;
}

/// `ReadinessRepository` represents a store of readiness data.
pub trait ReadinessRepository: Sized {
    /// Whether the probe's round trip would succeed right now.
    spec fn ready(&self) -> bool;

    /// Probe the store with a trivial round trip.
    fn is_ready(&self) -> (r: Result<(), ReadinessError>)
        ensures
            r is Ok <==> self.ready(),
    ;
}

/// Canonical implementation of the [`ReadinessService`] port, through which
/// the readiness domain is consumed.
#[derive(Debug)]
pub struct Service<R: ReadinessRepository> {
    pub repo: R,
}

impl<R: ReadinessRepository> Service<R> {
    /// A service over the given probe.
    pub fn new(repo: R) -> (s: Self)
        ensures
            s.repo == repo,
    {
        Service { repo }
    }
}

impl<R: ReadinessRepository> ReadinessService for Service<R> {
    open spec fn ready(&self) -> bool {
        self.repo.ready()
    }

    /// Any probe failure — whatever its cause — is reported as the single
    /// not-ready signal; the cause is diagnostic only.
    fn is_ready(&self) -> (r: Result<(), ReadinessError>) {
        match self.repo.is_ready() {
            Ok(()) => Ok(()),
            Err(_) => Err(ReadinessError::DatabaseNotReady),
        }
    }
}

/// A probe whose readiness is set directly: the port's in-memory
/// implementation, for tests and for running without a database.
#[derive(Debug)]
pub struct InMemoryProbe {
    pub connected: bool,
}

impl ReadinessRepository for InMemoryProbe {
    open spec fn ready(&self) -> bool {
        self.connected
    }

    fn is_ready(&self) -> (r: Result<(), ReadinessError>) {
        if self.connected {
            Ok(())
        } else {
            Err(ReadinessError::DatabaseNotReady)
        }
    }
}

} // verus!
