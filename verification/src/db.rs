//! Read/write routing over the primary and replica connection pools.
//!
//! The topology is held as data: each pool knows whether it can currently
//! hand a connection out. The routing functions decide which pool serves a
//! request and how acquisition failures fall back, exactly as the gateway
//! promises: writes always target the primary; reads prefer the replica
//! and fall back to the primary; `read_prefer_primary` the other way
//! around.

use vstd::prelude::*;

verus! {

use crate::errors::AppError;

/// Per-connection setup applied when a pool creates a connection: an
/// application-name tag, a statement timeout, and — for read-only pools —
/// a database-enforced read-only session.
#[derive(Clone, Copy, Debug)]
pub struct ConnectionConfig {
    /// Statement timeout, in milliseconds.
    pub statement_timeout: u64,
    /// Whether the session is forced into read-only mode at the database
    /// level, a defense-in-depth measure independent of routing.
    pub read_only: bool,
}

/// Which pool a connection came from.
#[derive(Clone, Copy, Debug, PartialEq, Eq, Structural)]
pub enum PoolSource {
    Primary,
    Replica,
}

/// Acquisition failed: the pool is exhausted or its backend unreachable.
#[derive(Clone, Copy, Debug)]
pub struct PoolError;

impl core::convert::From<PoolError> for AppError {
    /// Pool exhaustion surfaces to callers as 503, never as a panic.
    fn from(_e: PoolError) -> (r: AppError) {
        AppError::ServiceUnavailable
    }
}

impl vstd::std_specs::convert::FromSpecImpl<PoolError> for AppError {
    open spec fn obeys_from_spec() -> bool {
        true
    }

    open spec fn from_spec(_e: PoolError) -> AppError {
        AppError::ServiceUnavailable
    }
}

/// A connection checked out of a pool.
#[derive(Clone, Copy, Debug)]
pub struct PooledConnection {
    /// The pool that served it.
    pub source: PoolSource,
    /// The per-connection setup it was created under.
    pub config: ConnectionConfig,
}

/// One connection pool: where its connections point and whether it can
/// currently serve one.
#[derive(Clone, Copy, Debug)]
pub struct Pool {
    pub source: PoolSource,
    /// Whether acquisition currently succeeds (bounded wait not exceeded,
    /// backend reachable).
    pub available: bool,
    pub config: ConnectionConfig,
}

impl Pool {
    /// Acquires a connection: succeeds exactly when the pool is available.
    pub fn get(&self) -> (r: Result<PooledConnection, PoolError>)
        ensures
            match r {
                Ok(c) => self.available && c.source == self.source && c.config == self.config,
                Err(_) => !self.available,
            },
    {
        if self.available {
            Ok(PooledConnection { source: self.source, config: self.config })
        } else {
            Err(PoolError)
        }
    }
}

/// The application's database topology: a primary pool and an optional
/// read-only replica pool.
#[derive(Clone, Copy, Debug)]
pub struct App {
    /// Database connection pool connected to the primary database.
    pub primary_database: Pool,
    /// Database connection pool connected to the read-only replica.
    pub replica_database: Option<Pool>,
}

impl App {
    pub fn new(primary_database: Pool, replica_database: Option<Pool>) -> (r: App)
        ensures
            r.primary_database == primary_database,
            r.replica_database == replica_database,
    {
        App { primary_database, replica_database }
    }

    /// A read/write connection: always from the primary pool.
    pub fn db_write(&self) -> (r: Result<PooledConnection, PoolError>)
        ensures
            match r {
                Ok(c) => self.primary_database.available && c.source
                    == self.primary_database.source && c.config == self.primary_database.config,
                Err(_) => !self.primary_database.available,
            },
    {
        self.primary_database.get()
    }

    /// A read-only connection, preferring the replica pool.
    ///
    /// With no replica configured, or when the replica cannot serve, the
    /// primary pool answers instead of failing the caller.
    pub fn db_read(&self) -> (r: Result<PooledConnection, PoolError>)
        ensures
            match self.replica_database {
                None => match r {
                    Ok(c) => self.primary_database.available && c.source
                        == self.primary_database.source && c.config
                        == self.primary_database.config,
                    Err(_) => !self.primary_database.available,
                },
                Some(rep) => match r {
                    Ok(c) => if rep.available {
                        c.source == rep.source && c.config == rep.config
                    } else {
                        self.primary_database.available && c.source
                            == self.primary_database.source && c.config
                            == self.primary_database.config
                    },
                    Err(_) => !rep.available && !self.primary_database.available,
                },
            },
    {
        let read_only_pool = match &self.replica_database {
            None => {
                // Replica is disabled, but primary might be available.
                return self.primary_database.get();
            },
            Some(pool) => pool,
        };
        match read_only_pool.get() {
            // Replica is available.
            Ok(connection) => Ok(connection),
            // Replica is not available, but primary might be available.
            Err(_) => self.primary_database.get(),
        }
    }

    /// A read-only connection, preferring the primary pool; when the
    /// primary cannot serve and a replica is configured, the replica
    /// answers instead.
    pub fn db_read_prefer_primary(&self) -> (r: Result<PooledConnection, PoolError>)
        ensures
            match self.replica_database {
                None => match r {
                    Ok(c) => self.primary_database.available && c.source
                        == self.primary_database.source && c.config
                        == self.primary_database.config,
                    Err(_) => !self.primary_database.available,
                },
                Some(rep) => match r {
                    Ok(c) => if self.primary_database.available {
                        c.source == self.primary_database.source && c.config
                            == self.primary_database.config
                    } else {
                        rep.available && c.source == rep.source && c.config == rep.config
                    },
                    Err(_) => !rep.available && !self.primary_database.available,
                },
            },
    {
        let read_only_pool = match &self.replica_database {
            None => {
                return self.primary_database.get();
            },
            Some(pool) => pool,
        };
        match self.primary_database.get() {
            // Primary is available.
            Ok(connection) => Ok(connection),
            // Primary is not available, but replica might be available.
            Err(_) => read_only_pool.get(),
        }
    }
}

} // verus!
