//! The deadlines of the file connections, with an override of the two that
//! a caller may shorten (the handshake and the graceful close).

use vstd::prelude::*;

verus! {

/// Seconds allowed for the peer to announce SERVER_READY.
pub const SERVER_READY_TIMEOUT_SECS: u64 = 10;

/// Seconds allowed for opening a file connection.
pub const FILE_WS_CONNECT_TIMEOUT_SECS: u64 = 10;

/// Seconds allowed for closing a file connection gracefully.
pub const GRACEFUL_CLOSE_TIMEOUT_SECS: u64 = 5;

/// Bytes read from a file for one download chunk.
pub const DOWNLOAD_CHUNK_SIZE: usize = 65536;

/// Directory listings served at the same time.
pub const FILE_LIST_CONCURRENCY_LIMIT: usize = 4;

/// The handshake and graceful-close deadlines in force, in milliseconds:
/// each is its override where one is set, else its default.
pub struct Deadlines {
    server_ready_override_ms: Option<u64>,
    graceful_close_override_ms: Option<u64>,
}

impl Deadlines {
    /// The override of the handshake deadline.
    pub closed spec fn server_ready_override(&self) -> Option<u64> {
        self.server_ready_override_ms
    }

    /// The override of the graceful-close deadline.
    pub closed spec fn graceful_close_override(&self) -> Option<u64> {
        self.graceful_close_override_ms
    }

    /// Deadlines with no override.
    pub fn new() -> (d: Deadlines)
        ensures
            d.server_ready_override() is None,
            d.graceful_close_override() is None,
    {
        Deadlines { server_ready_override_ms: None, graceful_close_override_ms: None }
    }

    /// Sets (or, with `None`, clears) the override of the handshake deadline.
    pub fn set_server_ready_timeout(&mut self, timeout_ms: Option<u64>)
        ensures
            final(self).server_ready_override() == timeout_ms,
            final(self).graceful_close_override() == old(self).graceful_close_override(),
    {
        self.server_ready_override_ms = timeout_ms;
    }

    /// Sets (or, with `None`, clears) the override of the graceful-close deadline.
    pub fn set_graceful_close_timeout(&mut self, timeout_ms: Option<u64>)
        ensures
            final(self).graceful_close_override() == timeout_ms,
            final(self).server_ready_override() == old(self).server_ready_override(),
    {
        self.graceful_close_override_ms = timeout_ms;
    }

    /// The handshake deadline in milliseconds.
    pub fn server_ready_timeout_ms(&self) -> (ms: u64)
        ensures
            ms == match self.server_ready_override() {
                Some(v) => v as int,
                None => SERVER_READY_TIMEOUT_SECS * 1000,
            },
    {
        match self.server_ready_override_ms {
            Some(v) => v,
            None => SERVER_READY_TIMEOUT_SECS * 1000,
        }
    }

    /// The graceful-close deadline in milliseconds.
    pub fn graceful_close_timeout_ms(&self) -> (ms: u64)
        ensures
            ms == match self.graceful_close_override() {
                Some(v) => v as int,
                None => GRACEFUL_CLOSE_TIMEOUT_SECS * 1000,
            },
    {
        match self.graceful_close_override_ms {
            Some(v) => v,
            None => GRACEFUL_CLOSE_TIMEOUT_SECS * 1000,
        }
    }
}

} // verus!
