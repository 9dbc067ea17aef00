//! Handler configuration for Unix domain sockets.
use crate::ipc_handler::{default_timeout, seconds_duration, DEFAULT_TIMEOUT_SECS};
use std::time::Duration;
use vstd::prelude::*;

verus! {

/// Default location of the service's socket.
pub const DEFAULT_SOCKET_PATH: &'static str = "/run/parsec/parsec.sock";

/// IPC handler for Unix domain sockets.
#[derive(Debug, Clone)]
pub struct UnixHandler {
    path: String,
    timeout: Option<Duration>,
}

impl UnixHandler {
    /// The filesystem path of the socket.
    pub closed spec fn spec_path(&self) -> Seq<char> {
        self.path@
    }

    /// The timeout applied to reads and writes of each stream.
    pub closed spec fn spec_timeout(&self) -> Option<Duration> {
        self.timeout
    }

    /// Create a handler for the socket at `path`.
    pub fn new(path: String, timeout: Option<Duration>) -> (r: UnixHandler)
        ensures
            r.spec_path() == path@,
            r.spec_timeout() == timeout,
    {
        UnixHandler { path, timeout }
    }

    /// The handler for the default socket path, with the default timeout.
    pub fn default() -> (r: UnixHandler)
        ensures
            r.spec_path() == DEFAULT_SOCKET_PATH@,
            r.spec_timeout() == Some(seconds_duration(DEFAULT_TIMEOUT_SECS)),
    {
        UnixHandler { path: DEFAULT_SOCKET_PATH.to_owned(), timeout: Some(default_timeout()) }
    }

    /// Replace the timeout used for the streams opened from now on.
    pub fn set_timeout(&mut self, timeout: Option<Duration>)
        ensures
            final(self).spec_timeout() == timeout,
            final(self).spec_path() == old(self).spec_path(),
    {
        self.timeout = timeout;
    }

    /// The filesystem path of the socket.
    pub fn path(&self) -> (r: &str)
        ensures
            r@ == self.spec_path(),
    {
        self.path.as_str()
    }

    /// The timeout applied to reads and writes of each stream.
    pub fn timeout(&self) -> (r: Option<Duration>)
        ensures
            r == self.spec_timeout(),
    {
        self.timeout
    }
}

} // verus!
