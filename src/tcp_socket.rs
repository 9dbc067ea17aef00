//! Handler configuration for TCP sockets.
use crate::error::{ClientErrorKind, Error};
use crate::ipc_handler::{default_timeout, seconds_duration, DEFAULT_TIMEOUT_SECS};
use std::time::Duration;
use vstd::prelude::*;

verus! {

/// Default port of the service.
pub const DEFAULT_SOCKET_PORT: u16 = 8000;

/// Default IP address of the service.
pub const DEFAULT_SOCKET_IP_ADDR: &'static str = "127.0.0.1";

/// Whether `port` lies outside the reserved range and below the last port.
pub open spec fn valid_port(port: u16) -> bool {
    1024 < port && port < 65535
}

/// IPC handler for TCP sockets.
#[derive(Debug, Clone)]
pub struct TcpHandler {
    ip_addr: String,
    port: u16,
    timeout: Option<Duration>,
}

impl TcpHandler {
    /// The host or IP address the handler connects to.
    pub closed spec fn spec_ip_addr(&self) -> Seq<char> {
        self.ip_addr@
    }

    /// The port the handler connects to.
    pub closed spec fn spec_port(&self) -> u16 {
        self.port
    }

    /// The timeout applied to reads and writes of each stream.
    pub closed spec fn spec_timeout(&self) -> Option<Duration> {
        self.timeout
    }

    /// Every handler holds a port outside the reserved range.
    pub closed spec fn wf(&self) -> bool {
        valid_port(self.port)
    }

    /// Create a handler for `ip_addr:port`; the port must satisfy
    /// `1024 < port < 65535`, otherwise the address is rejected.
    pub fn new(ip_addr: String, port: u16, timeout: Option<Duration>) -> (r: Result<
        TcpHandler,
        Error,
    >)
        ensures
            valid_port(port) <==> r is Ok,
            r is Ok ==> {
                let h = r->Ok_0;
                &&& h.wf()
                &&& h.spec_ip_addr() == ip_addr@
                &&& h.spec_port() == port
                &&& h.spec_timeout() == timeout
            },
            r is Err ==> r->Err_0 == Error::Client(ClientErrorKind::InvalidSocketAddress),
    {
        if port > 1024 && port < 65535 {
            Ok(TcpHandler { ip_addr, port, timeout })
        } else {
            Err(Error::Client(ClientErrorKind::InvalidSocketAddress))
        }
    }

    /// The handler for the default address and port, with the default timeout.
    pub fn default() -> (r: TcpHandler)
        ensures
            r.wf(),
            r.spec_ip_addr() == DEFAULT_SOCKET_IP_ADDR@,
            r.spec_port() == DEFAULT_SOCKET_PORT,
            r.spec_timeout() == Some(seconds_duration(DEFAULT_TIMEOUT_SECS)),
    {
        TcpHandler {
            ip_addr: DEFAULT_SOCKET_IP_ADDR.to_owned(),
            port: DEFAULT_SOCKET_PORT,
            timeout: Some(default_timeout()),
        }
    }

    /// Replace the timeout used for the streams opened from now on.
    pub fn set_timeout(&mut self, timeout: Option<Duration>)
        ensures
            final(self).spec_timeout() == timeout,
            final(self).spec_ip_addr() == old(self).spec_ip_addr(),
            final(self).spec_port() == old(self).spec_port(),
            final(self).wf() == old(self).wf(),
    {
        self.timeout = timeout;
    }

    /// The host or IP address the handler connects to.
    pub fn ip_addr(&self) -> (r: &str)
        ensures
            r@ == self.spec_ip_addr(),
    {
        self.ip_addr.as_str()
    }

    /// The port the handler connects to.
    pub fn port(&self) -> (r: u16)
        ensures
            r == self.spec_port(),
    {
        self.port
    }

    /// The timeout applied to reads and writes of each stream.
    pub fn timeout(&self) -> (r: Option<Duration>)
        ensures
            r == self.spec_timeout(),
    {
        self.timeout
    }
}

} // verus!
