//! The transports the client can use, and the reading of endpoint descriptors.
use crate::error::{ClientErrorKind, Error};
use crate::tcp_socket::{valid_port, TcpHandler};
use crate::unix_socket::UnixHandler;
use std::time::Duration;
use vstd::prelude::*;

verus! {

/// Seconds of the timeout that handlers get unless told otherwise.
pub const DEFAULT_TIMEOUT_SECS: u64 = 1;

/// The span that `Duration::from_secs(secs)` denotes.
pub uninterp spec fn seconds_duration(secs: u64) -> Duration;

/// Relies on `Duration::from_secs`: the span depends on the count alone.
#[verifier::external_body]
fn duration_from_secs(secs: u64) -> (r: Duration)
    ensures
        r == seconds_duration(secs),
{
    Duration::from_secs(secs)
}

/// The default timeout of the handlers: one second.
pub fn default_timeout() -> (r: Duration)
    ensures
        r == seconds_duration(DEFAULT_TIMEOUT_SECS),
{
    duration_from_secs(DEFAULT_TIMEOUT_SECS)
}

/// What a connection descriptor says once parsed: its scheme, its host, its
/// port and its path, in the order the URL grammar gives them.
pub type UrlFields = (Seq<char>, Option<Seq<char>>, Option<u16>, Seq<char>);

/// The parts of a connection descriptor that the handler factory reads.
#[derive(Debug, Clone)]
pub struct UrlParts {
    /// The scheme, such as `unix` or `tcp`.
    pub scheme: String,
    /// The host, when the descriptor has an authority part.
    pub host: Option<String>,
    /// The port, when the descriptor names one.
    pub port: Option<u16>,
    /// The path.
    pub path: String,
}

/// The view of an optional string.
pub open spec fn opt_view(s: Option<String>) -> Option<Seq<char>> {
    match s {
        Some(v) => Some(v@),
        None => None,
    }
}

impl View for UrlParts {
    type V = UrlFields;

    open spec fn view(&self) -> UrlFields {
        (self.scheme@, opt_view(self.host), self.port, self.path@)
    }
}

/// The fields of the URL that `url::Url::parse` reads from `s`, or `None`
/// when it refuses `s`.
pub uninterp spec fn url_fields_of(s: Seq<char>) -> Option<UrlFields>;

/// Relies on `url::Url::parse` and on its `scheme`, `host_str`, `port` and
/// `path` accessors: the outcome depends on the text alone.
#[verifier::external_body]
fn parse_url(s: &str) -> (r: Option<UrlParts>)
    ensures
        r is Some <==> url_fields_of(s@) is Some,
        r is Some ==> url_fields_of(s@) == Some(r->Some_0@),
{
    match url::Url::parse(s) {
        Ok(u) => Some(UrlParts {
            scheme: u.scheme().to_owned(),
            host: u.host_str().map(|h| h.to_owned()),
            port: u.port(),
            path: u.path().to_owned(),
        }),
        Err(_) => None,
    }
}

/// Where a handler connects to.
pub enum Target {
    /// A Unix domain socket at a path.
    Unix(Seq<char>),
    /// A TCP socket at a host and port.
    Tcp(Seq<char>, u16),
}

/// The target that the parsed descriptor `f` selects, or `None` when it is
/// refused: a scheme other than `unix` and `tcp`, a `tcp` descriptor without
/// host or port, or a port in the reserved range.
pub open spec fn target_of_fields(f: UrlFields) -> Option<Target> {
    if f.0 == "unix"@ {
        Some(Target::Unix(f.3))
    } else if f.0 == "tcp"@ {
        match (f.1, f.2) {
            (Some(host), Some(port)) => if valid_port(port) {
                Some(Target::Tcp(host, port))
            } else {
                None
            },
            _ => None,
        }
    } else {
        None
    }
}

/// The target that the descriptor text `s` selects, or `None` when it is refused.
pub open spec fn target_of_descriptor(s: Seq<char>) -> Option<Target> {
    match url_fields_of(s) {
        Some(f) => target_of_fields(f),
        None => None,
    }
}

/// A transport the client can connect through.
#[derive(Debug, Clone)]
pub enum IpcHandler {
    /// A Unix domain socket.
    Unix(UnixHandler),
    /// A TCP socket.
    Tcp(TcpHandler),
}

impl IpcHandler {
    /// Where the handler connects to.
    pub open spec fn target(&self) -> Target {
        match self {
            IpcHandler::Unix(h) => Target::Unix(h.spec_path()),
            IpcHandler::Tcp(h) => Target::Tcp(h.spec_ip_addr(), h.spec_port()),
        }
    }

    /// The timeout applied to reads and writes of each stream.
    pub open spec fn spec_timeout(&self) -> Option<Duration> {
        match self {
            IpcHandler::Unix(h) => h.spec_timeout(),
            IpcHandler::Tcp(h) => h.spec_timeout(),
        }
    }

    /// A TCP handler holds a port outside the reserved range.
    pub open spec fn wf(&self) -> bool {
        match self {
            IpcHandler::Unix(_) => true,
            IpcHandler::Tcp(h) => h.wf(),
        }
    }

    /// The timeout applied to reads and writes of each stream.
    pub fn timeout(&self) -> (r: Option<Duration>)
        ensures
            r == self.spec_timeout(),
    {
        match self {
            IpcHandler::Unix(h) => h.timeout(),
            IpcHandler::Tcp(h) => h.timeout(),
        }
    }

    /// Replace the timeout used for the streams opened from now on; the
    /// target is kept.
    pub fn set_timeout(&mut self, timeout: Option<Duration>)
        ensures
            final(self).spec_timeout() == timeout,
            final(self).target() == old(self).target(),
            final(self).wf() == old(self).wf(),
    {
        match self {
            IpcHandler::Unix(h) => h.set_timeout(timeout),
            IpcHandler::Tcp(h) => h.set_timeout(timeout),
        }
    }
}

/// Build the handler that already parsed descriptor fields select, with the
/// default timeout; refused descriptors give `InvalidSocketAddress`.
pub fn connector_from_parts(parts: UrlParts) -> (r: Result<IpcHandler, Error>)
    ensures
        r is Ok <==> target_of_fields(parts@) is Some,
        r is Ok ==> {
            let h = r->Ok_0;
            &&& h.wf()
            &&& Some(h.target()) == target_of_fields(parts@)
            &&& h.spec_timeout() == Some(seconds_duration(DEFAULT_TIMEOUT_SECS))
        },
        r is Err ==> r->Err_0 == Error::Client(ClientErrorKind::InvalidSocketAddress),
{
    let ghost f = parts@;
    let UrlParts { scheme, host, port, path } = parts;
    if scheme == "unix".to_owned() {
        Ok(IpcHandler::Unix(UnixHandler::new(path, Some(default_timeout()))))
    } else if scheme == "tcp".to_owned() {
        match (host, port) {
            (Some(host), Some(port)) => match TcpHandler::new(host, port, Some(default_timeout())) {
                Ok(h) => Ok(IpcHandler::Tcp(h)),
                Err(e) => Err(e),
            },
            _ => Err(Error::Client(ClientErrorKind::InvalidSocketAddress)),
        }
    } else {
        Err(Error::Client(ClientErrorKind::InvalidSocketAddress))
    }
}

/// Build the handler that the descriptor `socket_url` names (`unix:<path>` or
/// `tcp://<host>:<port>`), with the default timeout; a descriptor that does
/// not parse, or that `connector_from_parts` refuses, gives
/// `InvalidSocketAddress`.
pub fn connector_from_url(socket_url: &str) -> (r: Result<IpcHandler, Error>)
    ensures
        r is Ok <==> target_of_descriptor(socket_url@) is Some,
        r is Ok ==> {
            let h = r->Ok_0;
            &&& h.wf()
            &&& Some(h.target()) == target_of_descriptor(socket_url@)
            &&& h.spec_timeout() == Some(seconds_duration(DEFAULT_TIMEOUT_SECS))
        },
        r is Err ==> r->Err_0 == Error::Client(ClientErrorKind::InvalidSocketAddress),
{
    match parse_url(socket_url) {
        Some(parts) => connector_from_parts(parts),
        None => Err(Error::Client(ClientErrorKind::InvalidSocketAddress)),
    }
}

/// Build a TCP handler for `ip_addr:port` with the default timeout.
pub fn connector_from_ipaddress(ip_addr: String, port: u16) -> (r: Result<IpcHandler, Error>)
    ensures
        r is Ok <==> valid_port(port),
        r is Ok ==> {
            let h = r->Ok_0;
            &&& h.wf()
            &&& h.target() == Target::Tcp(ip_addr@, port)
            &&& h.spec_timeout() == Some(seconds_duration(DEFAULT_TIMEOUT_SECS))
        },
        r is Err ==> r->Err_0 == Error::Client(ClientErrorKind::InvalidSocketAddress),
{
    match TcpHandler::new(ip_addr, port, Some(default_timeout())) {
        Ok(h) => Ok(IpcHandler::Tcp(h)),
        Err(e) => Err(e),
    }
}

} // verus!
