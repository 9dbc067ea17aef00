//! Request-level client: one handler and a response size limit.
use crate::error::Error;
use crate::exchange::{Exchange, Phase};
use crate::ipc_handler::{
    connector_from_ipaddress, connector_from_url, seconds_duration, target_of_descriptor, IpcHandler,
    Target, DEFAULT_TIMEOUT_SECS,
};
use crate::tcp_socket::valid_port;
use crate::unix_socket::{UnixHandler, DEFAULT_SOCKET_PATH};
use std::time::Duration;
use vstd::prelude::*;

verus! {

/// The response body limit unless told otherwise: no limit.
pub const DEFAULT_MAX_BODY_SIZE: usize = usize::MAX;

/// Low level client that sends one request at a time, each over a stream of
/// its own.
#[derive(Debug)]
pub struct RequestClient {
    /// Max size for response bodies; defaults to the largest `usize`.
    pub max_body_size: usize,
    /// Handler for IPC-related functionality; defaults to the Unix domain socket.
    pub ipc_handler: IpcHandler,
}

/// The client that `RequestClient::default` gives: the default Unix domain
/// socket, the default timeout, no body limit.
pub open spec fn is_default_client(c: RequestClient) -> bool {
    &&& c.max_body_size == DEFAULT_MAX_BODY_SIZE
    &&& c.ipc_handler.target() == Target::Unix(DEFAULT_SOCKET_PATH@)
    &&& c.ipc_handler.spec_timeout() == Some(seconds_duration(DEFAULT_TIMEOUT_SECS))
}

/// The two connection kinds are told apart by their names.
proof fn lemma_kind_names_differ()
    ensures
        "unix"@ != "tcp"@,
{
    reveal_strlit("unix");
    reveal_strlit("tcp");
    assert("unix"@[0] != "tcp"@[0]);
}

impl RequestClient {
    /// Talk to the service over the default Unix domain socket.
    pub fn default() -> (r: RequestClient)
        ensures
            is_default_client(r),
            r.ipc_handler.wf(),
    {
        RequestClient {
            max_body_size: DEFAULT_MAX_BODY_SIZE,
            ipc_handler: IpcHandler::Unix(UnixHandler::default()),
        }
    }

    /// Select the handler from the connection settings. `unix` uses
    /// `endpoint` as a descriptor when given and the default socket otherwise;
    /// `tcp` uses `conn_ip_addr:conn_port_no`; any other kind falls back to the
    /// default client. A refused descriptor or port gives `InvalidSocketAddress`.
    pub fn new(conn_type: &str, conn_ip_addr: String, conn_port_no: u16, endpoint: Option<String>) -> (r:
        Result<RequestClient, Error>)
        ensures
            conn_type@ == "unix"@ ==> match endpoint {
                Some(e) => {
                    &&& r is Ok <==> target_of_descriptor(e@) is Some
                    &&& r is Ok ==> Some(r->Ok_0.ipc_handler.target()) == target_of_descriptor(e@)
                },
                None => r is Ok && is_default_client(r->Ok_0),
            },
            conn_type@ == "tcp"@ ==> {
                &&& r is Ok <==> valid_port(conn_port_no)
                &&& r is Ok ==> r->Ok_0.ipc_handler.target() == Target::Tcp(conn_ip_addr@, conn_port_no)
            },
            conn_type@ != "unix"@ && conn_type@ != "tcp"@ ==> r is Ok && is_default_client(r->Ok_0),
            r is Ok ==> {
                let c = r->Ok_0;
                &&& c.max_body_size == DEFAULT_MAX_BODY_SIZE
                &&& c.ipc_handler.wf()
                &&& c.ipc_handler.spec_timeout() == Some(seconds_duration(DEFAULT_TIMEOUT_SECS))
            },
            r is Err ==> r->Err_0 == Error::Client(crate::error::ClientErrorKind::InvalidSocketAddress),
    {
        proof {
            lemma_kind_names_differ();
        }
        let kind = conn_type.to_owned();
        if kind == "unix".to_owned() {
            match endpoint {
                Some(e) => match connector_from_url(e.as_str()) {
                    Ok(h) => Ok(RequestClient { max_body_size: DEFAULT_MAX_BODY_SIZE, ipc_handler: h }),
                    Err(err) => Err(err),
                },
                None => Ok(RequestClient::default()),
            }
        } else if kind == "tcp".to_owned() {
            match connector_from_ipaddress(conn_ip_addr, conn_port_no) {
                Ok(h) => Ok(RequestClient { max_body_size: DEFAULT_MAX_BODY_SIZE, ipc_handler: h }),
                Err(err) => Err(err),
            }
        } else {
            Ok(RequestClient::default())
        }
    }

    /// Select the handler from settings that may be missing. Without a
    /// connection kind the default client is used; a `tcp` kind needs both an
    /// address and a port, else `InvalidSocketAddress`; any other kind is
    /// handed to `new`, which reads no address or port for it.
    pub fn from_settings(
        conn_type: Option<String>,
        conn_ip_addr: Option<String>,
        conn_port_no: Option<u16>,
        endpoint: Option<String>,
    ) -> (r: Result<RequestClient, Error>)
        ensures
            conn_type is None ==> r is Ok && is_default_client(r->Ok_0),
            conn_type is Some && conn_type->Some_0@ == "unix"@ ==> match endpoint {
                Some(e) => {
                    &&& r is Ok <==> target_of_descriptor(e@) is Some
                    &&& r is Ok ==> Some(r->Ok_0.ipc_handler.target()) == target_of_descriptor(e@)
                },
                None => r is Ok && is_default_client(r->Ok_0),
            },
            conn_type is Some && conn_type->Some_0@ == "tcp"@ ==> match (conn_ip_addr, conn_port_no) {
                (Some(ip), Some(port)) => {
                    &&& r is Ok <==> valid_port(port)
                    &&& r is Ok ==> r->Ok_0.ipc_handler.target() == Target::Tcp(ip@, port)
                },
                _ => r is Err,
            },
            conn_type is Some && conn_type->Some_0@ != "unix"@ && conn_type->Some_0@ != "tcp"@
                ==> r is Ok && is_default_client(r->Ok_0),
            r is Ok ==> {
                let c = r->Ok_0;
                &&& c.max_body_size == DEFAULT_MAX_BODY_SIZE
                &&& c.ipc_handler.wf()
                &&& c.ipc_handler.spec_timeout() == Some(seconds_duration(DEFAULT_TIMEOUT_SECS))
            },
            r is Err ==> r->Err_0 == Error::Client(crate::error::ClientErrorKind::InvalidSocketAddress),
    {
        proof {
            lemma_kind_names_differ();
        }
        match conn_type {
            None => Ok(RequestClient::default()),
            Some(kind) => {
                if kind == "tcp".to_owned() {
                    match (conn_ip_addr, conn_port_no) {
                        (Some(ip), Some(port)) => RequestClient::new(kind.as_str(), ip, port, endpoint),
                        _ => Err(Error::Client(crate::error::ClientErrorKind::InvalidSocketAddress)),
                    }
                } else {
                    RequestClient::new(kind.as_str(), String::new(), 0, endpoint)
                }
            },
        }
    }

    /// Start the exchange that sends one request with opcode `request_opcode`
    /// over a fresh stream, under this client's body limit.
    pub fn begin_exchange(&self, request_opcode: u32) -> (r: Exchange)
        ensures
            r.spec_phase() == Phase::Idle,
            r.spec_request_opcode() == request_opcode,
            r.spec_max_body_size() == self.max_body_size,
    {
        Exchange::new(request_opcode, self.max_body_size)
    }
}

/// Client holding the request-level client and its IPC options.
#[derive(Debug)]
pub struct BasicClient {
    request_client: RequestClient,
}

impl BasicClient {
    /// The request-level client.
    pub closed spec fn spec_request_client(&self) -> RequestClient {
        self.request_client
    }

    /// Wrap a request-level client.
    pub fn new(request_client: RequestClient) -> (r: BasicClient)
        ensures
            r.spec_request_client() == request_client,
    {
        BasicClient { request_client }
    }

    /// The request-level client.
    pub fn request_client(&self) -> (r: &RequestClient)
        ensures
            *r == self.spec_request_client(),
    {
        &self.request_client
    }

    /// Set the maximum body size allowed for responses.
    pub fn set_max_body_size(&mut self, max_body_size: usize)
        ensures
            final(self).spec_request_client().max_body_size == max_body_size,
            final(self).spec_request_client().ipc_handler == old(self).spec_request_client().ipc_handler,
    {
        self.request_client.max_body_size = max_body_size;
    }

    /// Set the IPC handler used for communication with the service.
    pub fn set_ipc_handler(&mut self, ipc_handler: IpcHandler)
        ensures
            final(self).spec_request_client().ipc_handler == ipc_handler,
            final(self).spec_request_client().max_body_size == old(self).spec_request_client().max_body_size,
    {
        self.request_client.ipc_handler = ipc_handler;
    }

    /// Set the timeout for operations on the IPC streams opened from now on.
    pub fn set_timeout(&mut self, timeout: Option<Duration>)
        ensures
            final(self).spec_request_client().ipc_handler.spec_timeout() == timeout,
            final(self).spec_request_client().ipc_handler.target() == old(
                self,
            ).spec_request_client().ipc_handler.target(),
            final(self).spec_request_client().ipc_handler.wf() == old(
                self,
            ).spec_request_client().ipc_handler.wf(),
            final(self).spec_request_client().max_body_size == old(self).spec_request_client().max_body_size,
    {
        self.request_client.ipc_handler.set_timeout(timeout);
    }
}

} // verus!
