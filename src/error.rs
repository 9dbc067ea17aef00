//! Errors returned to the users of the client.
use parsec_interface::requests::ResponseStatus;
use vstd::prelude::*;

verus! {

/// The status codes of the service's wire protocol.
#[verifier::external_type_specification]
#[verifier::external_body]
pub struct ExResponseStatus(parsec_interface::requests::ResponseStatus);

/// A transport failure reported by the operating system.
#[verifier::external_type_specification]
#[verifier::external_body]
pub struct ExIoError(std::io::Error);

/// Errors returned to the library user.
#[derive(Debug)]
pub enum Error {
    /// Errors originating in the service.
    Service(ResponseStatus),
    /// Errors originating in the client.
    Client(ClientErrorKind),
}

/// Kinds of errors local to the client library.
#[derive(Debug)]
pub enum ClientErrorKind {
    /// The wire codec failed to write the request or to read the response.
    Interface(ResponseStatus),
    /// The underlying transport failed (connection refused, timeout, reset).
    Ipc(std::io::Error),
    /// The opcode of the response does not match the opcode of the request.
    InvalidServiceResponseType,
    /// The operation is not supported by the selected provider.
    InvalidProvider,
    /// The client is missing an implicit provider.
    NoProvider,
    /// The service reports no authenticator that the client supports.
    NoAuthenticator,
    /// A required parameter was not provided.
    MissingParam,
    /// The socket address or endpoint descriptor is not acceptable.
    InvalidSocketAddress,
}

impl From<ClientErrorKind> for Error {
    fn from(client_error: ClientErrorKind) -> (r: Error)
        ensures
            r == Error::Client(client_error),
    {
        Error::Client(client_error)
    }
}

impl vstd::std_specs::convert::FromSpecImpl<ClientErrorKind> for Error {
    open spec fn obeys_from_spec() -> bool {
        true
    }

    open spec fn from_spec(client_error: ClientErrorKind) -> Error {
        Error::Client(client_error)
    }
}

/// The text that the `Display` impl of `ResponseStatus` writes for `status`.
pub uninterp spec fn status_text_of(status: ResponseStatus) -> Seq<char>;

/// Relies on the `Display` impl of `ResponseStatus`: a fixed description for
/// each status, depending on the status alone.
#[verifier::external_body]
fn status_text(status: &ResponseStatus) -> (r: String)
    ensures
        r@ == status_text_of(*status),
{
    format!("{}", status)
}

/// Relies on the `Display` impl of `std::io::Error`: the system's description.
#[verifier::external_body]
fn io_error_text(error: &std::io::Error) -> String {
    format!("{}", error)
}

/// The description of a client error kind: the status's text for a codec
/// failure, a fixed text for the kinds without payload, and none stated for a
/// transport failure, whose text the operating system supplies.
pub open spec fn kind_text(k: ClientErrorKind) -> Option<Seq<char>> {
    match k {
        ClientErrorKind::Interface(status) => Some(status_text_of(status)),
        ClientErrorKind::InvalidServiceResponseType => Some(
            "the opcode of the response does not match the opcode of the request"@,
        ),
        ClientErrorKind::InvalidProvider => Some("operation not supported by selected provider"@),
        ClientErrorKind::NoProvider => Some("client is missing an implicit provider"@),
        ClientErrorKind::NoAuthenticator => Some(
            "service is not reporting any authenticators or none of the reported ones are supported by the client"@,
        ),
        ClientErrorKind::MissingParam => Some(
            "one of the `Option` parameters was required but was not provided"@,
        ),
        ClientErrorKind::InvalidSocketAddress => Some(
            "the socket address or endpoint descriptor is not valid"@,
        ),
        _ => None,
    }
}

impl ClientErrorKind {
    /// A human readable description of the error; kinds that carry a status or
    /// a system error are described as what they carry.
    pub fn to_string(&self) -> (r: String)
        ensures
            kind_text(*self) is Some ==> r@ == kind_text(*self)->Some_0,
    {
        match self {
            ClientErrorKind::Interface(status) => status_text(status),
            ClientErrorKind::Ipc(error) => io_error_text(error),
            ClientErrorKind::InvalidServiceResponseType => {
                "the opcode of the response does not match the opcode of the request".to_owned()
            },
            ClientErrorKind::InvalidProvider => {
                "operation not supported by selected provider".to_owned()
            },
            ClientErrorKind::NoProvider => "client is missing an implicit provider".to_owned(),
            ClientErrorKind::NoAuthenticator => {
                "service is not reporting any authenticators or none of the reported ones are supported by the client".to_owned()
            },
            ClientErrorKind::MissingParam => {
                "one of the `Option` parameters was required but was not provided".to_owned()
            },
            ClientErrorKind::InvalidSocketAddress => {
                "the socket address or endpoint descriptor is not valid".to_owned()
            },
        }
    }
}

impl Error {
    /// A human readable description: the service's status, or the client
    /// error's description.
    pub fn to_string(&self) -> (r: String)
        ensures
            self is Service ==> r@ == status_text_of(self->Service_0),
            self is Client && kind_text(self->Client_0) is Some ==> r@ == kind_text(
                self->Client_0,
            )->Some_0,
    {
        match self {
            Error::Service(status) => status_text(status),
            Error::Client(kind) => kind.to_string(),
        }
    }
}

} // verus!
