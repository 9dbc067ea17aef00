//! Transport layer and one-shot request dispatcher for a client of a local
//! security service reached over a Unix domain socket or a TCP socket.
//!
//! The crate holds the verified decisions: address validation, the reading of
//! endpoint descriptors, the handler configuration and the per-request exchange
//! state machine. Opening sockets and running the wire codec stay with the caller,
//! which feeds each outcome back into the exchange.
pub mod error;
pub mod tcp_socket;
pub mod unix_socket;
pub mod ipc_handler;
pub mod exchange;
pub mod request_client;
