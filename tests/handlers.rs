use parsec_client_core::error::{ClientErrorKind, Error};
use parsec_client_core::ipc_handler::{
    connector_from_ipaddress, connector_from_parts, connector_from_url, default_timeout, IpcHandler,
    UrlParts,
};
use parsec_client_core::tcp_socket::{TcpHandler, DEFAULT_SOCKET_IP_ADDR, DEFAULT_SOCKET_PORT};
use parsec_client_core::unix_socket::{UnixHandler, DEFAULT_SOCKET_PATH};
use std::time::Duration;

fn is_invalid_address<T>(r: &Result<T, Error>) -> bool {
    matches!(r, Err(Error::Client(ClientErrorKind::InvalidSocketAddress)))
}

#[test]
fn tcp_port_80_is_rejected() {
    let r = TcpHandler::new("127.0.0.1".to_string(), 80, None);
    assert!(is_invalid_address(&r));
}

#[test]
fn tcp_port_range_bounds() {
    for port in [0u16, 1, 80, 1023, 1024, 65535] {
        let r = TcpHandler::new("127.0.0.1".to_string(), port, None);
        assert!(is_invalid_address(&r), "port {} accepted", port);
    }
    for port in [1025u16, 8000, 9000, 65534] {
        let h = TcpHandler::new("127.0.0.1".to_string(), port, None).unwrap();
        assert_eq!(h.port(), port);
    }
}

#[test]
fn tcp_port_9000_keeps_its_fields() {
    let t = Some(Duration::from_millis(250));
    let h = TcpHandler::new("10.0.0.2".to_string(), 9000, t).unwrap();
    assert_eq!(h.ip_addr(), "10.0.0.2");
    assert_eq!(h.port(), 9000);
    assert_eq!(h.timeout(), t);
}

#[test]
fn tcp_default_handler() {
    let h = TcpHandler::default();
    assert_eq!(h.ip_addr(), DEFAULT_SOCKET_IP_ADDR);
    assert_eq!(h.ip_addr(), "127.0.0.1");
    assert_eq!(h.port(), DEFAULT_SOCKET_PORT);
    assert_eq!(h.port(), 8000);
    assert_eq!(h.timeout(), Some(Duration::from_secs(1)));
}

#[test]
fn default_timeout_is_one_second() {
    assert_eq!(default_timeout(), Duration::from_secs(1));
    assert_ne!(default_timeout(), Duration::from_secs(0));
}

#[test]
fn tcp_set_timeout() {
    let mut h = TcpHandler::default();
    h.set_timeout(None);
    assert_eq!(h.timeout(), None);
    assert_eq!(h.port(), 8000);
}

#[test]
fn unix_handler_fields() {
    let mut h = UnixHandler::new("/tmp/s.sock".to_string(), None);
    assert_eq!(h.path(), "/tmp/s.sock");
    assert_eq!(h.timeout(), None);
    h.set_timeout(Some(Duration::from_secs(3)));
    assert_eq!(h.timeout(), Some(Duration::from_secs(3)));
    let d = UnixHandler::default();
    assert_eq!(d.path(), DEFAULT_SOCKET_PATH);
    assert_eq!(d.timeout(), Some(Duration::from_secs(1)));
}

#[test]
fn descriptor_tcp_parses() {
    match connector_from_url("tcp://127.0.0.1:9000") {
        Ok(IpcHandler::Tcp(h)) => {
            assert_eq!(h.ip_addr(), "127.0.0.1");
            assert_eq!(h.port(), 9000);
            assert_eq!(h.timeout(), Some(Duration::from_secs(1)));
        }
        other => panic!("unexpected {:?}", other),
    }
}

#[test]
fn descriptor_unix_parses() {
    match connector_from_url("unix:/tmp/x.sock") {
        Ok(IpcHandler::Unix(h)) => {
            assert_eq!(h.path(), "/tmp/x.sock");
            assert_eq!(h.timeout(), Some(Duration::from_secs(1)));
        }
        other => panic!("unexpected {:?}", other),
    }
}

#[test]
fn descriptor_other_scheme_fails() {
    assert!(is_invalid_address(&connector_from_url("http://127.0.0.1:9000")));
    assert!(is_invalid_address(&connector_from_url("file:/tmp/x.sock")));
}

#[test]
fn descriptor_malformed_fails() {
    assert!(is_invalid_address(&connector_from_url("not a descriptor")));
    assert!(is_invalid_address(&connector_from_url("")));
}

#[test]
fn descriptor_tcp_needs_port_and_valid_range() {
    assert!(is_invalid_address(&connector_from_url("tcp://127.0.0.1")));
    assert!(is_invalid_address(&connector_from_url("tcp://127.0.0.1:80")));
}

#[test]
fn parts_select_handler() {
    let tcp = UrlParts {
        scheme: "tcp".to_string(),
        host: Some("localhost".to_string()),
        port: Some(4000),
        path: String::new(),
    };
    match connector_from_parts(tcp) {
        Ok(IpcHandler::Tcp(h)) => {
            assert_eq!(h.ip_addr(), "localhost");
            assert_eq!(h.port(), 4000);
        }
        other => panic!("unexpected {:?}", other),
    }
    let unix = UrlParts {
        scheme: "unix".to_string(),
        host: None,
        port: None,
        path: "/run/a.sock".to_string(),
    };
    match connector_from_parts(unix) {
        Ok(IpcHandler::Unix(h)) => assert_eq!(h.path(), "/run/a.sock"),
        other => panic!("unexpected {:?}", other),
    }
    let no_host = UrlParts { scheme: "tcp".to_string(), host: None, port: Some(4000), path: String::new() };
    assert!(is_invalid_address(&connector_from_parts(no_host)));
    let other = UrlParts { scheme: "udp".to_string(), host: Some("h".to_string()), port: Some(4000), path: String::new() };
    assert!(is_invalid_address(&connector_from_parts(other)));
}

#[test]
fn ipaddress_connector() {
    match connector_from_ipaddress("192.168.1.1".to_string(), 2000) {
        Ok(IpcHandler::Tcp(h)) => {
            assert_eq!(h.ip_addr(), "192.168.1.1");
            assert_eq!(h.port(), 2000);
            assert_eq!(h.timeout(), Some(Duration::from_secs(1)));
        }
        other => panic!("unexpected {:?}", other),
    }
    assert!(is_invalid_address(&connector_from_ipaddress("192.168.1.1".to_string(), 443)));
}

#[test]
fn handler_set_timeout_keeps_target() {
    let mut h = connector_from_url("tcp://127.0.0.1:9000").unwrap();
    h.set_timeout(Some(Duration::from_secs(5)));
    assert_eq!(h.timeout(), Some(Duration::from_secs(5)));
    match h {
        IpcHandler::Tcp(t) => assert_eq!(t.port(), 9000),
        other => panic!("unexpected {:?}", other),
    }
}
