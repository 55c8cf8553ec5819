use tls_endpoint::address::{endpoint_address, port_text};
use tls_endpoint::client::{Client, ClientState};
use tls_endpoint::error::{EndpointError, Stage};
use tls_endpoint::stream::Poll;

fn certificate(name: &str) -> String {
    rcgen::generate_simple_self_signed(vec![name.to_string()]).unwrap().cert.pem()
}

fn connected() -> Client {
    let mut client = Client::new("localhost".to_string(), 4443);
    client.connect(Ok(())).unwrap();
    client
}

#[test]
fn ports_in_decimal() {
    assert_eq!(port_text(0), "0");
    assert_eq!(port_text(1), "1");
    assert_eq!(port_text(9), "9");
    assert_eq!(port_text(10), "10");
    assert_eq!(port_text(443), "443");
    assert_eq!(port_text(4443), "4443");
    assert_eq!(port_text(60000), "60000");
    assert_eq!(port_text(65535), "65535");
}

#[test]
fn address_is_host_colon_port() {
    assert_eq!(endpoint_address("127.0.0.1", 443), "127.0.0.1:443");
    assert_eq!(endpoint_address("localhost", 1), "localhost:1");
    assert_eq!(Client::new("example.com".to_string(), 65535).address(), "example.com:65535");
}

#[test]
fn a_new_client_has_nothing() {
    let mut client = Client::new("localhost".to_string(), 4443);
    assert_eq!(client.state(), ClientState::New);
    assert!(client.get_last_response().is_none());
    let mut buffer = [0u8; 8];
    assert!(matches!(client.send(b"x"), Err(EndpointError::NotConnected)));
    assert!(matches!(client.resume_send(), Err(EndpointError::NotConnected)));
    assert!(matches!(client.receive(&mut buffer), Err(EndpointError::NotConnected)));
    assert!(matches!(client.supply(b"x"), Err(EndpointError::NotConnected)));
    assert_eq!(buffer, [0u8; 8]);
    assert_eq!(client.state(), ClientState::New);
}

#[test]
fn tls_before_the_transport_is_refused() {
    let mut client = Client::new("localhost".to_string(), 4443);
    let trust = certificate("localhost");
    let ready = client.setup_tls(trust.as_bytes(), "localhost");
    assert!(matches!(ready, Err(EndpointError::NotConnected)));
    assert_eq!(client.state(), ClientState::New);
}

#[test]
fn a_failed_connect_leaves_the_client_new() {
    let mut client = Client::new("localhost".to_string(), 4443);
    match client.connect(Err("Connection refused".to_string())) {
        Err(EndpointError::IoFailed(reason)) => assert_eq!(reason, "Connection refused"),
        other => panic!("expected an I/O failure, got {:?}", other),
    }
    assert_eq!(client.state(), ClientState::New);
    client.connect(Ok(())).unwrap();
    assert_eq!(client.state(), ClientState::Connected);
}

#[test]
fn a_second_connect_is_refused() {
    let mut client = connected();
    match client.connect(Ok(())) {
        Err(EndpointError::IoFailed(reason)) => assert_eq!(reason, "Already connected"),
        other => panic!("expected an I/O failure, got {:?}", other),
    }
    assert_eq!(client.state(), ClientState::Connected);
}

#[test]
fn tls_setup_makes_the_client_ready() {
    let mut client = connected();
    let trust = certificate("localhost");
    client.setup_tls(trust.as_bytes(), "localhost").unwrap();
    assert_eq!(client.state(), ClientState::TlsReady);

    match client.setup_tls(trust.as_bytes(), "localhost") {
        Err(EndpointError::ConfigInvalid(reason)) => assert_eq!(reason, "TLS is already set up"),
        other => panic!("expected a configuration error, got {:?}", other),
    }
    assert_eq!(client.state(), ClientState::TlsReady);
    assert!(matches!(client.connect(Ok(())), Err(EndpointError::IoFailed(_))));
}

#[test]
fn an_ip_literal_is_a_server_name() {
    let mut client = connected();
    let trust = certificate("localhost");
    client.setup_tls(trust.as_bytes(), "127.0.0.1").unwrap();
    assert_eq!(client.state(), ClientState::TlsReady);
}

#[test]
fn a_bad_server_name_is_a_configuration_error() {
    let trust = certificate("localhost");
    for name in ["", "not a name", "under_score!", "a..b"] {
        let mut client = connected();
        let ready = client.setup_tls(trust.as_bytes(), name);
        assert!(matches!(ready, Err(EndpointError::ConfigInvalid(_))), "name {:?}", name);
        assert_eq!(client.state(), ClientState::Connected);
    }
}

#[test]
fn an_unusable_trust_text_is_a_configuration_error() {
    let mut client = connected();
    match client.setup_tls(b"", "localhost") {
        Err(EndpointError::ConfigInvalid(reason)) => assert_eq!(reason, "No certificates found"),
        other => panic!("expected a configuration error, got {:?}", other),
    }
    let broken = b"-----BEGIN CERTIFICATE-----\nAAECAwQFBgc=\n";
    assert!(matches!(
        client.setup_tls(broken, "localhost"),
        Err(EndpointError::ConfigInvalid(_))
    ));
    let no_certificate = b"-----BEGIN CERTIFICATE-----\nAAECAwQFBgc=\n-----END CERTIFICATE-----\n";
    assert!(matches!(
        client.setup_tls(no_certificate, "localhost"),
        Err(EndpointError::ConfigInvalid(_))
    ));
    assert_eq!(client.state(), ClientState::Connected);
}

#[test]
fn without_tls_bytes_go_out_as_they_are() {
    let mut client = connected();
    match client.send(b"Hello, Server!").unwrap() {
        Poll::Transmit(bytes) => assert_eq!(bytes, b"Hello, Server!"),
        other => panic!("expected bytes for the transport, got {:?}", other),
    }
    assert!(matches!(client.resume_send().unwrap(), Poll::Ready(0)));
    assert!(matches!(client.send(b"").unwrap(), Poll::Ready(0)));
}

#[test]
fn without_tls_receptions_are_handed_out_in_order() {
    let mut client = connected();
    let mut buffer = [0u8; 3];
    assert!(matches!(client.receive(&mut buffer).unwrap(), Poll::Receive));
    assert!(client.get_last_response().is_none());

    client.supply(b"Hel").unwrap();
    client.supply(b"lo").unwrap();
    assert!(matches!(client.receive(&mut buffer).unwrap(), Poll::Ready(3)));
    assert_eq!(&buffer, b"Hel");
    assert_eq!(client.get_last_response().unwrap(), "Hel");

    assert!(matches!(client.receive(&mut buffer).unwrap(), Poll::Ready(2)));
    assert_eq!(&buffer, b"lol");
    assert_eq!(client.get_last_response().unwrap(), "lo");

    assert!(matches!(client.receive(&mut buffer).unwrap(), Poll::Receive));
    assert_eq!(client.get_last_response().unwrap(), "lo");
}

#[test]
fn an_empty_reception_keeps_the_last_response() {
    let mut client = connected();
    let mut buffer = [0u8; 16];
    client.supply(b"Hello, Client!").unwrap();
    assert!(matches!(client.receive(&mut buffer).unwrap(), Poll::Ready(14)));
    client.supply(b"").unwrap();
    assert!(matches!(client.receive(&mut buffer).unwrap(), Poll::Ready(0)));
    assert!(matches!(client.receive(&mut buffer).unwrap(), Poll::Ready(0)));
    assert_eq!(client.get_last_response().unwrap(), "Hello, Client!");
}

#[test]
fn an_empty_buffer_receives_nothing() {
    let mut client = connected();
    client.supply(b"abc").unwrap();
    let mut none = [0u8; 0];
    assert!(matches!(client.receive(&mut none).unwrap(), Poll::Ready(0)));
    assert!(client.get_last_response().is_none());
    let mut buffer = [0u8; 8];
    assert!(matches!(client.receive(&mut buffer).unwrap(), Poll::Ready(3)));
    assert_eq!(&buffer[..3], b"abc");
}

#[test]
fn bad_sequences_are_replaced_in_the_last_response() {
    let mut client = connected();
    let mut buffer = [0u8; 16];
    client.supply(&[b'o', b'k', 0xff, b'!', 0xc3]).unwrap();
    assert!(matches!(client.receive(&mut buffer).unwrap(), Poll::Ready(5)));
    assert_eq!(client.get_last_response().unwrap(), "ok\u{fffd}!\u{fffd}");

    client.supply("gr\u{fc}n".as_bytes()).unwrap();
    assert!(matches!(client.receive(&mut buffer).unwrap(), Poll::Ready(5)));
    assert_eq!(client.get_last_response().unwrap(), "gr\u{fc}n");
}

#[test]
fn close_is_idempotent() {
    let mut client = connected();
    client.supply(b"kept").unwrap();
    let mut buffer = [0u8; 8];
    client.receive(&mut buffer).unwrap();

    assert_eq!(client.close().unwrap(), Vec::<u8>::new());
    assert_eq!(client.state(), ClientState::Closed);
    assert_eq!(client.close().unwrap(), Vec::<u8>::new());
    assert_eq!(client.state(), ClientState::Closed);
    assert_eq!(client.get_last_response().unwrap(), "kept");
    assert_eq!(client.address(), "localhost:4443");
}

#[test]
fn close_works_in_every_state() {
    let mut fresh = Client::new("localhost".to_string(), 4443);
    assert!(fresh.close().unwrap().is_empty());
    assert_eq!(fresh.state(), ClientState::Closed);

    let mut ready = connected();
    let trust = certificate("localhost");
    ready.setup_tls(trust.as_bytes(), "localhost").unwrap();
    let farewell = ready.close().unwrap();
    assert!(!farewell.is_empty());
    assert_eq!(ready.state(), ClientState::Closed);
    assert!(ready.close().unwrap().is_empty());
    assert_eq!(ready.state(), ClientState::Closed);
}

#[test]
fn a_closed_client_does_nothing_more() {
    let mut client = connected();
    client.close().unwrap();
    let mut buffer = [0u8; 8];
    let trust = certificate("localhost");
    assert!(matches!(client.connect(Ok(())), Err(EndpointError::NotConnected)));
    assert!(matches!(
        client.setup_tls(trust.as_bytes(), "localhost"),
        Err(EndpointError::NotConnected)
    ));
    assert!(matches!(client.send(b"x"), Err(EndpointError::NotConnected)));
    assert!(matches!(client.resume_send(), Err(EndpointError::NotConnected)));
    assert!(matches!(client.receive(&mut buffer), Err(EndpointError::NotConnected)));
    assert!(matches!(client.supply(b"x"), Err(EndpointError::NotConnected)));
    assert_eq!(client.state(), ClientState::Closed);
}

#[test]
fn a_tls_client_begins_by_sending_its_hello() {
    let mut client = connected();
    let trust = certificate("localhost");
    client.setup_tls(trust.as_bytes(), "localhost").unwrap();

    let hello = match client.send(b"Hello, Server!").unwrap() {
        Poll::Transmit(bytes) => bytes,
        other => panic!("expected the first flight, got {:?}", other),
    };
    // A TLS handshake record, and not the plaintext.
    assert_eq!(hello[0], 22);
    assert!(!hello.windows(14).any(|w| w == b"Hello, Server!"));
    // With the hello out, the handshake needs the server's answer.
    assert!(matches!(client.resume_send().unwrap(), Poll::Receive));
    assert!(matches!(client.resume_send().unwrap(), Poll::Receive));
    // Input that is supplied is used before more is asked for.
    client.supply(&[22]).unwrap();
    assert!(matches!(client.resume_send().unwrap(), Poll::Again));
    assert!(matches!(client.resume_send().unwrap(), Poll::Receive));
}

#[test]
fn a_transport_that_ends_in_the_handshake_is_an_io_failure() {
    let mut client = connected();
    let trust = certificate("localhost");
    client.setup_tls(trust.as_bytes(), "localhost").unwrap();
    assert!(matches!(client.send(b"Hello, Server!").unwrap(), Poll::Transmit(_)));
    client.supply(b"").unwrap();
    match client.resume_send() {
        Err(EndpointError::IoFailed(reason)) => {
            assert_eq!(reason, "Peer closed connection without sending TLS close_notify")
        },
        other => panic!("expected an I/O failure, got {:?}", other),
    }
    let mut buffer = [0u8; 8];
    assert!(matches!(client.receive(&mut buffer), Err(EndpointError::IoFailed(_))));
}

#[test]
fn garbage_from_the_transport_fails_the_handshake() {
    let mut client = connected();
    let trust = certificate("localhost");
    client.setup_tls(trust.as_bytes(), "localhost").unwrap();
    assert!(matches!(client.send(b"Hello, Server!").unwrap(), Poll::Transmit(_)));

    // Supplying decodes nothing: the step that uses the bytes fails.
    client.supply(b"HTTP/1.1 400 Bad Request\r\n\r\n").unwrap();
    match client.resume_send() {
        Err(EndpointError::TlsFailed(_, stage)) => assert_eq!(stage, Stage::Handshake),
        other => panic!("expected a TLS failure, got {:?}", other),
    }
    assert!(matches!(client.resume_send(), Err(EndpointError::TlsFailed(_, Stage::Handshake))));
    let mut buffer = [0u8; 8];
    assert!(matches!(
        client.receive(&mut buffer),
        Err(EndpointError::TlsFailed(_, Stage::Handshake))
    ));
    assert!(matches!(client.supply(b"more"), Err(EndpointError::TlsFailed(_, Stage::Handshake))));
    assert_eq!(client.state(), ClientState::TlsReady);
    client.close().unwrap();
    assert_eq!(client.state(), ClientState::Closed);
}

#[test]
fn error_texts() {
    assert_eq!(EndpointError::NoPrivateKey.message(), "No private keys found");
    assert_eq!(EndpointError::NotConnected.message(), "No connection established");
    assert_eq!(EndpointError::ClosedDuringWrite.message(), "Connection closed during write");
    assert_eq!(EndpointError::IoFailed("refused".to_string()).message(), "refused");
    assert_eq!(EndpointError::ConfigInvalid("bad key".to_string()).message(), "bad key");
    let failed = EndpointError::TlsFailed("bad record".to_string(), Stage::Data);
    assert_eq!(failed.message(), "bad record");
    assert_eq!(failed.stage(), Some(Stage::Data));
    assert_eq!(EndpointError::NotConnected.stage(), None);
    assert!(matches!(failed.duplicate(), EndpointError::TlsFailed(reason, Stage::Data) if reason == "bad record"));
}
