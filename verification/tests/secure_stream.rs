use std::sync::Arc;

use tls_endpoint::credentials::load_root_store_from_cert;
use tls_endpoint::error::{EndpointError, Stage};
use tls_endpoint::server::load_certificates;
use tls_endpoint::backend::IoReport;
use tls_endpoint::session::{
    after_hand_over,
    after_processing,
    after_taking,
    Phase,
    Role,
    Session,
};
use tls_endpoint::stream::Status;
use tls_endpoint::stream::Poll;

/// Two sessions and the transport between them.
struct Pair {
    client: Session,
    server: Session,
    to_server: Vec<u8>,
    to_client: Vec<u8>,
    /// What the server has read so far.
    at_server: Vec<u8>,
    /// What the client has read so far.
    at_client: Vec<u8>,
}

/// A client session and a server session that trust each other, not yet in
/// touch.
fn pair() -> Pair {
    let made = rcgen::generate_simple_self_signed(vec!["localhost".to_string()]).unwrap();
    let cert = made.cert.pem();
    let key = made.key_pair.serialize_pem();
    let config = Arc::new(load_certificates(cert.as_bytes(), key.as_bytes()).unwrap());
    let roots = load_root_store_from_cert(cert.as_bytes()).unwrap();
    Pair {
        client: Session::client(roots, "localhost").unwrap(),
        server: Session::server(&config).unwrap(),
        to_server: Vec::new(),
        to_client: Vec::new(),
        at_server: Vec::new(),
        at_client: Vec::new(),
    }
}

/// Lets `reader` read for as long as it can without input that is not there,
/// and collects what it reads in `arrived`.
fn read_on(
    reader: &mut Session,
    inbound: &mut Vec<u8>,
    outbound: &mut Vec<u8>,
    arrived: &mut Vec<u8>,
) -> Result<(), EndpointError> {
    let mut buffer = [0u8; 700];
    loop {
        match reader.read(&mut buffer)? {
            Poll::Transmit(bytes) => outbound.extend_from_slice(&bytes),
            Poll::Receive => {
                if inbound.is_empty() {
                    return Ok(());
                }
                let input = std::mem::take(inbound);
                reader.supply(&input)?;
            },
            Poll::Again => {},
            Poll::Ready(0) => return Ok(()),
            Poll::Ready(n) => arrived.extend_from_slice(&buffer[..n]),
        }
    }
}

impl Pair {
    fn server_reads(&mut self) -> Result<(), EndpointError> {
        read_on(&mut self.server, &mut self.to_server, &mut self.to_client, &mut self.at_server)
    }

    fn client_reads(&mut self) -> Result<(), EndpointError> {
        read_on(&mut self.client, &mut self.to_client, &mut self.to_server, &mut self.at_client)
    }

    /// Writes `data` from the client to the server, which reads as it comes.
    /// Returns the sizes of the pieces that the client put on the wire.
    fn client_writes(&mut self, data: &[u8]) -> Result<Vec<usize>, EndpointError> {
        let mut pieces = Vec::new();
        self.client.queue(data);
        loop {
            match self.client.write()? {
                Poll::Transmit(bytes) => {
                    pieces.push(bytes.len());
                    self.to_server.extend_from_slice(&bytes);
                    self.server_reads()?;
                },
                Poll::Receive => {
                    self.server_reads()?;
                    assert!(!self.to_client.is_empty(), "neither side can move");
                    let input = std::mem::take(&mut self.to_client);
                    self.client.supply(&input)?;
                },
                Poll::Again => {},
                Poll::Ready(_) => return Ok(pieces),
            }
        }
    }

    /// Writes `data` from the server to the client, after the handshake.
    fn server_writes(&mut self, data: &[u8]) -> Result<(), EndpointError> {
        self.server.queue(data);
        loop {
            match self.server.write()? {
                Poll::Transmit(bytes) => {
                    self.to_client.extend_from_slice(&bytes);
                    self.client_reads()?;
                },
                Poll::Receive => panic!("the handshake is complete"),
                Poll::Again => {},
                Poll::Ready(_) => return Ok(()),
            }
        }
    }
}

#[test]
fn fresh_sessions() {
    let pair = pair();
    assert_eq!(pair.client.role(), Role::Client);
    assert_eq!(pair.server.role(), Role::Server);
    assert_eq!(pair.client.phase(), Phase::PreHandshake);
    assert_eq!(pair.server.phase(), Phase::PreHandshake);
    assert_eq!(pair.client.queued_len(), 0);
    assert_eq!(pair.client.unread_len(), 0);
    // A client has its hello to send; a server waits for it.
    assert!(pair.client.status().wants_write);
    assert!(pair.client.status().handshaking);
    assert!(!pair.server.status().wants_write);
    assert!(pair.server.status().wants_read);
    assert_eq!(pair.server.status().plaintext, 0);
    assert!(!pair.client.is_written());
    assert!(pair.server.is_written());
}

#[test]
fn a_short_write_arrives() {
    let mut pair = pair();
    pair.client_writes(b"Hello, Server!").unwrap();
    assert_eq!(pair.at_server, b"Hello, Server!");
    assert_eq!(pair.client.phase(), Phase::Established);
    assert_eq!(pair.server.phase(), Phase::Established);
    assert_eq!(pair.client.queued_len(), 0);
    assert!(pair.client.is_written());

    pair.server_writes(b"Hello, Client!").unwrap();
    assert_eq!(pair.at_client, b"Hello, Client!");
    assert_eq!(pair.at_server, b"Hello, Server!");
}

#[test]
fn writes_arrive_in_order() {
    let mut pair = pair();
    pair.client_writes(b"one, ").unwrap();
    pair.client.queue(b"two, ");
    pair.client_writes(b"three").unwrap();
    assert_eq!(pair.at_server, b"one, two, three");
    pair.server_writes(b"uno, ").unwrap();
    pair.server_writes(b"dos").unwrap();
    assert_eq!(pair.at_client, b"uno, dos");
}

#[test]
fn an_oversize_write_respects_the_buffer_bound() {
    let mut pair = pair();
    pair.client.set_buffer_limit(Some(1024));
    // The handshake first, so that every later piece is application data.
    pair.client_writes(b"!").unwrap();
    assert_eq!(pair.at_server, b"!");
    pair.at_server.clear();

    let data: Vec<u8> = (0..16 * 1024usize).map(|i| (i * 7 % 251) as u8).collect();
    let pieces = pair.client_writes(&data).unwrap();

    assert_eq!(pair.at_server, data);
    assert!(pieces.len() >= 16, "only {} pieces", pieces.len());
    // No piece holds more than the bound allows, beside a record's overhead.
    assert!(pieces.iter().all(|&n| n <= 1024 + 64), "pieces {:?}", pieces);
    assert_eq!(pair.client.queued_len(), 0);
}

#[test]
fn an_unbounded_write_arrives_too() {
    let mut pair = pair();
    pair.client.set_buffer_limit(None);
    let data: Vec<u8> = (0..200 * 1024usize).map(|i| (i % 256) as u8).collect();
    let pieces = pair.client_writes(&data).unwrap();
    assert_eq!(pair.at_server, data);
    assert!(pieces.iter().any(|&n| n > 16 * 1024));
}

#[test]
fn input_of_any_size_may_be_supplied_at_once() {
    let mut pair = pair();
    pair.client.set_buffer_limit(None);
    pair.client_writes(b"!").unwrap();
    pair.at_server.clear();

    // The whole of a long write is put on the wire before the server reads.
    let data: Vec<u8> = (0..100 * 1024usize).map(|i| (i * 31 % 256) as u8).collect();
    pair.client.queue(&data);
    let mut on_the_wire = Vec::new();
    loop {
        match pair.client.write().unwrap() {
            Poll::Transmit(bytes) => on_the_wire.extend_from_slice(&bytes),
            Poll::Again => {},
            Poll::Ready(_) => break,
            Poll::Receive => panic!("the handshake is complete"),
        }
    }
    assert!(on_the_wire.len() > data.len());
    pair.server.supply(&on_the_wire).unwrap();
    assert_eq!(pair.server.unread_len(), on_the_wire.len());

    pair.server_reads().unwrap();

    assert_eq!(pair.at_server, data);
    assert_eq!(pair.server.unread_len(), 0);
}

#[test]
fn a_write_is_queued_whole() {
    let mut pair = pair();
    pair.client.queue(b"Hello, Server!");
    assert_eq!(pair.client.queued_len(), 14);
    assert!(matches!(pair.client.write().unwrap(), Poll::Transmit(_)));
    assert_eq!(pair.client.queued_len(), 14);
    assert!(matches!(pair.client.write().unwrap(), Poll::Receive));
    assert_eq!(pair.client.queued_len(), 14);
    assert_eq!(pair.client.phase(), Phase::Handshaking);
    pair.client.queue(b" And more.");
    assert_eq!(pair.client.queued_len(), 24);
}

#[test]
fn an_empty_write_is_complete_once_the_hello_is_out() {
    let mut pair = pair();
    pair.client.queue(b"");
    assert!(matches!(pair.client.write().unwrap(), Poll::Transmit(_)));
    assert!(matches!(pair.client.write().unwrap(), Poll::Ready(0)));
    assert!(pair.client.is_written());
}

#[test]
fn flush_moves_what_is_pending_and_never_waits() {
    let mut pair = pair();
    // A server has nothing to say before the client's hello.
    assert!(matches!(pair.server.flush().unwrap(), Poll::Ready(0)));
    let hello = match pair.client.flush().unwrap() {
        Poll::Transmit(bytes) => bytes,
        other => panic!("expected the hello, got {:?}", other),
    };
    assert!(matches!(pair.client.flush().unwrap(), Poll::Ready(0)));

    // A flush uses no input either.
    pair.server.supply(&hello).unwrap();
    assert!(matches!(pair.server.flush().unwrap(), Poll::Ready(0)));
    assert_eq!(pair.server.unread_len(), hello.len());

    pair.server_reads().unwrap();
    assert_eq!(pair.server.unread_len(), 0);
    assert!(!pair.to_client.is_empty());
    assert!(matches!(pair.server.flush().unwrap(), Poll::Ready(0)));
}

#[test]
fn a_write_to_a_peer_that_closed_is_closed_during_write() {
    let mut pair = pair();
    pair.client_writes(b"Hello, Server!").unwrap();
    assert_eq!(pair.at_server, b"Hello, Server!");
    pair.client_reads().unwrap();

    let farewell = pair.server.close();
    assert_eq!(pair.server.phase(), Phase::Closed);
    pair.client.supply(&farewell).unwrap();
    pair.client_reads().unwrap();
    assert_eq!(pair.client.phase(), Phase::Closing);
    assert!(pair.at_client.is_empty());

    pair.client.queue(b"too late");
    assert!(matches!(pair.client.write(), Err(EndpointError::ClosedDuringWrite)));
    // A read ends in good order, every time.
    let mut buffer = [0u8; 16];
    assert!(matches!(pair.client.read(&mut buffer).unwrap(), Poll::Ready(0)));
    assert!(matches!(pair.client.read(&mut buffer).unwrap(), Poll::Ready(0)));
}

#[test]
fn a_cut_transport_truncates_the_read() {
    let mut pair = pair();
    pair.client_writes(b"Hello, Server!").unwrap();
    assert_eq!(pair.at_server, b"Hello, Server!");

    pair.server.supply(b"").unwrap();
    assert!(pair.server.status().end_of_input);
    let mut buffer = [0u8; 16];
    match pair.server.read(&mut buffer) {
        Err(EndpointError::IoFailed(reason)) => {
            assert_eq!(reason, "Peer closed connection without sending TLS close_notify")
        },
        other => panic!("expected an I/O failure, got {:?}", other),
    }
    assert_eq!(pair.server.phase(), Phase::Established);
}

#[test]
fn what_came_before_the_cut_is_still_read() {
    let mut pair = pair();
    pair.client_writes(b"!").unwrap();
    pair.at_server.clear();
    pair.client.queue(b"last words");
    let record = loop {
        match pair.client.write().unwrap() {
            Poll::Transmit(bytes) => break bytes,
            Poll::Again => {},
            other => panic!("expected a record, got {:?}", other),
        }
    };
    pair.server.supply(&record).unwrap();
    pair.server.supply(b"").unwrap();

    let mut buffer = [0u8; 64];
    let mut read = Vec::new();
    let ended = loop {
        match pair.server.read(&mut buffer) {
            Ok(Poll::Ready(n)) => read.extend_from_slice(&buffer[..n]),
            Ok(_) => {},
            Err(error) => break error,
        }
    };
    assert_eq!(read, b"last words");
    assert!(matches!(ended, EndpointError::IoFailed(_)));
}

#[test]
fn a_corrupt_record_fails_the_session_in_the_data_stage() {
    let mut pair = pair();
    pair.client_writes(b"Hello, Server!").unwrap();
    assert_eq!(pair.at_server, b"Hello, Server!");

    pair.client.queue(b"more");
    let mut record = loop {
        match pair.client.write().unwrap() {
            Poll::Transmit(bytes) => break bytes,
            Poll::Again => {},
            other => panic!("expected a record, got {:?}", other),
        }
    };
    let last = record.len() - 1;
    record[last] ^= 0x55;

    pair.server.supply(&record).unwrap();
    let mut buffer = [0u8; 16];
    match pair.server.read(&mut buffer) {
        Err(EndpointError::TlsFailed(_, stage)) => assert_eq!(stage, Stage::Data),
        other => panic!("expected a TLS failure, got {:?}", other),
    }
    assert_eq!(pair.server.phase(), Phase::Failed);
    assert!(matches!(pair.server.read(&mut buffer), Err(EndpointError::TlsFailed(_, Stage::Data))));
    pair.server.queue(b"x");
    assert_eq!(pair.server.queued_len(), 0);
    assert!(matches!(pair.server.write(), Err(EndpointError::TlsFailed(_, Stage::Data))));
    assert!(matches!(pair.server.flush(), Err(EndpointError::TlsFailed(_, Stage::Data))));
    assert!(matches!(pair.server.supply(b"x"), Err(EndpointError::TlsFailed(_, Stage::Data))));
    assert!(!pair.server.is_written());
    // Closing a failed session yields its alert, and leaves it failed.
    let alert = pair.server.close();
    assert!(!alert.is_empty());
    assert_eq!(pair.server.phase(), Phase::Failed);
}

#[test]
fn a_closed_session_is_not_connected() {
    let mut pair = pair();
    let farewell = pair.client.close();
    assert!(!farewell.is_empty());
    assert_eq!(pair.client.phase(), Phase::Closed);
    assert!(pair.client.close().is_empty());
    assert_eq!(pair.client.phase(), Phase::Closed);

    let mut buffer = [0u8; 16];
    assert!(matches!(pair.client.read(&mut buffer), Err(EndpointError::NotConnected)));
    pair.client.queue(b"x");
    assert_eq!(pair.client.queued_len(), 0);
    assert!(matches!(pair.client.write(), Err(EndpointError::NotConnected)));
    assert!(matches!(pair.client.flush(), Err(EndpointError::NotConnected)));
    assert!(matches!(pair.client.supply(b"x"), Err(EndpointError::NotConnected)));
    assert_eq!(pair.client.unread_len(), 0);
}

#[test]
fn close_drops_what_is_queued_and_unread() {
    let mut pair = pair();
    pair.client.queue(b"never sent");
    pair.client.supply(b"never read").unwrap();
    assert_eq!(pair.client.queued_len(), 10);
    assert_eq!(pair.client.unread_len(), 10);
    pair.client.close();
    assert_eq!(pair.client.queued_len(), 0);
    assert_eq!(pair.client.unread_len(), 0);
}

#[test]
fn a_read_into_a_small_buffer_comes_in_parts() {
    let mut pair = pair();
    pair.client_writes(b"!").unwrap();
    pair.client.queue(b"Hello, Server!");
    loop {
        match pair.client.write().unwrap() {
            Poll::Transmit(bytes) => pair.to_server.extend_from_slice(&bytes),
            Poll::Again => {},
            Poll::Ready(_) => break,
            Poll::Receive => panic!("the handshake is complete"),
        }
    }
    let input = std::mem::take(&mut pair.to_server);
    pair.server.supply(&input).unwrap();
    let mut small = [0u8; 5];
    let mut parts: Vec<Vec<u8>> = Vec::new();
    loop {
        match pair.server.read(&mut small).unwrap() {
            Poll::Ready(n) => parts.push(small[..n].to_vec()),
            Poll::Receive => break,
            _ => {},
        }
    }
    assert_eq!(parts, vec![b"Hello".to_vec(), b", Ser".to_vec(), b"ver!".to_vec()]);
}

#[test]
fn a_connection_that_was_not_made_is_a_configuration_error() {
    let refused = Err(rustls::Error::General("no provider".to_string()));
    match Session::from_connection(refused, Role::Client, Some("localhost".to_string())) {
        Err(EndpointError::ConfigInvalid(reason)) => assert!(reason.contains("no provider")),
        other => panic!("expected a configuration error, got {:?}", other.map(|s| s.role())),
    }
}

#[test]
fn a_configuration_that_was_not_built_is_a_configuration_error() {
    let refused = Err(rustls::Error::General("no key".to_string()));
    match tls_endpoint::server::config_from(refused) {
        Err(EndpointError::ConfigInvalid(reason)) => assert!(reason.contains("no key")),
        other => panic!("expected a configuration error, got {:?}", other.is_ok()),
    }
}

#[test]
fn a_session_on_a_bad_name_is_not_made() {
    let made = rcgen::generate_simple_self_signed(vec!["localhost".to_string()]).unwrap();
    let roots = load_root_store_from_cert(made.cert.pem().as_bytes()).unwrap();
    match Session::client(roots, "no name at all") {
        Err(EndpointError::ConfigInvalid(reason)) => assert_eq!(reason, "Invalid server name"),
        other => panic!("expected a configuration error, got {:?}", other.map(|s| s.role())),
    }
}

#[test]
fn the_bound_can_be_set_and_lifted_at_any_time() {
    let mut pair = pair();
    pair.client_writes(b"!").unwrap();
    let data = vec![7u8; 4096];

    pair.client.set_buffer_limit(Some(512));
    let bounded = pair.client_writes(&data).unwrap();
    assert!(bounded.len() >= 8, "pieces {:?}", bounded);
    assert!(bounded.iter().all(|&n| n <= 512 + 64), "pieces {:?}", bounded);

    pair.client.set_buffer_limit(None);
    let lifted = pair.client_writes(&data).unwrap();
    assert_eq!(lifted.len(), 1);

    // Setting the bound changes nothing else of the session.
    pair.client.queue(b"waiting");
    let before = (pair.client.phase(), pair.client.status(), pair.client.queued_len());
    pair.client.set_buffer_limit(Some(3));
    let after = (pair.client.phase(), pair.client.status(), pair.client.queued_len());
    assert_eq!(before, after);

    pair.at_server.clear();
    let pieces = pair.client_writes(b"").unwrap();
    assert_eq!(pair.at_server, b"waiting");
    assert_eq!(pieces.len(), 3);
}

#[test]
fn what_the_connection_took_leaves_the_queue() {
    let mut queued = b"Hello, Server!".to_vec();
    assert_eq!(after_hand_over(&mut queued, Ok(5)), Ok(Poll::Again));
    assert_eq!(queued, b", Server!");
    assert_eq!(after_hand_over(&mut queued, Ok(1)), Ok(Poll::Again));
    assert_eq!(queued, b" Server!");
    assert_eq!(after_hand_over(&mut queued, Ok(8)), Ok(Poll::Again));
    assert!(queued.is_empty());
}

#[test]
fn a_connection_that_takes_nothing_fails_the_step() {
    let stalled = Err(EndpointError::IoFailed("TLS session made no progress".to_string()));
    let mut queued = b"abc".to_vec();
    assert_eq!(after_hand_over(&mut queued, Ok(0)), stalled);
    assert_eq!(queued, b"abc");
    // More than there is cannot have been taken.
    assert_eq!(after_hand_over(&mut queued, Ok(4)), stalled);
    assert_eq!(queued, b"abc");
    let mut none: Vec<u8> = Vec::new();
    assert_eq!(after_hand_over(&mut none, Ok(0)), stalled);
    assert_eq!(
        after_hand_over(&mut queued, Err("broken".to_string())),
        Err(EndpointError::IoFailed("broken".to_string()))
    );
    assert_eq!(queued, b"abc");
}

#[test]
fn what_the_connection_took_leaves_the_input() {
    let mut unread = vec![1u8, 2, 3, 4, 5];
    assert_eq!(after_taking(&mut unread, Ok(2)), Ok(2));
    assert_eq!(unread, vec![3u8, 4, 5]);
    assert_eq!(after_taking(&mut unread, Ok(0)), Ok(0));
    assert_eq!(unread, vec![3u8, 4, 5]);
    assert_eq!(
        after_taking(&mut unread, Ok(4)),
        Err(EndpointError::IoFailed("TLS session made no progress".to_string()))
    );
    assert_eq!(unread, vec![3u8, 4, 5]);
    assert_eq!(
        after_taking(&mut unread, Err("message buffer full".to_string())),
        Err(EndpointError::IoFailed("message buffer full".to_string()))
    );
    assert_eq!(unread, vec![3u8, 4, 5]);
    assert_eq!(after_taking(&mut unread, Ok(3)), Ok(3));
    assert!(unread.is_empty());
}

/// What a connection in its handshake shows, with nothing received yet.
fn in_handshake() -> Status {
    Status {
        handshaking: true,
        wants_read: true,
        wants_write: false,
        plaintext: 0,
        peer_closed: false,
        end_of_input: false,
    }
}

#[test]
fn a_report_becomes_what_the_session_shows() {
    let shown = Status { handshaking: false, wants_write: true, ..in_handshake() };
    let report = IoReport { plaintext_bytes_to_read: 14, peer_has_closed: false };
    let worked = after_processing(100, Ok(report), Phase::Handshaking, shown);
    assert_eq!(worked.status, Status { plaintext: 14, ..shown });
    assert_eq!(worked.phase, Phase::Established);
    assert_eq!(worked.failure, None);
    assert_eq!(worked.polled, Ok(Poll::Again));

    let report = IoReport { plaintext_bytes_to_read: 3, peer_has_closed: true };
    let worked = after_processing(1, Ok(report), Phase::Established, shown);
    assert_eq!(worked.status, Status { plaintext: 3, peer_closed: true, ..shown });
    assert_eq!(worked.phase, Phase::Closing);
    assert_eq!(worked.polled, Ok(Poll::Again));

    let report = IoReport { plaintext_bytes_to_read: 0, peer_has_closed: false };
    let worked = after_processing(7, Ok(report), Phase::PreHandshake, in_handshake());
    assert_eq!(worked.status, in_handshake());
    assert_eq!(worked.phase, Phase::Handshaking);
    assert_eq!(worked.polled, Ok(Poll::Again));
}

#[test]
fn a_connection_that_took_no_input_fails_the_step() {
    let report = IoReport { plaintext_bytes_to_read: 0, peer_has_closed: false };
    let worked = after_processing(0, Ok(report), Phase::Handshaking, in_handshake());
    assert_eq!(
        worked.polled,
        Err(EndpointError::IoFailed("TLS session made no progress".to_string()))
    );
    assert_eq!(worked.phase, Phase::Handshaking);
    assert_eq!(worked.failure, None);
}

#[test]
fn a_failure_of_the_connection_ends_the_session_with_its_stage() {
    let failed = |phase, shown| after_processing(10, Err("bad record".to_string()), phase, shown);
    let established = Status { handshaking: false, ..in_handshake() };
    let closing = Status { peer_closed: true, ..established };
    for (phase, shown, stage) in [
        (Phase::PreHandshake, in_handshake(), Stage::Handshake),
        (Phase::Handshaking, in_handshake(), Stage::Handshake),
        (Phase::Handshaking, established, Stage::Data),
        (Phase::Established, established, Stage::Data),
        (Phase::Established, in_handshake(), Stage::Data),
        (Phase::Established, closing, Stage::Close),
        (Phase::Closing, established, Stage::Close),
    ] {
        let worked = failed(phase, shown);
        let failure = EndpointError::TlsFailed("bad record".to_string(), stage);
        assert_eq!(worked.phase, Phase::Failed);
        assert_eq!(worked.status, shown);
        assert_eq!(worked.failure.as_ref(), Some(&failure));
        assert_eq!(worked.polled, Err(failure));
    }
}

#[test]
fn a_session_knows_the_name_it_expects() {
    let pair = pair();
    assert_eq!(pair.client.server_name().unwrap(), "localhost");
    assert!(pair.server.server_name().is_none());
}

#[test]
fn the_farewell_holds_what_was_pending_and_then_the_notice() {
    let mut pair = pair();
    // The client has said nothing yet: its hello is still pending.
    assert!(pair.client.status().wants_write);
    let farewell = pair.client.close();
    assert_eq!(pair.client.phase(), Phase::Closed);
    // A handshake record first, and an alert record last.
    assert_eq!(farewell[0], 22);
    assert!(farewell.len() > 7);
    assert_eq!(farewell[farewell.len() - 7], 21);

    // The server reads the hello, and behind it the notice, which in the
    // middle of a handshake it takes for a failure of the handshake.
    pair.server.supply(&farewell).unwrap();
    let mut buffer = [0u8; 16];
    let ended = loop {
        match pair.server.read(&mut buffer) {
            Ok(Poll::Receive) => panic!("the notice was in what was supplied"),
            Ok(_) => {},
            Err(error) => break error,
        }
    };
    match ended {
        EndpointError::TlsFailed(reason, Stage::Handshake) => {
            assert!(reason.contains("CloseNotify"), "{}", reason)
        },
        other => panic!("expected the notice, got {:?}", other),
    }
}

#[test]
fn closing_leaves_nothing_pending() {
    let mut pair = pair();
    pair.client_writes(b"!").unwrap();
    pair.at_server.clear();
    // A record is made and not moved out.
    pair.client.queue(b"last words");
    assert_eq!(pair.client.write().unwrap(), Poll::Again);
    assert_eq!(pair.client.queued_len(), 0);
    assert!(pair.client.status().wants_write);

    let farewell = pair.client.close();

    // The record arrives, and then the end.
    pair.server.supply(&farewell).unwrap();
    pair.server_reads().unwrap();
    assert_eq!(pair.at_server, b"last words");
    assert_eq!(pair.server.phase(), Phase::Closing);
    let mut buffer = [0u8; 16];
    assert_eq!(pair.server.read(&mut buffer).unwrap(), Poll::Ready(0));
}

#[test]
fn the_farewell_of_a_session_that_gave_notice_is_empty() {
    let mut pair = pair();
    pair.client_writes(b"!").unwrap();
    assert!(!pair.client.close().is_empty());
    assert!(pair.client.close().is_empty());
    assert!(pair.client.close().is_empty());
}
