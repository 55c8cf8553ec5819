//! The server endpoint: credentials, a listener that is the caller's, and a
//! worker for each accepted connection.
//!
//! The caller binds, accepts and spawns. The server says whether it has
//! credentials to start with, whether the accept loop goes on, and what
//! becomes of each connection; a worker reads one request, answers it with
//! the fixed response, and closes.

use vstd::prelude::*;
use vstd::string::StringSliceAdditionalSpecFns;
use crate::address::{address_text, endpoint_address, valid_address};
use crate::backend::{
    admits_sessions,
    lossy_text,
    pem_pkcs8_keys,
    server_config,
    tls_error_text,
    utf8_lossy,
};
use crate::credentials::{credentials_verdict, server_credentials, verdict_fault, Verdict};
use crate::error::{EndpointError, Fault};
use crate::session::{
    an_empty_read_is_the_end,
    read_result,
    session_kept,
    write_result,
    Role,
    Session,
    SessionView,
};
use crate::stream::{end_part_of_end_part, is_end_part, write_step, Poll, WriteStep};

verus! {

/// A server configuration for the outcome of building one: the configuration,
/// or `ConfigInvalid` with the library's reason.
pub fn config_from(built: Result<rustls::ServerConfig, rustls::Error>) -> (config: Result<
    rustls::ServerConfig,
    EndpointError,
>)
    ensures
        match built {
            Ok(made) => config == Ok::<rustls::ServerConfig, EndpointError>(made),
            Err(_) => config matches Err(e) && e@ is ConfigInvalid,
        },
{
    match built {
        Ok(made) => Ok(made),
        Err(error) => Err(EndpointError::ConfigInvalid(tls_error_text(&error))),
    }
}

/// What loading a server configuration from two PEM texts comes to. Where
/// the texts call for an error, that is the result. With usable credentials
/// the TLS library decides, and what it refuses is `ConfigInvalid`.
pub open spec fn credentials_outcome(
    cert_pem: Seq<u8>,
    key_pem: Seq<u8>,
    config: Result<rustls::ServerConfig, EndpointError>,
) -> bool {
    match credentials_verdict(cert_pem, key_pem) {
        Verdict::Usable(_, _) => config matches Err(e) ==> e@ is ConfigInvalid,
        verdict => config matches Err(e) && verdict_fault(verdict, e@),
    }
}

/// The server configuration made of a certificate text and a key text: no
/// client authentication, and the chain and key that
/// [`server_credentials`] makes of the texts. A key text without a key is
/// `NoPrivateKey`. A text that cannot be decoded, a certificate text without
/// a certificate, and whatever the TLS library refuses, are `ConfigInvalid`.
/// A configuration that is returned admits sessions: each connection that is
/// accepted later gets its worker.
pub fn load_certificates(cert_pem: &[u8], key_pem: &[u8]) -> (config: Result<
    rustls::ServerConfig,
    EndpointError,
>)
    ensures
        credentials_outcome(cert_pem@, key_pem@, config),
        config matches Ok(loaded) ==> admits_sessions(loaded),
{
    match server_credentials(cert_pem, key_pem) {
        Ok((chain, key)) => config_from(server_config(chain, key)),
        Err(error) => Err(error),
    }
}

/// A key text without a PKCS#8 key is `NoPrivateKey`, whatever else is given.
pub proof fn no_key_is_rejected(
    cert_pem: Seq<u8>,
    key_pem: Seq<u8>,
    config: Result<rustls::ServerConfig, EndpointError>,
)
    requires
        credentials_outcome(cert_pem, key_pem, config),
        pem_pkcs8_keys(key_pem) == Some(Seq::<Seq<u8>>::empty()),
    ensures
        config matches Err(e) && e@ == Fault::NoPrivateKey,
{
}

/// What the accept loop does with the outcome of one accept.
#[derive(Clone, Copy, Debug, PartialEq, Eq, Structural)]
pub enum AcceptStep {
    /// A connection has come in: hand it to a worker of its own, and go on.
    Spawn,
    /// The accept failed: say so, and go on.
    Skip,
    /// The listener is gone: leave the loop.
    Halt,
}

/// The step of the accept loop: a server that listens goes on, with a worker
/// for each connection, and one that does not listen leaves the loop.
pub open spec fn accept_step(listening: bool, accepted: bool) -> AcceptStep {
    if !listening {
        AcceptStep::Halt
    } else if accepted {
        AcceptStep::Spawn
    } else {
        AcceptStep::Skip
    }
}

/// What happens to a server while its accept loop runs.
pub enum LoopEvent {
    /// A connection came in.
    Connection,
    /// An accept failed.
    AcceptFailure,
    /// A worker ended, with its report or with its failure.
    WorkerEnded(Result<Seq<char>, Fault>),
    /// The server was stopped.
    Stopped,
}

/// Whether a server still listens after an event: stopping ends it, and
/// nothing else touches the listener. A failed accept does not, and no
/// worker's end does, however the worker ended.
pub open spec fn listening_after(listening: bool, event: LoopEvent) -> bool {
    match event {
        LoopEvent::Stopped => false,
        _ => listening,
    }
}

/// Whether a server still listens after a run of events.
pub open spec fn listening_after_all(listening: bool, events: Seq<LoopEvent>) -> bool
    decreases events.len(),
{
    if events.len() == 0 {
        listening
    } else {
        listening_after(listening_after_all(listening, events.drop_last()), events.last())
    }
}

/// The accept loop outlives its workers: after any finite run of
/// connections, failed accepts and workers that ended, failed or not, a
/// server that listened and was not stopped still listens, and the next
/// connection gets its worker.
pub proof fn accept_loop_outlives_workers(events: Seq<LoopEvent>)
    requires
        forall|i: int| 0 <= i < events.len() ==> !(#[trigger] events[i] is Stopped),
    ensures
        listening_after_all(true, events),
        accept_step(listening_after_all(true, events), true) == AcceptStep::Spawn,
    decreases events.len(),
{
    if events.len() > 0 {
        accept_loop_outlives_workers(events.drop_last());
    }
}

/// Once a server is stopped, its accept loop ends at the next turn, whatever
/// happens afterwards.
pub proof fn a_stopped_loop_halts(before: Seq<LoopEvent>, after: Seq<LoopEvent>, accepted: bool)
    ensures
        !listening_after_all(true, before.push(LoopEvent::Stopped) + after),
        accept_step(
            listening_after_all(true, before.push(LoopEvent::Stopped) + after),
            accepted,
        ) == AcceptStep::Halt,
    decreases after.len(),
{
    let stopped = before.push(LoopEvent::Stopped);
    if after.len() == 0 {
        assert(stopped + after =~= stopped);
        assert(stopped.drop_last() =~= before);
    } else {
        a_stopped_loop_halts(before, after.drop_last(), accepted);
        assert((stopped + after).drop_last() =~= stopped + after.drop_last());
    }
}

/// The reason given by a server that is told to listen twice.
pub open spec fn already_listening_text() -> Seq<char> {
    "Server already started"@
}

/// A server endpoint.
pub struct Server {
    host: String,
    port: u16,
    cert_file: String,
    key_file: String,
    listening: bool,
}

/// A server as a mathematical value.
pub struct ServerView {
    /// The host to bind.
    pub host: Seq<char>,
    /// The port to bind.
    pub port: u16,
    /// The path of the certificate file.
    pub cert_file: Seq<char>,
    /// The path of the key file.
    pub key_file: Seq<char>,
    /// Whether the caller holds a bound listener for this server.
    pub listening: bool,
}

impl ServerView {
    /// The server's invariant: its address is valid.
    pub open spec fn well_formed(self) -> bool {
        valid_address(self.host, self.port)
    }

    /// The server with its listener bound or dropped, and otherwise the same.
    pub open spec fn with_listening(self, listening: bool) -> ServerView {
        ServerView { listening, ..self }
    }
}

impl View for Server {
    type V = ServerView;

    closed spec fn view(&self) -> ServerView {
        ServerView {
            host: self.host@,
            port: self.port,
            cert_file: self.cert_file@,
            key_file: self.key_file@,
            listening: self.listening,
        }
    }
}

impl Server {
    /// A server for `host` and `port` with its credentials in the two files
    /// named. It does not listen yet.
    pub fn new(host: String, port: u16, cert_file: String, key_file: String) -> (server: Server)
        requires
            valid_address(host@, port),
        ensures
            server@.well_formed(),
            server@ == (ServerView {
                host: host@,
                port,
                cert_file: cert_file@,
                key_file: key_file@,
                listening: false,
            }),
    {
        Server { host, port, cert_file, key_file, listening: false }
    }

    /// The address to bind.
    pub fn address(&self) -> (text: String)
        ensures
            text@ == address_text(self@.host, self@.port),
    {
        endpoint_address(self.host.as_str(), self.port)
    }

    /// The path of the certificate file.
    pub fn cert_file(&self) -> (path: &String)
        ensures
            path@ == self@.cert_file,
    {
        &self.cert_file
    }

    /// The path of the key file.
    pub fn key_file(&self) -> (path: &String)
        ensures
            path@ == self@.key_file,
    {
        &self.key_file
    }

    /// Whether the caller holds a bound listener for this server.
    pub fn is_listening(&self) -> (listening: bool)
        ensures
            listening == self@.listening,
    {
        self.listening
    }

    /// The server configuration made of what the caller read from the two
    /// credential files: see [`load_certificates`].
    pub fn load_certificates(&self, cert_pem: &[u8], key_pem: &[u8]) -> (config: Result<
        rustls::ServerConfig,
        EndpointError,
    >)
        ensures
            credentials_outcome(cert_pem@, key_pem@, config),
            config matches Ok(loaded) ==> admits_sessions(loaded),
    {
        load_certificates(cert_pem, key_pem)
    }

    /// Begins to start the server: the credentials are loaded, and only with
    /// a configuration in hand is the caller to bind [`Server::address`] and
    /// to report the outcome to [`Server::listen`]. Without credentials
    /// nothing is ever bound. The server itself is as it was.
    pub fn start(&mut self, cert_pem: &[u8], key_pem: &[u8]) -> (config: Result<
        std::sync::Arc<rustls::ServerConfig>,
        EndpointError,
    >)
        requires
            old(self)@.well_formed(),
        ensures
            final(self)@ == old(self)@,
            credentials_outcome(
                cert_pem@,
                key_pem@,
                match config {
                    Ok(shared) => Ok(*shared),
                    Err(e) => Err(e),
                },
            ),
            config matches Ok(shared) ==> admits_sessions(*shared),
    {
        match self.load_certificates(cert_pem, key_pem) {
            Ok(config) => Ok(std::sync::Arc::new(config)),
            Err(error) => Err(error),
        }
    }

    /// Takes note of how binding the listener went. A server whose listener
    /// was bound listens from now on; one whose listener could not be bound
    /// reports `IoFailed` with the transport's reason. A server that listens
    /// already reports `IoFailed` and goes on listening.
    pub fn listen(&mut self, bound: Result<(), String>) -> (started: Result<(), EndpointError>)
        requires
            old(self)@.well_formed(),
        ensures
            final(self)@.well_formed(),
            if old(self)@.listening {
                final(self)@ == old(self)@ && (started matches Err(e) && e@ == Fault::IoFailed(
                    already_listening_text(),
                ))
            } else {
                match bound {
                    Ok(()) => started is Ok && final(self)@ == old(self)@.with_listening(true),
                    Err(reason) => final(self)@ == old(self)@ && (started matches Err(e) && e@
                        == Fault::IoFailed(reason@)),
                }
            },
    {
        if self.listening {
            return Err(EndpointError::IoFailed("Server already started".to_owned()));
        }
        match bound {
            Ok(()) => {
                self.listening = true;
                Ok(())
            },
            Err(reason) => Err(EndpointError::IoFailed(reason)),
        }
    }

    /// Stops the server: the caller is to drop the listener, and the accept
    /// loop ends at its next turn. Workers that are under way are not touched.
    /// Stopping always succeeds.
    pub fn stop(&mut self) -> (stopped: Result<(), EndpointError>)
        requires
            old(self)@.well_formed(),
        ensures
            final(self)@.well_formed(),
            final(self)@ == old(self)@.with_listening(
                listening_after(old(self)@.listening, LoopEvent::Stopped),
            ),
            !final(self)@.listening,
            stopped is Ok,
    {
        self.listening = false;
        Ok(())
    }

    /// Takes note of the outcome of one accept, outside the accept loop: a
    /// server that does not listen reports `NotConnected`, a failed accept is
    /// `IoFailed` with the transport's reason, and a connection is the
    /// caller's to use.
    pub fn accept(&self, incoming: Result<(), String>) -> (accepted: Result<(), EndpointError>)
        ensures
            if !self@.listening {
                accepted matches Err(e) && e@ == Fault::NotConnected
            } else {
                match incoming {
                    Ok(()) => accepted is Ok,
                    Err(reason) => accepted matches Err(e) && e@ == Fault::IoFailed(reason@),
                }
            },
    {
        if !self.listening {
            Err(EndpointError::NotConnected)
        } else {
            match incoming {
                Ok(()) => Ok(()),
                Err(reason) => Err(EndpointError::IoFailed(reason)),
            }
        }
    }

    /// Decides the accept loop's step for the outcome of one accept.
    pub fn next_step(&self, accepted: bool) -> (step: AcceptStep)
        ensures
            step == accept_step(self@.listening, accepted),
    {
        if !self.listening {
            AcceptStep::Halt
        } else if accepted {
            AcceptStep::Spawn
        } else {
            AcceptStep::Skip
        }
    }

    /// Takes note of the end of a worker, and returns the line to log where
    /// the worker failed. The server is as it was: a worker's failure is
    /// that worker's alone.
    pub fn worker_ended(&mut self, outcome: &Result<String, EndpointError>) -> (line: Option<String>)
        requires
            old(self)@.well_formed(),
        ensures
            final(self)@ == old(self)@.with_listening(
                listening_after(
                    old(self)@.listening,
                    LoopEvent::WorkerEnded(
                        match *outcome {
                            Ok(request) => Ok(request@),
                            Err(e) => Err(e@),
                        },
                    ),
                ),
            ),
            final(self)@ == old(self)@,
            match *outcome {
                Ok(_) => line is None,
                Err(e) => line matches Some(text) && text@ == crate::error::fault_text(e@),
            },
    {
        match outcome {
            Ok(_) => None,
            Err(error) => Some(error.message()),
        }
    }
}

/// The most that a worker reads of a request, in bytes.
pub const REQUEST_LIMIT: usize = 1024;

/// The bound that [`handle_client`] sets on its session's buffers of outgoing
/// data, in bytes.
pub const BUFFER_LIMIT: usize = 1024;

/// The fixed response, as the bytes that are sent.
pub open spec fn response_bytes() -> Seq<u8> {
    "Hello, Client!".spec_bytes()
}

/// What a worker reports as its request where it received none.
pub open spec fn no_data_text() -> Seq<char> {
    "No data received"@
}

/// Where a worker stands.
#[derive(Clone, Copy, Debug, PartialEq, Eq, Structural)]
pub enum WorkerStage {
    /// Waiting for the request.
    Reading,
    /// The request is in, and the response is on its way out.
    Responding,
    /// Done: the session is closed.
    Finished,
}

/// Whether a worker may go from stage `from` to stage `to`: never backwards.
pub open spec fn stage_follows(from: WorkerStage, to: WorkerStage) -> bool {
    match from {
        WorkerStage::Reading => true,
        WorkerStage::Responding => to != WorkerStage::Reading,
        WorkerStage::Finished => to == WorkerStage::Finished,
    }
}

/// The worker for one accepted connection. It owns the connection's TLS
/// session and shares nothing with other workers but the server
/// configuration, which none of them can change.
pub struct Worker {
    session: Session,
    stage: WorkerStage,
    buffer: Vec<u8>,
    received: usize,
    request: Option<String>,
}

/// A worker as a mathematical value.
pub struct WorkerView {
    /// The worker's session.
    pub session: SessionView,
    /// Where the worker stands.
    pub stage: WorkerStage,
    /// The buffer into which the request is read.
    pub buffer: Seq<u8>,
    /// The length of the request, in bytes; zero while none has come in.
    pub received: nat,
    /// The request as text, once one has come in.
    pub request: Option<Seq<char>>,
}

impl WorkerView {
    /// The request that a worker holds once it has read: the text of the
    /// bytes it received, bad sequences replaced, if it received any.
    pub open spec fn request_read(self) -> Option<Seq<char>> {
        if self.received > 0 {
            Some(utf8_lossy(self.buffer.take(self.received as int)))
        } else {
            None
        }
    }

    /// The worker's invariant. Its session is a well-formed server session.
    /// While it reads it has no request and has queued nothing. Afterwards
    /// its request is the text of the bytes it received, if it received any.
    /// While it responds it has a request. What is queued is at all times
    /// what is left of the fixed response: no other plaintext is ever sent.
    pub open spec fn well_formed(self) -> bool {
        &&& self.session.well_formed()
        &&& self.session.role == Role::Server
        &&& self.buffer.len() == REQUEST_LIMIT
        &&& self.received <= REQUEST_LIMIT
        &&& is_end_part(self.session.queued, response_bytes())
        &&& match self.stage {
            WorkerStage::Reading => self.received == 0 && self.request is None
                && self.session.queued.len() == 0,
            WorkerStage::Responding => self.received > 0 && self.request == self.request_read(),
            WorkerStage::Finished => self.session.queued.len() == 0 && !self.session.live()
                && self.request == self.request_read(),
        }
    }

    /// The worker with its session in another state, and otherwise the same.
    pub open spec fn with_session(self, session: SessionView) -> WorkerView {
        WorkerView { session, ..self }
    }
}

impl View for Worker {
    type V = WorkerView;

    closed spec fn view(&self) -> WorkerView {
        WorkerView {
            session: self.session@,
            stage: self.stage,
            buffer: self.buffer@,
            received: self.received as nat,
            request: match self.request {
                Some(text) => Some(text@),
                None => None,
            },
        }
    }
}

/// What one step does to a worker that reads. It is a step of the session's
/// read into the worker's buffer. A reception of zero bytes, which is the
/// peer's clean shutdown, finishes the worker at once and in silence: without
/// a request, a response, or a last word on the transport. Any other
/// reception becomes the request; the fixed response is queued, and the
/// worker responds from the next step on. Every other result leaves the
/// worker reading.
pub open spec fn reading_result(
    before: WorkerView,
    after: WorkerView,
    polled: Result<Poll, EndpointError>,
) -> bool {
    exists|read: SessionView, step: Result<Poll, EndpointError>| #[trigger]
        reading_step(before, read, step, after, polled)
}

/// What a worker that reads makes of a step of its session's read, where
/// that step left the session as `read` and returned `step`.
pub open spec fn reading_step(
    before: WorkerView,
    read: SessionView,
    step: Result<Poll, EndpointError>,
    after: WorkerView,
    polled: Result<Poll, EndpointError>,
) -> bool {
    &&& read_result(before.session, read, before.buffer, after.buffer, step)
    &&& match step {
        Ok(Poll::Ready(n)) => if n == 0 {
            &&& read.closed_to(after.session)
            &&& after == (WorkerView {
                session: after.session,
                stage: WorkerStage::Finished,
                ..before
            })
            &&& polled matches Ok(Poll::Ready(0))
        } else {
            &&& after == (WorkerView {
                session: read.with_queued(response_bytes()),
                stage: WorkerStage::Responding,
                buffer: after.buffer,
                received: n as nat,
                request: Some(utf8_lossy(after.buffer.take(n as int))),
            })
            &&& polled matches Ok(Poll::Again)
        },
        _ => polled == step && after == (WorkerView {
            session: read,
            buffer: after.buffer,
            ..before
        }),
    }
}

/// Whether a result is the one that ends a worker whose session has
/// `farewell` to say: the farewell is returned for the transport, and where
/// there is none the worker is complete at once.
pub open spec fn is_last_word(polled: Result<Poll, EndpointError>, farewell: Seq<u8>) -> bool {
    match polled {
        Ok(Poll::Ready(n)) => n == 0 && farewell.len() == 0,
        Ok(Poll::Transmit(records)) => records@ == farewell && farewell.len() > 0,
        _ => false,
    }
}

/// What one step does to a worker that responds. It is a step of the
/// session's write. When the write is complete, which it is when the whole
/// response has been taken and no record is pending, the session is closed
/// and the worker is finished; what the session has to say at its end, the
/// notice of the shutdown, is returned in `Transmit`. Every other result
/// leaves the worker responding.
pub open spec fn responding_result(
    before: WorkerView,
    after: WorkerView,
    polled: Result<Poll, EndpointError>,
) -> bool {
    if write_step(before.session.status, before.session.queued.len(), before.session.unread.len())
        == WriteStep::Done && before.session.live() {
        &&& before.session.closed_to(after.session)
        &&& after == (WorkerView {
            session: after.session,
            stage: WorkerStage::Finished,
            ..before
        })
        &&& exists|farewell: Seq<u8>| #[trigger]
            before.session.says_farewell(farewell) && is_last_word(polled, farewell)
    } else {
        &&& write_result(before.session, after.session, polled)
        &&& after == before.with_session(after.session)
    }
}

/// What one step does to a worker: a finished worker is complete and stays
/// as it is.
pub open spec fn advance_result(
    before: WorkerView,
    after: WorkerView,
    polled: Result<Poll, EndpointError>,
) -> bool {
    match before.stage {
        WorkerStage::Reading => reading_result(before, after, polled),
        WorkerStage::Responding => responding_result(before, after, polled),
        WorkerStage::Finished => after == before && polled matches Ok(Poll::Ready(0)),
    }
}

/// The fixed response is fourteen bytes long.
pub proof fn response_is_not_empty()
    ensures
        response_bytes().len() == 14,
{
    reveal_strlit("Hello, Client!");
    vstd::string::is_ascii_spec_bytes("Hello, Client!");
}

/// A request gets the whole response: when a worker has read its request,
/// the fixed response is queued, all fourteen bytes of it, and the request is
/// the text of what was read.
pub proof fn a_request_gets_the_whole_response(
    before: WorkerView,
    after: WorkerView,
    polled: Result<Poll, EndpointError>,
)
    requires
        before.well_formed(),
        before.stage == WorkerStage::Reading,
        advance_result(before, after, polled),
        after.stage == WorkerStage::Responding,
    ensures
        after.session.queued == response_bytes(),
        after.session.queued.len() == 14,
        after.received > 0,
        after.request == after.request_read(),
{
    response_is_not_empty();
    let (read, step) = choose|read: SessionView, step: Result<Poll, EndpointError>| #[trigger]
        reading_step(before, read, step, after, polled);
    assert(read.queued == before.session.queued);
    assert(Seq::<u8>::empty() + response_bytes() =~= response_bytes());
    assert(before.session.queued =~= Seq::<u8>::empty());
}

/// Every connection gets its worker: a configuration that the server has
/// started with admits sessions, so that making a worker on it succeeds,
/// however many were made before and however they ended.
pub proof fn every_connection_gets_its_worker(
    started: Result<std::sync::Arc<rustls::ServerConfig>, EndpointError>,
    worker: Result<Worker, EndpointError>,
)
    requires
        started matches Ok(shared) ==> admits_sessions(*shared),
        started matches Ok(shared) ==> (worker is Ok <==> admits_sessions(*shared)),
    ensures
        started is Ok ==> worker is Ok,
{
}

/// A worker whose step fails while it reads has neither a request nor
/// anything queued: where the peer gives up the handshake, nothing of the
/// response is ever handed to the connection.
pub proof fn a_failed_handshake_leaves_no_request(
    before: WorkerView,
    after: WorkerView,
    polled: Result<Poll, EndpointError>,
)
    requires
        before.well_formed(),
        before.stage == WorkerStage::Reading,
        advance_result(before, after, polled),
        polled is Err,
    ensures
        after.stage == WorkerStage::Reading,
        after.request is None,
        after.received == 0,
        after.session.queued.len() == 0,
{
    let (read, step) = choose|read: SessionView, step: Result<Poll, EndpointError>| #[trigger]
        reading_step(before, read, step, after, polled);
}

/// A worker that finishes without a request does so because the peer has
/// closed in good order before it sent one: it finishes in silence, and
/// reports no failure.
pub proof fn a_silent_finish_means_the_peer_closed(
    before: WorkerView,
    after: WorkerView,
    polled: Result<Poll, EndpointError>,
)
    requires
        before.well_formed(),
        before.stage == WorkerStage::Reading,
        advance_result(before, after, polled),
        after.stage == WorkerStage::Finished,
    ensures
        before.session.status.peer_closed,
        before.session.plaintext.len() == 0,
        after.request is None,
        polled matches Ok(Poll::Ready(0)),
{
    let (read, step) = choose|read: SessionView, step: Result<Poll, EndpointError>| #[trigger]
        reading_step(before, read, step, after, polled);
    an_empty_read_is_the_end(before.session, read, before.buffer, after.buffer, step);
}

/// A worker that finishes after a request has sent everything: the whole
/// response has been taken by the connection, and no record is left pending.
pub proof fn a_worker_finishes_with_everything_sent(
    before: WorkerView,
    after: WorkerView,
    polled: Result<Poll, EndpointError>,
)
    requires
        before.well_formed(),
        before.stage == WorkerStage::Responding,
        advance_result(before, after, polled),
        after.stage == WorkerStage::Finished,
    ensures
        before.session.queued.len() == 0,
        before.session.records.len() == 0,
        after.request == before.request,
        after.request is Some,
{
}

impl Worker {
    /// A worker on a fresh server session. There is one exactly where the
    /// configuration admits sessions, which every configuration does that
    /// this library has loaded.
    pub fn new(config: &std::sync::Arc<rustls::ServerConfig>) -> (worker: Result<
        Worker,
        EndpointError,
    >)
        ensures
            worker is Ok <==> admits_sessions(**config),
            worker matches Ok(w) ==> w@.well_formed() && w@.stage == WorkerStage::Reading
                && w@.session.fresh(Role::Server),
            worker matches Err(e) ==> e@ is ConfigInvalid,
    {
        match Session::server(config) {
            Ok(session) => Ok(
                Worker {
                    session,
                    stage: WorkerStage::Reading,
                    buffer: vec![0u8; REQUEST_LIMIT],
                    received: 0,
                    request: None,
                },
            ),
            Err(error) => Err(error),
        }
    }

    /// Where the worker stands.
    pub fn stage(&self) -> (stage: WorkerStage)
        ensures
            stage == self@.stage,
    {
        self.stage
    }

    /// The request as text, once one has come in.
    pub fn request(&self) -> (text: Option<&String>)
        ensures
            match text {
                Some(text) => self@.request == Some(text@),
                None => self@.request is None,
            },
    {
        self.request.as_ref()
    }

    /// What the worker has to report: the request as text, or a fixed
    /// sentence where none came in.
    pub fn report(&self) -> (text: String)
        ensures
            text@ == match self@.request {
                Some(request) => request,
                None => no_data_text(),
            },
    {
        match &self.request {
            Some(request) => request.clone(),
            None => "No data received".to_owned(),
        }
    }

    /// Sets the bound on the session's buffers of outgoing data, or lifts it
    /// with `None`: the worker's session has that bound from now on, and
    /// nothing else of the worker changes, neither its stage nor its request
    /// nor what is left of the response.
    pub fn set_buffer_limit(&mut self, limit: Option<usize>)
        requires
            old(self)@.well_formed(),
        ensures
            final(self)@.well_formed(),
            final(self)@ == old(self)@.with_session(old(self)@.session.with_limit(limit)),
    {
        self.session.set_buffer_limit(limit);
    }

    /// Hands over what was read from the transport; an empty `input` says
    /// that the transport has reached its end. A worker whose session no
    /// longer works takes nothing and reports why.
    pub fn supply(&mut self, input: &[u8]) -> (taken: Result<(), EndpointError>)
        requires
            old(self)@.well_formed(),
        ensures
            final(self)@.well_formed(),
            final(self)@ == old(self)@.with_session(old(self)@.session.with_supplied(input@)),
            if old(self)@.session.live() {
                taken is Ok
            } else {
                taken matches Err(e) && e@ == old(self)@.session.refusal()
            },
    {
        self.session.supply(input)
    }

    /// Ends the worker at whatever stage it is, and returns what its session
    /// has to say at its end, to be written to the transport before that is
    /// shut: for a session that works, all that it had pending and behind it
    /// the notice of the shutdown; for one that has failed, what it had
    /// pending, which is where its alert to the peer stands. The worker is
    /// finished afterwards and keeps its request; what was left of the
    /// response is dropped.
    pub fn close(&mut self) -> (farewell: Vec<u8>)
        requires
            old(self)@.well_formed(),
        ensures
            final(self)@.well_formed(),
            old(self)@.session.says_farewell(farewell@),
            old(self)@.session.closed_to(final(self)@.session),
            final(self)@ == (WorkerView {
                session: final(self)@.session,
                stage: WorkerStage::Finished,
                ..old(self)@
            }),
    {
        let farewell = self.session.close();
        self.stage = WorkerStage::Finished;
        farewell
    }

    /// Ends the session and the worker. The session's last records are
    /// returned for the transport, unless `quietly` is set.
    fn finish(&mut self, quietly: bool) -> (polled: Result<Poll, EndpointError>)
        requires
            old(self)@.session.well_formed(),
        ensures
            final(self)@.session.well_formed(),
            old(self)@.session.closed_to(final(self)@.session),
            final(self)@ == (WorkerView {
                session: final(self)@.session,
                stage: WorkerStage::Finished,
                ..old(self)@
            }),
            polled is Ok,
            quietly ==> polled matches Ok(Poll::Ready(0)),
            !quietly ==> exists|farewell: Seq<u8>| #[trigger]
                old(self)@.session.says_farewell(farewell) && is_last_word(polled, farewell),
    {
        let farewell = self.session.close();
        self.stage = WorkerStage::Finished;
        if quietly || farewell.len() == 0 {
            Ok(Poll::Ready(0))
        } else {
            Ok(Poll::Transmit(farewell))
        }
    }

    /// One step of the worker's work: read one request of at most
    /// [`REQUEST_LIMIT`] bytes, answer it with the fixed response, close. See
    /// [`advance_result`]. `Ready` is returned by a finished worker only, and
    /// a worker never goes back to a stage it has left.
    pub fn advance(&mut self) -> (polled: Result<Poll, EndpointError>)
        requires
            old(self)@.well_formed(),
        ensures
            final(self)@.well_formed(),
            stage_follows(old(self)@.stage, final(self)@.stage),
            polled matches Ok(Poll::Ready(_)) ==> final(self)@.stage == WorkerStage::Finished,
            advance_result(old(self)@, final(self)@, polled),
    {
        match self.stage {
            WorkerStage::Finished => Ok(Poll::Ready(0)),
            WorkerStage::Reading => {
                let step = self.session.read(self.buffer.as_mut_slice());
                let ghost read = self.session@;
                let ghost taken = step;
                let polled = match step {
                    Ok(Poll::Ready(n)) => {
                        if n == 0 {
                            assert(self.buffer@ =~= old(self)@.buffer) by {
                                assert(self.buffer@.skip(0) =~= self.buffer@);
                                assert(old(self)@.buffer.skip(0) =~= old(self)@.buffer);
                            }
                            self.finish(true)
                        } else {
                            self.received = n;
                            self.request = Some(
                                lossy_text(
                                    vstd::slice::slice_subrange(self.buffer.as_slice(), 0, n),
                                ),
                            );
                            self.stage = WorkerStage::Responding;
                            Server::send_response(&mut self.session, "Hello, Client!");
                            assert(Seq::<u8>::empty() + response_bytes() =~= response_bytes());
                            Ok(Poll::Again)
                        }
                    },
                    other => other,
                };
                assert(reading_step(old(self)@, read, taken, self@, polled));
                polled
            },
            WorkerStage::Responding => {
                let ghost before = self.session@;
                let done = self.session.is_written();
                if done {
                    return self.finish(false);
                }
                let polled = self.session.write();
                proof {
                    end_part_of_end_part(self.session@.queued, before.queued, response_bytes());
                }
                polled
            },
        }
    }
}

impl Server {
    /// A worker for a connection that has just been accepted, on a fresh
    /// session of the shared configuration. There is one exactly where the
    /// configuration admits sessions, which every configuration does that
    /// this library has loaded.
    pub fn handle_client(config: &std::sync::Arc<rustls::ServerConfig>) -> (worker: Result<
        Worker,
        EndpointError,
    >)
        ensures
            worker is Ok <==> admits_sessions(**config),
            worker matches Ok(w) ==> w@.well_formed() && w@.stage == WorkerStage::Reading
                && w@.session.fresh(Role::Server),
            worker matches Err(e) ==> e@ is ConfigInvalid,
    {
        Worker::new(config)
    }

    /// Queues `response` on the session that read the request, for the steps
    /// of its write to send. Request and response share one session.
    pub fn send_response(session: &mut Session, response: &str)
        requires
            old(session)@.well_formed(),
        ensures
            final(session)@.well_formed(),
            final(session)@ == old(session)@.with_queued(response.spec_bytes()),
    {
        session.queue(response.as_bytes())
    }
}

/// A worker as [`Server::handle_client`] makes it, with its session's buffers
/// of outgoing data bounded by [`BUFFER_LIMIT`]. There is one exactly where
/// the configuration admits sessions.
pub fn handle_client(config: &std::sync::Arc<rustls::ServerConfig>) -> (worker: Result<
    Worker,
    EndpointError,
>)
    ensures
        worker is Ok <==> admits_sessions(**config),
        worker matches Ok(w) ==> w@.well_formed() && w@.stage == WorkerStage::Reading
            && w@.session.fresh(Role::Server) && w@.session.limit == Some(BUFFER_LIMIT),
        worker matches Err(e) ==> e@ is ConfigInvalid,
{
    match Server::handle_client(config) {
        Ok(mut worker) => {
            worker.set_buffer_limit(Some(BUFFER_LIMIT));
            Ok(worker)
        },
        Err(error) => Err(error),
    }
}

} // verus!
