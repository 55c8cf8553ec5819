//! The client endpoint: an address, and a link that goes from new to
//! connected, to TLS-ready, to closed, and never back.
//!
//! The transport is the caller's. `connect` is told how opening it went;
//! `send`, `resume_send` and `receive` say in a [`Poll`] what the transport
//! has to do next; `supply` takes what was read from it; `close` returns the
//! last bytes to write before it is shut.

use vstd::prelude::*;
use crate::address::{address_text, endpoint_address, valid_address};
use crate::backend::{is_server_name, lossy_text, utf8_lossy};
use crate::credentials::{load_root_store_from_cert, usable_trust};
use crate::error::{EndpointError, Fault};
use crate::session::{read_result, session_kept, write_result, Role, Session, SessionView};
use crate::stream::{shorter, Poll};

verus! {

/// Where a client endpoint stands.
#[derive(Clone, Copy, Debug, PartialEq, Eq, Structural)]
pub enum ClientState {
    /// No transport yet.
    New,
    /// A transport, and no TLS session on it.
    Connected,
    /// A transport with a TLS session on it.
    TlsReady,
    /// Closed for good.
    Closed,
}

/// What a transport without TLS has delivered and the caller has not yet
/// received.
struct Inbox {
    bytes: Vec<u8>,
    ended: bool,
}

/// The link of a client to its peer, one variant for each state.
enum Link {
    New,
    Plain(Inbox),
    Tls(Session),
    Closed,
}

/// A client endpoint.
pub struct Client {
    host: String,
    port: u16,
    link: Link,
    last_response: Option<String>,
}

/// The link of a client as a mathematical value. A session is never without
/// its transport: only a link with a transport can hold one.
pub enum LinkView {
    /// No transport yet.
    New,
    /// A transport without TLS, with the bytes that it has delivered and
    /// that have not yet been received, and whether it has ended.
    Plain { inbox: Seq<u8>, ended: bool },
    /// A transport with a TLS session on it.
    Tls(SessionView),
    /// Closed for good.
    Closed,
}

/// A client as a mathematical value.
pub struct ClientView {
    /// The host of the peer.
    pub host: Seq<char>,
    /// The port of the peer.
    pub port: u16,
    /// The link to the peer.
    pub link: LinkView,
    /// The text of the last reception that was not empty.
    pub last_response: Option<Seq<char>>,
}

impl ClientView {
    /// Where the client stands.
    pub open spec fn state(self) -> ClientState {
        match self.link {
            LinkView::New => ClientState::New,
            LinkView::Plain { .. } => ClientState::Connected,
            LinkView::Tls(_) => ClientState::TlsReady,
            LinkView::Closed => ClientState::Closed,
        }
    }

    /// The client's invariant: its address is valid, and its session, where
    /// it has one, is a well-formed client session.
    pub open spec fn well_formed(self) -> bool {
        &&& valid_address(self.host, self.port)
        &&& self.link matches LinkView::Tls(session) ==> session.well_formed() && session.role
            == Role::Client
    }

    /// The client with another link, and otherwise the same.
    pub open spec fn with_link(self, link: LinkView) -> ClientView {
        ClientView { link, ..self }
    }

    /// The client with another bound on its session's buffers of outgoing
    /// data. Only a session has such buffers: without one the client is the
    /// same.
    pub open spec fn with_limit(self, limit: Option<usize>) -> ClientView {
        match self.link {
            LinkView::Tls(session) => self.with_link(LinkView::Tls(session.with_limit(limit))),
            _ => self,
        }
    }

    /// The client after it has been closed: closed, with its address and its
    /// last response as they were.
    pub open spec fn closed(self) -> ClientView {
        self.with_link(LinkView::Closed)
    }

    /// Whether `farewell` is what this client has to say when it is closed:
    /// with a session, what the session has to say, which for a session that
    /// works is all that it had pending and behind it the notice of the
    /// shutdown; without one, nothing.
    pub open spec fn says_farewell(self, farewell: Seq<u8>) -> bool {
        match self.link {
            LinkView::Tls(session) => session.says_farewell(farewell),
            _ => farewell.len() == 0,
        }
    }
}

impl View for Client {
    type V = ClientView;

    closed spec fn view(&self) -> ClientView {
        ClientView {
            host: self.host@,
            port: self.port,
            link: match self.link {
                Link::New => LinkView::New,
                Link::Plain(inbox) => LinkView::Plain { inbox: inbox.bytes@, ended: inbox.ended },
                Link::Tls(session) => LinkView::Tls(session@),
                Link::Closed => LinkView::Closed,
            },
            last_response: match self.last_response {
                Some(text) => Some(text@),
                None => None,
            },
        }
    }
}

/// The reason given for connecting a client that is connected already.
pub open spec fn already_connected_text() -> Seq<char> {
    "Already connected"@
}

/// The reason given for setting up TLS a second time.
pub open spec fn tls_already_set_up_text() -> Seq<char> {
    "TLS is already set up"@
}

/// What taking note of an opened or unopened transport does. A new client
/// whose transport was opened is connected, with nothing delivered yet; one
/// whose transport could not be opened reports `IoFailed` with the
/// transport's reason. A client that has a transport reports `IoFailed`, a
/// closed one `NotConnected`. On any error the client is as it was.
pub open spec fn connect_result(
    before: ClientView,
    after: ClientView,
    opened: Result<(), Seq<char>>,
    connected: Result<(), EndpointError>,
) -> bool {
    match before.link {
        LinkView::New => match opened {
            Ok(()) => connected is Ok && after == before.with_link(
                LinkView::Plain { inbox: Seq::empty(), ended: false },
            ),
            Err(reason) => after == before && (connected matches Err(e) && e@ == Fault::IoFailed(
                reason,
            )),
        },
        LinkView::Closed => after == before && (connected matches Err(e) && e@
            == Fault::NotConnected),
        _ => after == before && (connected matches Err(e) && e@ == Fault::IoFailed(
            already_connected_text(),
        )),
    }
}

/// What setting up TLS does. Only a connected client can: a new or closed
/// one reports `NotConnected`, one with TLS already `ConfigInvalid`. A
/// connected client gets a fresh client session that expects the server name
/// given, and that only with a trust text that can be used and a name that is
/// one; every error is `ConfigInvalid`. On any error the client is as it was.
pub open spec fn setup_result(
    before: ClientView,
    after: ClientView,
    trust_pem: Seq<u8>,
    server_name: Seq<char>,
    ready: Result<(), EndpointError>,
) -> bool {
    match before.link {
        LinkView::Plain { .. } => match ready {
            Ok(()) => usable_trust(trust_pem) && is_server_name(server_name) && (
            after.link matches LinkView::Tls(session) && session.fresh(Role::Client)
                && session.server_name == Some(server_name)) && after == before.with_link(
                after.link,
            ),
            Err(e) => e@ is ConfigInvalid && after == before,
        },
        LinkView::Tls(_) => after == before && (ready matches Err(e) && e@
            == Fault::ConfigInvalid(tls_already_set_up_text())),
        _ => after == before && (ready matches Err(e) && e@ == Fault::NotConnected),
    }
}

/// What a step of sending does to a client whose link is `link` when the
/// step is taken. Without a transport the result is `NotConnected`. On a
/// transport without TLS nothing is ever left to do. With TLS the session
/// takes a step of its write.
pub open spec fn send_step_result(
    before: ClientView,
    link: LinkView,
    after: ClientView,
    polled: Result<Poll, EndpointError>,
) -> bool {
    match link {
        LinkView::Plain { .. } => after == before.with_link(link) && polled matches Ok(
            Poll::Ready(0),
        ),
        LinkView::Tls(session) => (after.link matches LinkView::Tls(later) && write_result(
            session,
            later,
            polled,
        ) && session_kept(session, later)) && after == before.with_link(after.link),
        _ => after == before.with_link(link) && (polled matches Err(e) && e@
            == Fault::NotConnected),
    }
}

/// What beginning to send `data` does. On a transport without TLS the bytes
/// go out as they are, in one `Transmit`, and an empty `data` is complete at
/// once. With TLS, `data` is queued in the session, whole, and the session
/// takes the first step of its write.
pub open spec fn send_result(
    before: ClientView,
    after: ClientView,
    data: Seq<u8>,
    polled: Result<Poll, EndpointError>,
) -> bool {
    match before.link {
        LinkView::Plain { .. } => after == before && if data.len() == 0 {
            polled matches Ok(Poll::Ready(0))
        } else {
            polled matches Ok(Poll::Transmit(bytes)) && bytes@ == data
        },
        LinkView::Tls(session) => send_step_result(
            before,
            LinkView::Tls(session.with_queued(data)),
            after,
            polled,
        ),
        _ => send_step_result(before, before.link, after, polled),
    }
}

/// What supplying `input` does. Without a transport the result is
/// `NotConnected`. Without TLS the bytes are kept, behind those kept
/// already, for `receive`; with TLS they are kept in the session. An empty
/// `input` marks the end of the transport.
pub open spec fn supply_result(
    before: ClientView,
    after: ClientView,
    input: Seq<u8>,
    taken: Result<(), EndpointError>,
) -> bool {
    match before.link {
        LinkView::Plain { inbox, ended } => taken is Ok && after == before.with_link(
            LinkView::Plain { inbox: inbox + input, ended: ended || input.len() == 0 },
        ),
        LinkView::Tls(session) => after == before.with_link(
            LinkView::Tls(session.with_supplied(input)),
        ) && if session.live() {
            taken is Ok
        } else {
            taken matches Err(e) && e@ == session.refusal()
        },
        _ => after == before && (taken matches Err(e) && e@ == Fault::NotConnected),
    }
}

/// The last response after a reception: the text of what was received, bad
/// sequences replaced, where anything was received, and what it was before
/// where nothing was.
pub open spec fn response_after(
    earlier: Option<Seq<char>>,
    filled: Seq<u8>,
    polled: Result<Poll, EndpointError>,
) -> Option<Seq<char>> {
    match polled {
        Ok(Poll::Ready(n)) => if 0 < n <= filled.len() {
            Some(utf8_lossy(filled.take(n as int)))
        } else {
            earlier
        },
        _ => earlier,
    }
}

/// What one step of a reception does to a client's link, with the caller's
/// buffer going from `held` to `filled`. Without a transport the result is
/// `NotConnected`. Without TLS, what has been delivered is handed out from
/// the front, as far as the buffer reaches; with nothing there, the reception
/// is zero bytes long once the transport has ended, and asks for input
/// before. With TLS the session takes a step of its read.
pub open spec fn receive_link_result(
    before: LinkView,
    after: LinkView,
    held: Seq<u8>,
    filled: Seq<u8>,
    polled: Result<Poll, EndpointError>,
) -> bool {
    match before {
        LinkView::Plain { inbox, ended } => if inbox.len() > 0 {
            let n = shorter(inbox.len(), held.len());
            &&& polled matches Ok(Poll::Ready(count)) && count == n
            &&& filled == inbox.take(n as int) + held.skip(n as int)
            &&& after == LinkView::Plain { inbox: inbox.skip(n as int), ended }
        } else {
            &&& after == before
            &&& filled == held
            &&& if ended {
                polled matches Ok(Poll::Ready(0))
            } else {
                polled matches Ok(Poll::Receive)
            }
        },
        LinkView::Tls(session) => after matches LinkView::Tls(later) && read_result(
            session,
            later,
            held,
            filled,
            polled,
        ) && session_kept(session, later),
        _ => after == before && filled == held && (polled matches Err(e) && e@
            == Fault::NotConnected),
    }
}

/// What one step of a reception does: the link takes its step, and a
/// reception that is complete and not empty becomes the last response.
pub open spec fn receive_result(
    before: ClientView,
    after: ClientView,
    held: Seq<u8>,
    filled: Seq<u8>,
    polled: Result<Poll, EndpointError>,
) -> bool {
    &&& receive_link_result(before.link, after.link, held, filled, polled)
    &&& after == ClientView {
        link: after.link,
        last_response: response_after(before.last_response, filled, polled),
        ..before
    }
}

/// Moves bytes from the front of `inbox` to the front of `buffer`, as many as
/// there are or as fit.
fn hand_out(inbox: &mut Vec<u8>, buffer: &mut [u8]) -> (count: usize)
    ensures
        count == shorter(old(inbox)@.len(), old(buffer)@.len()),
        final(buffer)@ == old(inbox)@.take(count as int) + old(buffer)@.skip(count as int),
        final(inbox)@ == old(inbox)@.skip(count as int),
{
    let count: usize = if inbox.len() <= buffer.len() {
        inbox.len()
    } else {
        buffer.len()
    };
    let mut i: usize = 0;
    while i < count
        invariant
            i <= count,
            count <= inbox@.len(),
            count <= buffer@.len(),
            inbox@ == old(inbox)@,
            buffer@.len() == old(buffer)@.len(),
            buffer@ =~= old(inbox)@.take(i as int) + old(buffer)@.skip(i as int),
        decreases count - i,
    {
        buffer[i] = inbox[i];
        i = i + 1;
    }
    let rest = inbox.split_off(count);
    *inbox = rest;
    assert(inbox@ =~= old(inbox)@.skip(count as int));
    count
}

impl Client {
    /// A client for the peer at `host` and `port`, without a transport.
    pub fn new(host: String, port: u16) -> (client: Client)
        requires
            valid_address(host@, port),
        ensures
            client@.well_formed(),
            client@ == (ClientView { host: host@, port, link: LinkView::New, last_response: None }),
    {
        Client { host, port, link: Link::New, last_response: None }
    }

    /// The address to open the transport to.
    pub fn address(&self) -> (text: String)
        ensures
            text@ == address_text(self@.host, self@.port),
    {
        endpoint_address(self.host.as_str(), self.port)
    }

    /// Where the client stands.
    pub fn state(&self) -> (state: ClientState)
        ensures
            state == self@.state(),
    {
        match &self.link {
            Link::New => ClientState::New,
            Link::Plain(_) => ClientState::Connected,
            Link::Tls(_) => ClientState::TlsReady,
            Link::Closed => ClientState::Closed,
        }
    }

    /// The text of the last reception that was not empty.
    pub fn get_last_response(&self) -> (text: Option<&String>)
        ensures
            match text {
                Some(text) => self@.last_response == Some(text@),
                None => self@.last_response is None,
            },
    {
        self.last_response.as_ref()
    }

    /// Takes note of how opening the transport went: see [`connect_result`].
    pub fn connect(&mut self, opened: Result<(), String>) -> (connected: Result<(), EndpointError>)
        requires
            old(self)@.well_formed(),
        ensures
            final(self)@.well_formed(),
            connect_result(
                old(self)@,
                final(self)@,
                match opened {
                    Ok(()) => Ok(()),
                    Err(reason) => Err(reason@),
                },
                connected,
            ),
    {
        match &self.link {
            Link::New => match opened {
                Ok(()) => {
                    self.link = Link::Plain(Inbox { bytes: Vec::new(), ended: false });
                    Ok(())
                },
                Err(reason) => Err(EndpointError::IoFailed(reason)),
            },
            Link::Closed => Err(EndpointError::NotConnected),
            _ => Err(EndpointError::IoFailed("Already connected".to_owned())),
        }
    }

    /// Puts a TLS session on the transport: the trust store is made of the
    /// certificates in `trust_pem`, no client certificate is offered, and the
    /// server has to prove `server_name`. See [`setup_result`].
    pub fn setup_tls(&mut self, trust_pem: &[u8], server_name: &str) -> (ready: Result<
        (),
        EndpointError,
    >)
        requires
            old(self)@.well_formed(),
        ensures
            final(self)@.well_formed(),
            setup_result(old(self)@, final(self)@, trust_pem@, server_name@, ready),
    {
        match &self.link {
            Link::Plain(_) => {},
            Link::Tls(_) => {
                return Err(EndpointError::ConfigInvalid("TLS is already set up".to_owned()));
            },
            _ => {
                return Err(EndpointError::NotConnected);
            },
        }
        let roots = match load_root_store_from_cert(trust_pem) {
            Ok(roots) => roots,
            Err(error) => {
                return Err(error);
            },
        };
        match Session::client(roots, server_name) {
            Ok(session) => {
                self.link = Link::Tls(session);
                Ok(())
            },
            Err(error) => Err(error),
        }
    }

    /// Sets the bound on the session's buffers of outgoing data, or lifts it
    /// with `None`: the session has that bound from now on, and nothing else
    /// of the client changes. Without a session there is nothing to bound, and
    /// nothing happens; a session that is set up later has its own bound.
    pub fn set_buffer_limit(&mut self, limit: Option<usize>)
        requires
            old(self)@.well_formed(),
        ensures
            final(self)@.well_formed(),
            final(self)@ == old(self)@.with_limit(limit),
    {
        match &mut self.link {
            Link::Tls(session) => session.set_buffer_limit(limit),
            _ => {},
        }
    }

    /// Begins to send `data` and takes the first step: see [`send_result`].
    /// The sending is complete with `Ready`; any other result is to be
    /// followed by [`Client::resume_send`].
    pub fn send(&mut self, data: &[u8]) -> (polled: Result<Poll, EndpointError>)
        requires
            old(self)@.well_formed(),
        ensures
            final(self)@.well_formed(),
            send_result(old(self)@, final(self)@, data@, polled),
    {
        match &mut self.link {
            Link::Plain(_) => if data.len() == 0 {
                Ok(Poll::Ready(0))
            } else {
                Ok(Poll::Transmit(vstd::slice::slice_to_vec(data)))
            },
            Link::Tls(session) => {
                session.queue(data);
                session.write()
            },
            _ => Err(EndpointError::NotConnected),
        }
    }

    /// Takes the next step of the sending that `send` began: see
    /// [`send_step_result`]. With TLS the sending is complete, `Ready(0)`, when
    /// nothing is queued and no record is pending.
    pub fn resume_send(&mut self) -> (polled: Result<Poll, EndpointError>)
        requires
            old(self)@.well_formed(),
        ensures
            final(self)@.well_formed(),
            send_step_result(old(self)@, old(self)@.link, final(self)@, polled),
    {
        match &mut self.link {
            Link::Plain(_) => Ok(Poll::Ready(0)),
            Link::Tls(session) => session.write(),
            _ => Err(EndpointError::NotConnected),
        }
    }

    /// Hands over what was read from the transport; an empty `input` says
    /// that the transport has reached its end. See [`supply_result`].
    pub fn supply(&mut self, input: &[u8]) -> (taken: Result<(), EndpointError>)
        requires
            old(self)@.well_formed(),
        ensures
            final(self)@.well_formed(),
            supply_result(old(self)@, final(self)@, input@, taken),
    {
        match &mut self.link {
            Link::Plain(inbox) => {
                inbox.bytes.extend_from_slice(input);
                if input.len() == 0 {
                    inbox.ended = true;
                }
                assert(inbox.bytes@ =~= old(self)@.link->Plain_inbox + input@);
                Ok(())
            },
            Link::Tls(session) => session.supply(input),
            _ => Err(EndpointError::NotConnected),
        }
    }

    /// One step of a reception into `buffer`: see [`receive_result`].
    /// `Ready(n)` ends the reception with `n` bytes at the front of `buffer`;
    /// where `n` is not zero, their text becomes the last response. A
    /// reception of zero bytes, and every other result, leaves the last
    /// response as it was.
    pub fn receive(&mut self, buffer: &mut [u8]) -> (polled: Result<Poll, EndpointError>)
        requires
            old(self)@.well_formed(),
        ensures
            final(self)@.well_formed(),
            final(buffer)@.len() == old(buffer)@.len(),
            polled matches Ok(Poll::Ready(n)) ==> n <= final(buffer)@.len(),
            receive_result(old(self)@, final(self)@, old(buffer)@, final(buffer)@, polled),
    {
        let polled = match &mut self.link {
            Link::Plain(inbox) => if inbox.bytes.len() > 0 {
                Ok(Poll::Ready(hand_out(&mut inbox.bytes, buffer)))
            } else if inbox.ended {
                Ok(Poll::Ready(0))
            } else {
                Ok(Poll::Receive)
            },
            Link::Tls(session) => session.read(buffer),
            _ => Err(EndpointError::NotConnected),
        };
        match &polled {
            Ok(Poll::Ready(n)) => if *n > 0 && *n <= buffer.len() {
                self.last_response = Some(lossy_text(vstd::slice::slice_subrange(buffer, 0, *n)));
            },
            _ => {},
        }
        polled
    }

    /// Closes the client, for good: the session is ended, and its last
    /// records are returned, to be written to the transport before that is
    /// shut: all that the session had pending, and behind it the notice of
    /// the shutdown. Without a session there is nothing to write. Closing
    /// always succeeds, whatever the state, and a closed client stays closed.
    pub fn close(&mut self) -> (farewell: Result<Vec<u8>, EndpointError>)
        requires
            old(self)@.well_formed(),
        ensures
            final(self)@.well_formed(),
            final(self)@ == old(self)@.closed(),
            farewell matches Ok(records) && old(self)@.says_farewell(records@),
    {
        let farewell = match &mut self.link {
            Link::Tls(session) => session.close(),
            _ => Vec::new(),
        };
        self.link = Link::Closed;
        Ok(farewell)
    }
}

/// Closing is idempotent: a client that has been closed is closed, and
/// closing it again changes nothing.
pub proof fn close_is_idempotent(client: ClientView)
    requires
        client.well_formed(),
    ensures
        client.closed().well_formed(),
        client.closed().state() == ClientState::Closed,
        client.closed().closed() == client.closed(),
{
}

/// What is received becomes the last response: after a reception of `n`
/// bytes, `n` not zero, the last response is the text of those bytes, bad
/// sequences replaced; after an empty reception, and after every step that
/// does not complete one, it is what it was.
pub proof fn a_reception_becomes_the_last_response(
    before: ClientView,
    after: ClientView,
    held: Seq<u8>,
    filled: Seq<u8>,
    polled: Result<Poll, EndpointError>,
)
    requires
        receive_result(before, after, held, filled, polled),
        filled.len() == held.len(),
        polled matches Ok(Poll::Ready(n)) ==> n <= filled.len(),
    ensures
        match polled {
            Ok(Poll::Ready(n)) => if n > 0 {
                after.last_response == Some(utf8_lossy(filled.take(n as int)))
            } else {
                after.last_response == before.last_response
            },
            _ => after.last_response == before.last_response,
        },
{
}

/// No state is skipped on the way in: taking note of an opened transport
/// leaves the state as it is or goes from `New` to `Connected`, and setting up
/// TLS leaves it as it is or goes from `Connected` to `TlsReady`.
pub proof fn states_are_not_skipped(
    before: ClientView,
    after: ClientView,
    opened: Result<(), Seq<char>>,
    connected: Result<(), EndpointError>,
    trust_pem: Seq<u8>,
    server_name: Seq<char>,
    ready: Result<(), EndpointError>,
)
    ensures
        connect_result(before, after, opened, connected) ==> after.state() == before.state() || (
        before.state() == ClientState::New && after.state() == ClientState::Connected),
        setup_result(before, after, trust_pem, server_name, ready) ==> after.state()
            == before.state() || (before.state() == ClientState::Connected && after.state()
            == ClientState::TlsReady),
{
}

/// Sending, supplying and receiving leave the state as it is: only `close`
/// leads on from `TlsReady`, and nothing leads back.
pub proof fn transfers_keep_the_state(
    before: ClientView,
    after: ClientView,
    bytes: Seq<u8>,
    filled: Seq<u8>,
    polled: Result<Poll, EndpointError>,
    taken: Result<(), EndpointError>,
)
    ensures
        send_result(before, after, bytes, polled) ==> after.state() == before.state(),
        send_step_result(before, before.link, after, polled) ==> after.state() == before.state(),
        supply_result(before, after, bytes, taken) ==> after.state() == before.state(),
        receive_result(before, after, bytes, filled, polled) ==> after.state() == before.state(),
{
}

} // verus!
