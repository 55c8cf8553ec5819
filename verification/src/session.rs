//! The TLS session: a `rustls` connection together with what the library
//! knows of it, that is its role, how far it has come, what it last showed of
//! itself, the plaintext that waits to be handed to it, and the input that
//! waits to be handed to it.
//!
//! The session is driven without a transport. `read`, `write` and `flush`
//! each take one step and say in a [`Poll`] what the caller has to do before
//! the next; `queue` takes what is to be written, and `supply` what the
//! caller read from the transport.

use vstd::prelude::*;
use crate::backend::{
    admits_sessions,
    alert_sent,
    buffer_limit,
    buffered_plaintext,
    client_config,
    client_connection,
    expected_name,
    io_error_text,
    is_handshaking,
    is_server_name,
    parse_server_name,
    parsed_name,
    pending_records,
    process_new_packets,
    read_plaintext,
    read_tls,
    send_close_notify,
    server_connection,
    set_buffer_limit,
    tls_error_text,
    wants_read,
    wants_write,
    write_plaintext,
    write_tls,
    IoReport,
};
use crate::error::{EndpointError, Fault, Stage};
use crate::stream::{
    end_part_of_end_part,
    flush_step,
    is_end_part,
    is_front_part,
    plan_flush,
    plan_read,
    plan_write,
    read_step,
    shorter,
    write_step,
    FlushStep,
    Poll,
    ReadStep,
    Status,
    WriteStep,
};

verus! {

/// The side of the connection a session plays.
#[derive(Clone, Copy, Debug, PartialEq, Eq, Structural)]
pub enum Role {
    Client,
    Server,
}

/// How far a session has come. A session only ever moves forward through
/// these, and leaves neither `Closed` nor `Failed`.
#[derive(Clone, Copy, Debug, PartialEq, Eq, Structural)]
pub enum Phase {
    PreHandshake,
    Handshaking,
    Established,
    Closing,
    Closed,
    Failed,
}

/// The place of a phase in the order in which phases follow each other.
pub open spec fn phase_rank(phase: Phase) -> nat {
    match phase {
        Phase::PreHandshake => 0,
        Phase::Handshaking => 1,
        Phase::Established => 2,
        Phase::Closing => 3,
        Phase::Closed => 4,
        Phase::Failed => 5,
    }
}

/// Whether a session may go from `from` to `to`: never backwards, and not at
/// all out of `Closed` or `Failed`.
pub open spec fn phase_follows(from: Phase, to: Phase) -> bool {
    if from == Phase::Closed || from == Phase::Failed {
        to == from
    } else {
        phase_rank(from) <= phase_rank(to)
    }
}

/// The phase that a live session shows by its status: closing once the peer
/// has closed, established once the handshake is complete, and handshaking
/// until then.
pub open spec fn phase_shown(status: Status) -> Phase {
    if status.peer_closed {
        Phase::Closing
    } else if !status.handshaking {
        Phase::Established
    } else {
        Phase::Handshaking
    }
}

/// The phase after a session in `phase` has shown `status`: the later of the
/// two, and `phase` itself once that is `Closed` or `Failed`.
pub open spec fn phase_after(phase: Phase, status: Status) -> Phase {
    if phase_rank(phase_shown(status)) > phase_rank(phase) {
        phase_shown(status)
    } else {
        phase
    }
}

/// The stage to which a failure met in `phase` belongs.
pub open spec fn stage_of(phase: Phase) -> Stage {
    match phase {
        Phase::PreHandshake | Phase::Handshaking => Stage::Handshake,
        Phase::Established => Stage::Data,
        Phase::Closing | Phase::Closed | Phase::Failed => Stage::Close,
    }
}

/// Computes [`phase_after`].
pub fn advance_phase(phase: Phase, status: Status) -> (next: Phase)
    ensures
        next == phase_after(phase, status),
        phase_follows(phase, next),
{
    match phase {
        Phase::Closed | Phase::Failed | Phase::Closing => phase,
        Phase::Established => if status.peer_closed {
            Phase::Closing
        } else {
            phase
        },
        Phase::PreHandshake | Phase::Handshaking => if status.peer_closed {
            Phase::Closing
        } else if !status.handshaking {
            Phase::Established
        } else {
            Phase::Handshaking
        },
    }
}

/// Computes [`stage_of`].
pub fn failure_stage(phase: Phase) -> (stage: Stage)
    ensures
        stage == stage_of(phase),
{
    match phase {
        Phase::PreHandshake | Phase::Handshaking => Stage::Handshake,
        Phase::Established => Stage::Data,
        Phase::Closing | Phase::Closed | Phase::Failed => Stage::Close,
    }
}

/// Phases follow each other in a fixed order: whatever a session shows, and
/// however often, it never comes back to a phase it has left.
pub proof fn phase_order_is_kept(first: Phase, second: Phase, third: Phase)
    requires
        phase_follows(first, second),
        phase_follows(second, third),
    ensures
        phase_follows(first, third),
        phase_follows(first, first),
        third == first ==> second == first,
{
}

/// The text of the failure reported when a transport ends without the peer's
/// shutdown.
pub open spec fn truncated_text() -> Seq<char> {
    "Peer closed connection without sending TLS close_notify"@
}

/// The text of the failure reported when a step could make no progress.
pub open spec fn stalled_text() -> Seq<char> {
    "TLS session made no progress"@
}

/// A TLS session.
pub struct Session {
    conn: rustls::Connection,
    role: Role,
    phase: Phase,
    status: Status,
    queued: Vec<u8>,
    unread: Vec<u8>,
    server_name: Option<String>,
    failure: Option<EndpointError>,
}

/// A session as a mathematical value: all that the library knows of it.
pub struct SessionView {
    /// The side the session plays.
    pub role: Role,
    /// How far the session has come.
    pub phase: Phase,
    /// What the session showed of itself after its last step.
    pub status: Status,
    /// The plaintext that was queued for writing and that the connection has
    /// not yet taken.
    pub queued: Seq<u8>,
    /// The input that was supplied and that the connection has not yet taken.
    pub unread: Seq<u8>,
    /// The plaintext that the connection has received and that has not yet
    /// been read.
    pub plaintext: Seq<u8>,
    /// The TLS records that the connection has made and that have not yet
    /// been moved out.
    pub records: Seq<u8>,
    /// The bound on the connection's buffers of outgoing data; `None` is no
    /// bound.
    pub limit: Option<usize>,
    /// The server name that the session was made to expect, as the caller
    /// wrote it; a server session expects none.
    pub server_name: Option<Seq<char>>,
    /// Whether the connection has sent its last alert, a notice of shutdown
    /// or a fatal alert: it gives no notice after that.
    pub alerted: bool,
    /// The TLS failure that ended the session, if one did.
    pub failure: Option<Fault>,
}

impl SessionView {
    /// The session's invariant. It is in `Failed` exactly when it holds a
    /// failure, and that failure is a TLS failure. While it works, what it last
    /// showed of its buffers is what they hold. Once it is closed, nothing
    /// waits in it.
    pub open spec fn well_formed(self) -> bool {
        &&& self.failure is Some <==> self.phase == Phase::Failed
        &&& self.failure matches Some(fault) ==> fault is TlsFailed
        &&& self.live() ==> self.status.plaintext == self.plaintext.len()
            && self.status.wants_write == (self.records.len() > 0)
        &&& self.phase == Phase::Closed ==> self.queued.len() == 0 && self.unread.len() == 0
    }

    /// Whether the session is as a constructor leaves it: before its
    /// handshake, with nothing queued, supplied or received.
    pub open spec fn fresh(self, role: Role) -> bool {
        &&& self.role == role
        &&& self.phase == Phase::PreHandshake
        &&& self.queued == Seq::<u8>::empty()
        &&& self.unread == Seq::<u8>::empty()
        &&& self.plaintext.len() == 0
        &&& !self.alerted
        &&& self.failure is None
        &&& self.status.plaintext == 0
        &&& !self.status.peer_closed
        &&& !self.status.end_of_input
    }

    /// Whether the session still works: it has neither failed nor been closed.
    pub open spec fn live(self) -> bool {
        self.phase != Phase::Failed && self.phase != Phase::Closed
    }

    /// The failure that an operation on a session that no longer works
    /// reports: the one that ended it, or `NotConnected` once it is closed.
    pub open spec fn refusal(self) -> Fault {
        match self.failure {
            Some(fault) => fault,
            None => Fault::NotConnected,
        }
    }

    /// The session with `data` queued behind what is queued already: a write
    /// is queued whole, never in part. A session that no longer works queues
    /// nothing.
    pub open spec fn with_queued(self, data: Seq<u8>) -> SessionView {
        if self.live() {
            SessionView { queued: self.queued + data, ..self }
        } else {
            self
        }
    }

    /// The session with `input` supplied behind what was supplied before; an
    /// empty `input` marks the end of the transport. A session that no longer
    /// works takes nothing.
    pub open spec fn with_supplied(self, input: Seq<u8>) -> SessionView {
        if self.live() {
            SessionView {
                unread: self.unread + input,
                status: Status {
                    end_of_input: self.status.end_of_input || input.len() == 0,
                    ..self.status
                },
                ..self
            }
        } else {
            self
        }
    }

    /// The session with another bound on its buffers of outgoing data, and
    /// otherwise the same: what waits in it stays, and so do its phase and
    /// what it last showed of itself.
    pub open spec fn with_limit(self, limit: Option<usize>) -> SessionView {
        SessionView { limit, ..self }
    }

    /// Whether `later` is this session after it has been closed: a failed
    /// session stays `Failed`, any other is `Closed`; what was queued or
    /// unread is dropped, and no record is left pending. A closed session is
    /// not touched.
    pub open spec fn closed_to(self, later: SessionView) -> bool {
        if self.phase == Phase::Closed {
            later == self
        } else {
            later == (SessionView { records: Seq::empty(), ..self.closed_to_be() })
        }
    }

    /// This session as closing leaves it, but for the records that are still
    /// to be moved out.
    pub open spec fn closed_to_be(self) -> SessionView {
        SessionView {
            phase: if self.phase == Phase::Failed {
                Phase::Failed
            } else {
                Phase::Closed
            },
            queued: Seq::empty(),
            unread: Seq::empty(),
            alerted: self.alerted || self.phase != Phase::Failed,
            ..self
        }
    }

    /// Whether `farewell` is what this session has to say when it is closed.
    /// A closed session has nothing more to say. A failed one says what it
    /// had pending, which is where its alert stands. Any other says what it
    /// had pending and behind it the notice of the shutdown: the notice is
    /// there wherever the connection has not sent its last alert before, and
    /// where it has, the farewell is what was pending and no more.
    pub open spec fn says_farewell(self, farewell: Seq<u8>) -> bool {
        match self.phase {
            Phase::Closed => farewell.len() == 0,
            Phase::Failed => farewell == self.records,
            _ => is_front_part(self.records, farewell) && if self.alerted {
                farewell == self.records
            } else {
                farewell.len() > self.records.len()
            },
        }
    }
}

impl View for Session {
    type V = SessionView;

    closed spec fn view(&self) -> SessionView {
        SessionView {
            role: self.role,
            phase: self.phase,
            status: self.status,
            queued: self.queued@,
            unread: self.unread@,
            plaintext: buffered_plaintext(self.conn),
            records: pending_records(self.conn),
            limit: buffer_limit(self.conn),
            alerted: alert_sent(self.conn),
            server_name: match self.server_name {
                Some(name) => Some(name@),
                None => None,
            },
            failure: match self.failure {
                Some(error) => Some(error@),
                None => None,
            },
        }
    }
}

/// What every step keeps of a session: its invariant, its role, its bound,
/// the order of its phases, and the order of what waits in it. Nothing is ever
/// put in front of what is queued or unread, and nothing is taken but from
/// the front.
pub open spec fn session_kept(before: SessionView, after: SessionView) -> bool {
    &&& after.well_formed()
    &&& after.role == before.role
    &&& after.limit == before.limit
    &&& phase_follows(before.phase, after.phase)
    &&& is_end_part(after.queued, before.queued)
    &&& is_end_part(after.unread, before.unread)
}

/// What a step that moves pending records out does: a front part of them,
/// not empty, is returned for the transport and is gone from the session.
pub open spec fn transmit_outcome(
    before: SessionView,
    after: SessionView,
    polled: Result<Poll, EndpointError>,
) -> bool {
    &&& after.live()
    &&& after.queued == before.queued
    &&& after.unread == before.unread
    &&& after.plaintext == before.plaintext
    &&& after.alerted == before.alerted
    &&& polled matches Ok(Poll::Transmit(records)) && records@.len() > 0 && records@
        + after.records == before.records
}

/// What a step that delivers plaintext does: the plaintext moves from the
/// front of what the session has received to the front of the caller's
/// buffer, as much as there is or as fits, and the rest of the buffer is as it
/// was.
pub open spec fn deliver_outcome(
    before: SessionView,
    after: SessionView,
    held: Seq<u8>,
    filled: Seq<u8>,
    polled: Result<Poll, EndpointError>,
) -> bool {
    let n = shorter(before.plaintext.len(), held.len());
    &&& after.live()
    &&& after.queued == before.queued
    &&& after.unread == before.unread
    &&& after.records == before.records
    &&& after.alerted == before.alerted
    &&& after.plaintext == before.plaintext.skip(n as int)
    &&& filled == before.plaintext.take(n as int) + held.skip(n as int)
    &&& polled matches Ok(Poll::Ready(count)) && count == n
}

/// Whether a result is the one expected, reason for reason.
pub open spec fn polled_as(polled: Result<Poll, EndpointError>, expected: Result<Poll, Fault>) -> bool {
    match expected {
        Ok(poll) => polled == Ok::<Poll, EndpointError>(poll),
        Err(fault) => polled matches Err(e) && e@ == fault,
    }
}

/// A connection's answer to being handed bytes, as a mathematical value: the
/// count of what it took, or the reason for which it failed.
pub open spec fn answer_of(taken: Result<usize, String>) -> Result<usize, Seq<char>> {
    match taken {
        Ok(n) => Ok(n),
        Err(reason) => Err(reason@),
    }
}

/// A connection's report on working through its input, as a mathematical
/// value: the report, or the reason for which it failed.
pub open spec fn report_of(report: Result<IoReport, String>) -> Result<IoReport, Seq<char>> {
    match report {
        Ok(counted) => Ok(counted),
        Err(reason) => Err(reason@),
    }
}

/// What becomes of queued plaintext, and of the step, once the connection
/// has said how much of it it took. What it took, and no more, is gone from
/// the front of the queue, and the step is to be taken again. Where it took
/// nothing the step has failed, so that no write spins; where it failed, so
/// has the step, with its reason; either way the queue is as it was.
pub open spec fn handed_over(queued: Seq<u8>, taken: Result<usize, Seq<char>>) -> (
    Seq<u8>,
    Result<Poll, Fault>,
) {
    match taken {
        Ok(n) => if 0 < n <= queued.len() {
            (queued.skip(n as int), Ok(Poll::Again))
        } else {
            (queued, Err(Fault::IoFailed(stalled_text())))
        },
        Err(reason) => (queued, Err(Fault::IoFailed(reason))),
    }
}

/// What becomes of supplied input once the connection has said how much of
/// it it took: what it took, and no more, is gone from the front, and the
/// count is passed on. Where it failed the input is as it was.
pub open spec fn taken_in(unread: Seq<u8>, taken: Result<usize, Seq<char>>) -> (
    Seq<u8>,
    Result<usize, Fault>,
) {
    match taken {
        Ok(n) => if n <= unread.len() {
            (unread.skip(n as int), Ok(n))
        } else {
            (unread, Err(Fault::IoFailed(stalled_text())))
        },
        Err(reason) => (unread, Err(Fault::IoFailed(reason))),
    }
}

/// What a session is and says once its connection has worked through input.
#[derive(Debug)]
pub struct Worked {
    /// What the session shows of itself.
    pub status: Status,
    /// The phase it is in.
    pub phase: Phase,
    /// The failure that has ended it, if one has.
    pub failure: Option<EndpointError>,
    /// What the step returns.
    pub polled: Result<Poll, EndpointError>,
}

/// A [`Worked`] as a mathematical value.
pub struct WorkedView {
    pub status: Status,
    pub phase: Phase,
    pub failure: Option<Fault>,
    pub polled: Result<Poll, Fault>,
}

impl View for Worked {
    type V = WorkedView;

    open spec fn view(&self) -> WorkedView {
        WorkedView {
            status: self.status,
            phase: self.phase,
            failure: match self.failure {
                Some(error) => Some(error@),
                None => None,
            },
            polled: match self.polled {
                Ok(poll) => Ok(poll),
                Err(error) => Err(error@),
            },
        }
    }
}

/// What becomes of a session that entered a step in phase `entered` once its
/// connection has worked through the `count` bytes it took and has reported,
/// where `shown` is what the connection shows afterwards. With a report, the
/// session shows what the report counts, goes on to the phase that this
/// shows, and the step is to be taken again; a connection that took nothing
/// has made no progress, and the step has failed. With a failure, the
/// session has failed for good: the failure is a TLS failure with the
/// connection's reason and the stage that the session had reached.
pub open spec fn worked_through(
    count: usize,
    report: Result<IoReport, Seq<char>>,
    entered: Phase,
    shown: Status,
) -> WorkedView {
    match report {
        Ok(counted) => {
            let status = Status {
                plaintext: counted.plaintext_bytes_to_read,
                peer_closed: counted.peer_has_closed,
                ..shown
            };
            WorkedView {
                status,
                phase: phase_after(entered, status),
                failure: None,
                polled: if count > 0 {
                    Ok(Poll::Again)
                } else {
                    Err(Fault::IoFailed(stalled_text()))
                },
            }
        },
        Err(reason) => {
            let fault = Fault::TlsFailed(reason, stage_of(phase_after(entered, shown)));
            WorkedView {
                status: shown,
                phase: Phase::Failed,
                failure: Some(fault),
                polled: Err(fault),
            }
        },
    }
}

/// Whether `shown` differs from `status` at most in what a connection shows
/// by itself: whether it is in its handshake, and whether it would read or
/// write.
pub open spec fn shows_anew(status: Status, shown: Status) -> bool {
    shown == (Status {
        handshaking: shown.handshaking,
        wants_read: shown.wants_read,
        wants_write: shown.wants_write,
        ..status
    })
}

/// What a step that hands supplied input to the connection comes to, where
/// the connection answered `taken` to being handed the input, reported
/// `report` after working through it, and showed `shown` afterwards. What
/// the connection took is gone from the front of the input, and what it
/// decrypted stands behind the plaintext that was there.
pub open spec fn ingest_step(
    before: SessionView,
    after: SessionView,
    polled: Result<Poll, EndpointError>,
    taken: Result<usize, Seq<char>>,
    report: Result<IoReport, Seq<char>>,
    shown: Status,
) -> bool {
    match taken_in(before.unread, taken).1 {
        Err(fault) => after == before && polled_as(polled, Err(fault)),
        Ok(count) => {
            let worked = worked_through(count, report, before.phase, shown);
            &&& shows_anew(before.status, shown)
            &&& after.unread == taken_in(before.unread, taken).0
            &&& after.status == worked.status
            &&& after.phase == worked.phase
            &&& after.failure == worked.failure
            &&& polled_as(polled, worked.polled)
            &&& report is Ok ==> is_front_part(before.plaintext, after.plaintext)
        },
    }
}

/// What a step that hands supplied input to the connection may do: see
/// [`ingest_step`]. What the connection answers is the connection's affair.
pub open spec fn ingest_outcome(
    before: SessionView,
    after: SessionView,
    polled: Result<Poll, EndpointError>,
) -> bool {
    &&& after.queued == before.queued
    &&& exists|taken: Result<usize, Seq<char>>, report: Result<IoReport, Seq<char>>, shown: Status|
     #![trigger ingest_step(before, after, polled, taken, report, shown)]
        ingest_step(before, after, polled, taken, report, shown)
}

/// What a step that hands queued plaintext to the connection may do: the
/// whole queue is handed to the connection, and the queue and the result are
/// what [`handed_over`] makes of the connection's answer. What the session
/// has received is not touched.
pub open spec fn accept_outcome(
    before: SessionView,
    after: SessionView,
    polled: Result<Poll, EndpointError>,
) -> bool {
    &&& after.live()
    &&& after.unread == before.unread
    &&& after.plaintext == before.plaintext
    &&& exists|taken: Result<usize, Seq<char>>| #[trigger]
        accept_step(before, after, polled, taken)
}

/// What a step that hands queued plaintext to the connection comes to, where
/// the connection answered `taken`.
pub open spec fn accept_step(
    before: SessionView,
    after: SessionView,
    polled: Result<Poll, EndpointError>,
    taken: Result<usize, Seq<char>>,
) -> bool {
    &&& after.queued == handed_over(before.queued, taken).0
    &&& polled_as(polled, handed_over(before.queued, taken).1)
}

/// Takes from the front of the queue what the connection took of it, and
/// says what the step comes to: see [`handed_over`].
pub fn after_hand_over(queued: &mut Vec<u8>, taken: Result<usize, String>) -> (polled: Result<
    Poll,
    EndpointError,
>)
    ensures
        final(queued)@ == handed_over(old(queued)@, answer_of(taken)).0,
        polled_as(polled, handed_over(old(queued)@, answer_of(taken)).1),
{
    match taken {
        Ok(n) => if 0 < n && n <= queued.len() {
            let rest = queued.split_off(n);
            *queued = rest;
            assert(queued@ =~= old(queued)@.skip(n as int));
            Ok(Poll::Again)
        } else {
            Err(EndpointError::IoFailed("TLS session made no progress".to_owned()))
        },
        Err(reason) => Err(EndpointError::IoFailed(reason)),
    }
}

/// Takes from the front of the supplied input what the connection took of
/// it, and passes the count on: see [`taken_in`].
pub fn after_taking(unread: &mut Vec<u8>, taken: Result<usize, String>) -> (count: Result<
    usize,
    EndpointError,
>)
    ensures
        final(unread)@ == taken_in(old(unread)@, answer_of(taken)).0,
        match taken_in(old(unread)@, answer_of(taken)).1 {
            Ok(n) => count == Ok::<usize, EndpointError>(n),
            Err(fault) => count matches Err(e) && e@ == fault,
        },
{
    match taken {
        Ok(n) => if n <= unread.len() {
            let rest = unread.split_off(n);
            *unread = rest;
            assert(unread@ =~= old(unread)@.skip(n as int));
            Ok(n)
        } else {
            Err(EndpointError::IoFailed("TLS session made no progress".to_owned()))
        },
        Err(reason) => Err(EndpointError::IoFailed(reason)),
    }
}

/// Says what a session is and returns once its connection has worked through
/// what it took: see [`worked_through`].
pub fn after_processing(
    count: usize,
    report: Result<IoReport, String>,
    entered: Phase,
    shown: Status,
) -> (worked: Worked)
    ensures
        worked@ == worked_through(count, report_of(report), entered, shown),
{
    match report {
        Ok(counted) => {
            let status = Status {
                handshaking: shown.handshaking,
                wants_read: shown.wants_read,
                wants_write: shown.wants_write,
                plaintext: counted.plaintext_bytes_to_read,
                peer_closed: counted.peer_has_closed,
                end_of_input: shown.end_of_input,
            };
            Worked {
                status,
                phase: advance_phase(entered, status),
                failure: None,
                polled: if count > 0 {
                    Ok(Poll::Again)
                } else {
                    Err(EndpointError::IoFailed("TLS session made no progress".to_owned()))
                },
            }
        },
        Err(reason) => {
            let stage = failure_stage(advance_phase(entered, shown));
            let failure = EndpointError::TlsFailed(reason, stage);
            Worked {
                status: shown,
                phase: Phase::Failed,
                failure: Some(failure.duplicate()),
                polled: Err(failure),
            }
        },
    }
}

/// What a step that ends an operation without touching the session does.
pub open spec fn settled(
    before: SessionView,
    after: SessionView,
    polled: Result<Poll, EndpointError>,
    expected: Result<Poll, Fault>,
) -> bool {
    &&& after == before
    &&& match expected {
        Ok(poll) => polled == Ok::<Poll, EndpointError>(poll),
        Err(fault) => polled matches Err(e) && e@ == fault,
    }
}

/// What one step of a read does, with the caller's buffer going from `held`
/// to `filled`. A session that no longer works reports why and is left alone.
/// On a live one the step is decided by [`read_step`] on what the session
/// showed before.
pub open spec fn read_result(
    before: SessionView,
    after: SessionView,
    held: Seq<u8>,
    filled: Seq<u8>,
    polled: Result<Poll, EndpointError>,
) -> bool {
    if !before.live() {
        filled == held && settled(before, after, polled, Err(before.refusal()))
    } else {
        match read_step(before.status, before.unread.len()) {
            ReadStep::Deliver => deliver_outcome(before, after, held, filled, polled),
            ReadStep::Transmit => filled == held && transmit_outcome(before, after, polled),
            ReadStep::Ingest => filled == held && ingest_outcome(before, after, polled),
            ReadStep::Receive => filled == held && settled(
                before,
                after,
                polled,
                Ok(Poll::Receive),
            ),
            ReadStep::Closed => filled == held && settled(
                before,
                after,
                polled,
                Ok(Poll::Ready(0)),
            ),
            ReadStep::Truncated => filled == held && settled(
                before,
                after,
                polled,
                Err(Fault::IoFailed(truncated_text())),
            ),
            ReadStep::Stalled => filled == held && settled(
                before,
                after,
                polled,
                Err(Fault::IoFailed(stalled_text())),
            ),
        }
    }
}

/// What one step of a write does. A session that no longer works reports why
/// and is left alone. On a live one the step is decided by [`write_step`] on
/// what the session showed before.
pub open spec fn write_result(
    before: SessionView,
    after: SessionView,
    polled: Result<Poll, EndpointError>,
) -> bool {
    if !before.live() {
        settled(before, after, polled, Err(before.refusal()))
    } else {
        match write_step(before.status, before.queued.len(), before.unread.len()) {
            WriteStep::PeerClosed => settled(before, after, polled, Err(Fault::ClosedDuringWrite)),
            WriteStep::Transmit => transmit_outcome(before, after, polled),
            WriteStep::Done => settled(before, after, polled, Ok(Poll::Ready(0))),
            WriteStep::Accept => accept_outcome(before, after, polled),
            WriteStep::Ingest => ingest_outcome(before, after, polled),
            WriteStep::Receive => settled(before, after, polled, Ok(Poll::Receive)),
            WriteStep::Truncated => settled(
                before,
                after,
                polled,
                Err(Fault::IoFailed(truncated_text())),
            ),
            WriteStep::Stalled => settled(
                before,
                after,
                polled,
                Err(Fault::IoFailed(stalled_text())),
            ),
        }
    }
}

/// What one step of a flush does. A session that no longer works reports why
/// and is left alone. On a live one the step is decided by [`flush_step`] on
/// the status the session had.
pub open spec fn flush_result(
    before: SessionView,
    after: SessionView,
    polled: Result<Poll, EndpointError>,
) -> bool {
    if !before.live() {
        settled(before, after, polled, Err(before.refusal()))
    } else {
        match flush_step(before.status) {
            FlushStep::Transmit => transmit_outcome(before, after, polled),
            FlushStep::Done => settled(before, after, polled, Ok(Poll::Ready(0))),
        }
    }
}

impl Session {
    /// Whether a connection that was made for `server_name` may be adopted:
    /// it has received nothing and sent no alert yet, and it expects the name
    /// that the text stands for.
    pub open spec fn adoptable(conn: rustls::Connection, server_name: Option<Seq<char>>) -> bool {
        &&& buffered_plaintext(conn).len() == 0
        &&& !alert_sent(conn)
        &&& expected_name(conn) == match server_name {
            Some(text) => parsed_name(text),
            None => None,
        }
    }

    /// A session for the outcome of making a connection for `server_name`:
    /// the session around the connection, which expects that name, or
    /// `ConfigInvalid` with the library's reason.
    pub fn from_connection(
        made: Result<rustls::Connection, rustls::Error>,
        role: Role,
        server_name: Option<String>,
    ) -> (session: Result<Session, EndpointError>)
        requires
            made matches Ok(conn) ==> Session::adoptable(
                conn,
                match server_name {
                    Some(text) => Some(text@),
                    None => None,
                },
            ),
        ensures
            session is Ok <==> made is Ok,
            session matches Ok(s) ==> s@.well_formed() && s@.fresh(role) && s@.server_name
                == match server_name {
                Some(text) => Some(text@),
                None => None,
            },
            session matches Err(e) ==> e@ is ConfigInvalid,
    {
        match made {
            Ok(conn) => {
                let status = Status {
                    handshaking: is_handshaking(&conn),
                    wants_read: wants_read(&conn),
                    wants_write: wants_write(&conn),
                    plaintext: 0,
                    peer_closed: false,
                    end_of_input: false,
                };
                Ok(
                    Session {
                        conn,
                        role,
                        phase: Phase::PreHandshake,
                        status,
                        queued: Vec::new(),
                        unread: Vec::new(),
                        server_name,
                        failure: None,
                    },
                )
            },
            Err(error) => Err(EndpointError::ConfigInvalid(tls_error_text(&error))),
        }
    }

    /// A client session that trusts the given anchors, offers no client
    /// certificate, and expects the server to prove `server_name`: the
    /// connection is made for that name and for no other. A name that is
    /// neither a DNS name nor an IP address is `ConfigInvalid`, and so is
    /// whatever the TLS library refuses.
    pub fn client(roots: rustls::RootCertStore, server_name: &str) -> (session: Result<
        Session,
        EndpointError,
    >)
        ensures
            session matches Ok(s) ==> s@.well_formed() && s@.fresh(Role::Client)
                && s@.server_name == Some(server_name@) && is_server_name(server_name@),
            session matches Err(e) ==> e@ is ConfigInvalid,
            !is_server_name(server_name@) ==> session is Err,
    {
        let config = match client_config(roots) {
            Ok(config) => config,
            Err(error) => {
                return Err(EndpointError::ConfigInvalid(tls_error_text(&error)));
            },
        };
        let name = match parse_server_name(server_name) {
            Ok(name) => name,
            Err(_) => {
                return Err(EndpointError::ConfigInvalid("Invalid server name".to_owned()));
            },
        };
        Session::from_connection(
            client_connection(config, name),
            Role::Client,
            Some(server_name.to_owned()),
        )
    }

    /// A server session on a shared configuration. It expects no name. The
    /// session is made exactly where the configuration admits sessions, which
    /// every configuration does that this library has loaded.
    pub fn server(config: &std::sync::Arc<rustls::ServerConfig>) -> (session: Result<
        Session,
        EndpointError,
    >)
        ensures
            session is Ok <==> admits_sessions(**config),
            session matches Ok(s) ==> s@.well_formed() && s@.fresh(Role::Server)
                && s@.server_name is None,
            session matches Err(e) ==> e@ is ConfigInvalid,
    {
        Session::from_connection(server_connection(config), Role::Server, None)
    }

    /// The server name that the session was made to expect.
    pub fn server_name(&self) -> (name: Option<&String>)
        ensures
            match name {
                Some(text) => self@.server_name == Some(text@),
                None => self@.server_name is None,
            },
    {
        self.server_name.as_ref()
    }

    /// The side this session plays.
    pub fn role(&self) -> (role: Role)
        ensures
            role == self@.role,
    {
        self.role
    }

    /// How far this session has come.
    pub fn phase(&self) -> (phase: Phase)
        ensures
            phase == self@.phase,
    {
        self.phase
    }

    /// What the session showed of itself after its last step.
    pub fn status(&self) -> (status: Status)
        ensures
            status == self@.status,
    {
        self.status
    }

    /// The number of bytes of plaintext queued and not yet taken.
    pub fn queued_len(&self) -> (n: usize)
        ensures
            n == self@.queued.len(),
    {
        self.queued.len()
    }

    /// Whether a write has nothing left to do: nothing is queued and no
    /// record is pending.
    pub fn is_written(&self) -> (done: bool)
        ensures
            done == (self@.live() && write_step(
                self@.status,
                self@.queued.len(),
                self@.unread.len(),
            ) == WriteStep::Done),
    {
        self.phase != Phase::Failed && self.phase != Phase::Closed && self.queued.len() == 0
            && !self.status.wants_write
    }

    /// The number of bytes of input supplied and not yet taken.
    pub fn unread_len(&self) -> (n: usize)
        ensures
            n == self@.unread.len(),
    {
        self.unread.len()
    }

    /// The error for an operation on a session that no longer works.
    fn refuse(&self) -> (error: EndpointError)
        requires
            self@.well_formed(),
            !self@.live(),
        ensures
            error@ == self@.refusal(),
    {
        match &self.failure {
            Some(error) => error.duplicate(),
            None => EndpointError::NotConnected,
        }
    }

    /// Looks at the connection's three flags anew.
    fn note_flags(&mut self)
        requires
            old(self)@.live(),
            old(self)@.failure is None,
            old(self)@.status.plaintext == old(self)@.plaintext.len(),
        ensures
            final(self)@.well_formed(),
            final(self)@.live(),
            final(self)@ == (SessionView {
                phase: final(self)@.phase,
                status: final(self)@.status,
                ..old(self)@
            }),
            final(self)@.phase == phase_after(old(self)@.phase, final(self)@.status),
            phase_follows(old(self)@.phase, final(self)@.phase),
            final(self)@.status.plaintext == old(self)@.status.plaintext,
            final(self)@.status.peer_closed == old(self)@.status.peer_closed,
            final(self)@.status.end_of_input == old(self)@.status.end_of_input,
    {
        self.status.handshaking = is_handshaking(&self.conn);
        self.status.wants_read = wants_read(&self.conn);
        self.status.wants_write = wants_write(&self.conn);
        self.phase = advance_phase(self.phase, self.status);
    }

    /// Takes the TLS records that the connection has ready.
    fn pull(&mut self) -> (polled: Result<Poll, EndpointError>)
        requires
            old(self)@.well_formed(),
            old(self)@.live(),
            old(self)@.status.wants_write,
        ensures
            session_kept(old(self)@, final(self)@),
            transmit_outcome(old(self)@, final(self)@, polled),
    {
        let records = write_tls(&mut self.conn);
        self.note_flags();
        Ok(Poll::Transmit(records))
    }

    /// Hands supplied input to the connection, and lets it work through what
    /// it took.
    fn ingest(&mut self) -> (polled: Result<Poll, EndpointError>)
        requires
            old(self)@.well_formed(),
            old(self)@.live(),
        ensures
            session_kept(old(self)@, final(self)@),
            ingest_outcome(old(self)@, final(self)@, polled),
    {
        let entered = self.phase;
        let taken = match read_tls(&mut self.conn, self.unread.as_slice()) {
            Ok(n) => Ok(n),
            Err(error) => Err(io_error_text(&error)),
        };
        let ghost took = answer_of(taken);
        let count: usize = match after_taking(&mut self.unread, taken) {
            Ok(count) => count,
            Err(error) => {
                assert(ingest_step(
                    old(self)@,
                    self@,
                    Err::<Poll, EndpointError>(error),
                    took,
                    Err(Seq::<char>::empty()),
                    old(self)@.status,
                ));
                return Err(error);
            },
        };
        let report = match process_new_packets(&mut self.conn) {
            Ok(counted) => Ok(counted),
            Err(error) => Err(tls_error_text(&error)),
        };
        let ghost reported = report_of(report);
        let shown = Status {
            handshaking: is_handshaking(&self.conn),
            wants_read: wants_read(&self.conn),
            wants_write: wants_write(&self.conn),
            plaintext: self.status.plaintext,
            peer_closed: self.status.peer_closed,
            end_of_input: self.status.end_of_input,
        };
        let worked = after_processing(count, report, entered, shown);
        self.status = worked.status;
        self.phase = worked.phase;
        self.failure = worked.failure;
        assert(ingest_step(old(self)@, self@, worked.polled, took, reported, shown));
        worked.polled
    }

    /// Moves received plaintext to the caller's buffer.
    fn deliver(&mut self, buffer: &mut [u8]) -> (polled: Result<Poll, EndpointError>)
        requires
            old(self)@.well_formed(),
            old(self)@.live(),
            old(self)@.status.plaintext > 0,
        ensures
            session_kept(old(self)@, final(self)@),
            final(buffer)@.len() == old(buffer)@.len(),
            deliver_outcome(old(self)@, final(self)@, old(buffer)@, final(buffer)@, polled),
    {
        let copied = read_plaintext(&mut self.conn, buffer);
        let n: usize = match copied {
            Ok(n) => n,
            Err(_) => vstd::pervasive::unreached(),
        };
        self.status.plaintext = self.status.plaintext - n;
        self.note_flags();
        Ok(Poll::Ready(n))
    }

    /// Hands queued plaintext to the connection.
    fn hand_over(&mut self) -> (polled: Result<Poll, EndpointError>)
        requires
            old(self)@.well_formed(),
            old(self)@.live(),
        ensures
            session_kept(old(self)@, final(self)@),
            accept_outcome(old(self)@, final(self)@, polled),
    {
        let taken = match write_plaintext(&mut self.conn, self.queued.as_slice()) {
            Ok(n) => Ok(n),
            Err(error) => Err(io_error_text(&error)),
        };
        let ghost took = answer_of(taken);
        self.note_flags();
        let polled = after_hand_over(&mut self.queued, taken);
        assert(accept_step(old(self)@, self@, polled, took));
        polled
    }

    /// Sets the bound on the connection's buffers of outgoing data, or lifts
    /// it with `None`. From now on the session has that bound, whatever its
    /// phase; nothing else of it changes, and what already waits in its
    /// buffers stays there even where it is more than the bound. With a bound,
    /// the connection takes no more plaintext than fits, and a write goes on
    /// step by step as the records are drained.
    pub fn set_buffer_limit(&mut self, limit: Option<usize>)
        requires
            old(self)@.well_formed(),
        ensures
            final(self)@.well_formed(),
            final(self)@ == old(self)@.with_limit(limit),
    {
        set_buffer_limit(&mut self.conn, limit);
    }

    /// Takes bytes that were read from the transport, and keeps them behind
    /// those supplied before, for the steps of `read` and `write` to hand to
    /// the connection; an empty `input` says that the transport has reached
    /// its end. Nothing is decoded here: what the bytes hold shows in the step
    /// that uses them. A session that no longer works takes nothing and
    /// reports why.
    pub fn supply(&mut self, input: &[u8]) -> (taken: Result<(), EndpointError>)
        requires
            old(self)@.well_formed(),
        ensures
            final(self)@.well_formed(),
            final(self)@ == old(self)@.with_supplied(input@),
            if old(self)@.live() {
                taken is Ok
            } else {
                taken matches Err(e) && e@ == old(self)@.refusal()
            },
    {
        if self.phase == Phase::Failed || self.phase == Phase::Closed {
            return Err(self.refuse());
        }
        self.unread.extend_from_slice(input);
        assert(self.unread@ =~= old(self).unread@ + input@);
        if input.len() == 0 {
            self.status.end_of_input = true;
        }
        Ok(())
    }

    /// Queues `data` behind what is queued already, whole. The steps of
    /// [`Session::write`] send it. A session that no longer works queues
    /// nothing.
    pub fn queue(&mut self, data: &[u8])
        requires
            old(self)@.well_formed(),
        ensures
            final(self)@.well_formed(),
            final(self)@ == old(self)@.with_queued(data@),
    {
        if self.phase != Phase::Failed && self.phase != Phase::Closed {
            self.queued.extend_from_slice(data);
            assert(self.queued@ =~= old(self).queued@ + data@);
        }
    }

    /// One step of a read into `buffer`: buffered plaintext is copied to the
    /// front of `buffer` and its length returned in `Ready`; pending records
    /// are returned in `Transmit`; supplied input is handed to the connection,
    /// with `Again` for the next step; after the peer's clean shutdown the read
    /// is `Ready(0)`; where input is needed and none is supplied the result is
    /// `Receive`. A transport that ended without the peer's shutdown, and a
    /// session that asks for nothing, are `IoFailed`.
    pub fn read(&mut self, buffer: &mut [u8]) -> (polled: Result<Poll, EndpointError>)
        requires
            old(self)@.well_formed(),
        ensures
            session_kept(old(self)@, final(self)@),
            final(self)@.queued == old(self)@.queued,
            final(buffer)@.len() == old(buffer)@.len(),
            read_result(old(self)@, final(self)@, old(buffer)@, final(buffer)@, polled),
    {
        if self.phase == Phase::Failed || self.phase == Phase::Closed {
            return Err(self.refuse());
        }
        match plan_read(self.status, self.unread.len()) {
            ReadStep::Deliver => self.deliver(buffer),
            ReadStep::Transmit => self.pull(),
            ReadStep::Ingest => self.ingest(),
            ReadStep::Receive => Ok(Poll::Receive),
            ReadStep::Closed => Ok(Poll::Ready(0)),
            ReadStep::Truncated => Err(
                EndpointError::IoFailed(
                    "Peer closed connection without sending TLS close_notify".to_owned(),
                ),
            ),
            ReadStep::Stalled => Err(
                EndpointError::IoFailed("TLS session made no progress".to_owned()),
            ),
        }
    }

    /// One step of a write of what is queued. The write is complete,
    /// `Ready(0)`, when nothing is queued and no record is pending. `Transmit`
    /// carries records for the transport. Where queued plaintext is handed to
    /// the connection, or supplied input to get on with the handshake, the
    /// result is `Again`. A peer that has closed while plaintext is queued is
    /// `ClosedDuringWrite`.
    pub fn write(&mut self) -> (polled: Result<Poll, EndpointError>)
        requires
            old(self)@.well_formed(),
        ensures
            session_kept(old(self)@, final(self)@),
            write_result(old(self)@, final(self)@, polled),
    {
        if self.phase == Phase::Failed || self.phase == Phase::Closed {
            return Err(self.refuse());
        }
        match plan_write(self.status, self.queued.len(), self.unread.len()) {
            WriteStep::PeerClosed => Err(EndpointError::ClosedDuringWrite),
            WriteStep::Transmit => self.pull(),
            WriteStep::Done => Ok(Poll::Ready(0)),
            WriteStep::Accept => self.hand_over(),
            WriteStep::Ingest => self.ingest(),
            WriteStep::Receive => Ok(Poll::Receive),
            WriteStep::Truncated => Err(
                EndpointError::IoFailed(
                    "Peer closed connection without sending TLS close_notify".to_owned(),
                ),
            ),
            WriteStep::Stalled => Err(
                EndpointError::IoFailed("TLS session made no progress".to_owned()),
            ),
        }
    }

    /// One step of a flush: pending records are returned in `Transmit`, and
    /// with none pending the flush is complete, `Ready(0)`. A flush never asks
    /// for input and never uses any.
    pub fn flush(&mut self) -> (polled: Result<Poll, EndpointError>)
        requires
            old(self)@.well_formed(),
        ensures
            session_kept(old(self)@, final(self)@),
            final(self)@.queued == old(self)@.queued,
            final(self)@.unread == old(self)@.unread,
            !(polled matches Ok(Poll::Receive)),
            !(polled matches Ok(Poll::Again)),
            flush_result(old(self)@, final(self)@, polled),
    {
        if self.phase == Phase::Failed || self.phase == Phase::Closed {
            return Err(self.refuse());
        }
        match plan_flush(self.status) {
            FlushStep::Transmit => self.pull(),
            FlushStep::Done => Ok(Poll::Ready(0)),
        }
    }

    /// Ends the session and returns its last records for the transport: all
    /// that was pending, and behind it the notice of the shutdown, where the
    /// connection can still give one. Nothing is left pending. What is still
    /// queued or unread is dropped. A failed session stays `Failed`; any other
    /// is `Closed` afterwards. A closed session has nothing more to say.
    pub fn close(&mut self) -> (farewell: Vec<u8>)
        requires
            old(self)@.well_formed(),
        ensures
            final(self)@.well_formed(),
            old(self)@.closed_to(final(self)@),
            old(self)@.says_farewell(farewell@),
    {
        let mut farewell: Vec<u8> = Vec::new();
        if self.phase == Phase::Closed {
            return farewell;
        }
        self.queued = Vec::new();
        self.unread = Vec::new();
        if self.phase != Phase::Failed {
            send_close_notify(&mut self.conn);
            self.phase = Phase::Closed;
        }
        let ghost last = self@.records;
        while wants_write(&self.conn)
            invariant
                farewell@ + self@.records == last,
                self@ == (SessionView { records: self@.records, ..old(self)@.closed_to_be() }),
            decreases self@.records.len(),
        {
            let mut records = write_tls(&mut self.conn);
            assert((farewell@ + records@) + self@.records =~= farewell@ + (records@
                + self@.records));
            farewell.append(&mut records);
        }
        assert(farewell@ =~= last);
        assert(self@.records =~= Seq::<u8>::empty());
        farewell
    }
}

/// A flush that is complete has left nothing pending.
pub proof fn a_complete_flush_leaves_nothing_pending(
    before: SessionView,
    after: SessionView,
    polled: Result<Poll, EndpointError>,
)
    requires
        before.well_formed(),
        flush_result(before, after, polled),
        polled matches Ok(Poll::Ready(_)),
    ensures
        after == before,
        after.live(),
        after.records.len() == 0,
{
}

/// A write that is complete has sent everything: nothing is queued, and no
/// record is pending.
pub proof fn a_complete_write_has_sent_everything(
    before: SessionView,
    after: SessionView,
    polled: Result<Poll, EndpointError>,
)
    requires
        before.well_formed(),
        write_result(before, after, polled),
        polled matches Ok(Poll::Ready(_)),
    ensures
        after == before,
        after.live(),
        after.queued.len() == 0,
        after.records.len() == 0,
{
}

/// What a read delivers is what the session had received, from the front and
/// in order: together with what is left it is what was there, and nothing of
/// it is lost.
pub proof fn delivery_keeps_the_order(
    before: SessionView,
    after: SessionView,
    held: Seq<u8>,
    filled: Seq<u8>,
    polled: Result<Poll, EndpointError>,
)
    requires
        before.well_formed(),
        read_result(before, after, held, filled, polled),
        polled matches Ok(Poll::Ready(n)) && n > 0,
    ensures
        polled matches Ok(Poll::Ready(n)) && n <= held.len() && n <= before.plaintext.len()
            && filled.take(n as int) + after.plaintext == before.plaintext && filled.skip(
            n as int,
        ) == held.skip(n as int),
{
    let n = shorter(before.plaintext.len(), held.len());
    assert(filled.take(n as int) =~= before.plaintext.take(n as int));
    assert(before.plaintext.take(n as int) + before.plaintext.skip(n as int)
        =~= before.plaintext);
    assert(filled.skip(n as int) =~= held.skip(n as int));
}

/// A read is zero bytes long only where there is nothing to read into or
/// where the peer has closed in good order: zero bytes never stand for data
/// that is still to come.
pub proof fn an_empty_read_is_the_end(
    before: SessionView,
    after: SessionView,
    held: Seq<u8>,
    filled: Seq<u8>,
    polled: Result<Poll, EndpointError>,
)
    requires
        before.well_formed(),
        read_result(before, after, held, filled, polled),
        polled matches Ok(Poll::Ready(n)) && n == 0,
        held.len() > 0,
    ensures
        before.status.peer_closed,
        before.plaintext.len() == 0,
        after == before,
{
}

/// No step spins: whenever a read or a write asks to be called again without
/// anything for the transport to do, something that waited in the session has
/// been taken, and nothing has been added.
pub proof fn again_means_progress(
    before: SessionView,
    after: SessionView,
    held: Seq<u8>,
    filled: Seq<u8>,
    polled: Result<Poll, EndpointError>,
)
    requires
        read_result(before, after, held, filled, polled) || write_result(before, after, polled),
        polled matches Ok(Poll::Again),
    ensures
        after.queued.len() + after.unread.len() < before.queued.len() + before.unread.len(),
        after.queued.len() <= before.queued.len(),
        after.unread.len() <= before.unread.len(),
{
}

/// Nothing that was received is lost or overtaken: a step that asks to be
/// called again leaves what the session had received where it was, at the
/// front, and puts what it has decrypted behind it.
pub proof fn plaintext_keeps_its_place(
    before: SessionView,
    after: SessionView,
    held: Seq<u8>,
    filled: Seq<u8>,
    polled: Result<Poll, EndpointError>,
)
    requires
        read_result(before, after, held, filled, polled) || write_result(before, after, polled),
        polled matches Ok(Poll::Again),
    ensures
        is_front_part(before.plaintext, after.plaintext),
{
}

/// No plaintext leaves before the handshake is complete: while a session
/// shows an incomplete handshake, a step of its write hands none of what is
/// queued to the connection, and never says that the write is complete.
pub proof fn nothing_is_sent_before_the_handshake(
    before: SessionView,
    after: SessionView,
    polled: Result<Poll, EndpointError>,
)
    requires
        before.well_formed(),
        before.status.handshaking,
        before.queued.len() > 0,
        write_result(before, after, polled),
    ensures
        after.queued == before.queued,
        !(polled matches Ok(Poll::Ready(_))),
{
}

/// A TLS failure met while the handshake is incomplete is a failure of the
/// handshake stage.
pub proof fn handshake_failures_have_their_stage(
    before: SessionView,
    after: SessionView,
    polled: Result<Poll, EndpointError>,
)
    requires
        ingest_outcome(before, after, polled),
        before.phase == Phase::PreHandshake || before.phase == Phase::Handshaking,
        after.status.handshaking,
        !after.status.peer_closed,
    ensures
        polled matches Err(e) ==> (e@ matches Fault::TlsFailed(_, stage) ==> stage
            == Stage::Handshake),
{
}

/// A close is clean: a session that works and whose connection has not sent
/// its last alert says more at its end than it had pending, which is the
/// notice of the shutdown, behind all that was pending; and once it is
/// closed it has nothing more to say.
pub proof fn a_close_gives_notice(
    session: SessionView,
    closed: SessionView,
    farewell: Seq<u8>,
    again: Seq<u8>,
)
    requires
        session.well_formed(),
        session.live(),
        !session.alerted,
        session.closed_to(closed),
        session.says_farewell(farewell),
        closed.says_farewell(again),
    ensures
        farewell.len() > session.records.len(),
        farewell.len() > 0,
        is_front_part(session.records, farewell),
        closed.records.len() == 0,
        closed.alerted,
        again.len() == 0,
{
}

/// A session that has just been made gives notice when it is closed.
pub proof fn a_new_session_can_give_notice(session: SessionView, role: Role, farewell: Seq<u8>)
    requires
        session.well_formed(),
        session.fresh(role),
        session.says_farewell(farewell),
    ensures
        farewell.len() > session.records.len(),
{
}

/// Closing is idempotent: no session is live after it has been closed, and
/// closing it again leaves it in its phase, with nothing waiting in it.
pub proof fn closing_twice_is_closing_once(
    session: SessionView,
    once: SessionView,
    twice: SessionView,
)
    requires
        session.well_formed(),
        session.closed_to(once),
        once.closed_to(twice),
    ensures
        once.well_formed(),
        !once.live(),
        phase_follows(session.phase, once.phase),
        twice.phase == once.phase,
        twice.queued == once.queued,
        twice.unread == once.unread,
        twice.failure == once.failure,
        once.phase == Phase::Closed ==> twice == once,
{
}

/// Every step follows the order of the phases: if one step after another
/// keeps the session, so do both together.
pub proof fn steps_keep_the_session(first: SessionView, second: SessionView, third: SessionView)
    requires
        session_kept(first, second),
        session_kept(second, third),
    ensures
        session_kept(first, third),
{
    end_part_of_end_part(third.queued, second.queued, first.queued);
    end_part_of_end_part(third.unread, second.unread, first.unread);
}

} // verus!
