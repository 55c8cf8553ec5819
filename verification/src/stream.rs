//! The secure stream's decisions. A secure stream couples a TLS session with a
//! transport; here the transport is the caller's, so each operation is cut into
//! steps, and these functions say which step comes next from what the session
//! last showed of itself.

use vstd::prelude::*;

verus! {

/// What a stream operation hands back to the caller.
#[derive(Debug, PartialEq, Eq)]
pub enum Poll {
    /// These bytes must be written, all of them, to the transport; then the
    /// operation is to be called again.
    Transmit(Vec<u8>),
    /// The operation cannot go on without input from the transport: the caller
    /// reads from it, supplies what it read, and calls the operation again.
    Receive,
    /// The session has come a step further by itself, and the operation is
    /// to be called again.
    Again,
    /// The operation is complete. For a read this is the number of bytes
    /// delivered, zero after the peer's clean shutdown; for a write or a flush
    /// it is zero.
    Ready(usize),
}

/// What a session shows of itself between two steps.
#[derive(Clone, Copy, Debug, PartialEq, Eq, Structural)]
pub struct Status {
    /// The handshake is not complete.
    pub handshaking: bool,
    /// The session would take more bytes from the transport.
    pub wants_read: bool,
    /// The session holds TLS records that have not been written out.
    pub wants_write: bool,
    /// The bytes of received plaintext that wait to be read.
    pub plaintext: usize,
    /// The peer has shut the session down in good order.
    pub peer_closed: bool,
    /// The transport has reported its end of stream.
    pub end_of_input: bool,
}

/// The next step of a read.
#[derive(Clone, Copy, Debug, PartialEq, Eq, Structural)]
pub enum ReadStep {
    /// Copy buffered plaintext to the caller.
    Deliver,
    /// Move pending TLS records to the transport.
    Transmit,
    /// Hand supplied input to the session.
    Ingest,
    /// Take bytes from the transport.
    Receive,
    /// The peer has closed in good order: the read ends with zero bytes.
    Closed,
    /// The transport ended without the peer's shutdown.
    Truncated,
    /// The session neither holds nor asks for anything.
    Stalled,
}

/// The next step of a write.
#[derive(Clone, Copy, Debug, PartialEq, Eq, Structural)]
pub enum WriteStep {
    /// Move pending TLS records to the transport.
    Transmit,
    /// Hand supplied input to the session, to get on with the handshake.
    Ingest,
    /// Take bytes from the transport, to get on with the handshake.
    Receive,
    /// Hand queued plaintext to the session.
    Accept,
    /// Nothing is queued and nothing is pending: the write is complete.
    Done,
    /// The peer has closed while plaintext was still queued.
    PeerClosed,
    /// The transport ended in the middle of the handshake.
    Truncated,
    /// The handshake is incomplete, and the session asks for nothing.
    Stalled,
}

/// The next step of a flush.
#[derive(Clone, Copy, Debug, PartialEq, Eq, Structural)]
pub enum FlushStep {
    /// Move pending TLS records to the transport.
    Transmit,
    /// Nothing is pending.
    Done,
}

/// The smaller of two lengths.
pub open spec fn shorter(a: nat, b: nat) -> nat {
    if a <= b {
        a
    } else {
        b
    }
}

/// Whether `part` is a front part of `whole`.
pub open spec fn is_front_part(part: Seq<u8>, whole: Seq<u8>) -> bool {
    part.len() <= whole.len() && part =~= whole.take(part.len() as int)
}

/// Whether `part` is an end part of `whole`.
pub open spec fn is_end_part(part: Seq<u8>, whole: Seq<u8>) -> bool {
    part.len() <= whole.len() && part =~= whole.skip(whole.len() - part.len())
}

/// The next step of a read, with `unread` bytes of supplied input that the
/// session has not yet taken: buffered plaintext is delivered before anything
/// else is done; pending records go out before input is taken; a clean
/// shutdown ends the read; supplied input is used up before more is asked
/// for, and more is asked for only while the transport can still give some.
pub open spec fn read_step(status: Status, unread: nat) -> ReadStep {
    if status.plaintext > 0 {
        ReadStep::Deliver
    } else if status.wants_write {
        ReadStep::Transmit
    } else if status.peer_closed {
        ReadStep::Closed
    } else if status.wants_read && unread > 0 {
        ReadStep::Ingest
    } else if status.end_of_input {
        ReadStep::Truncated
    } else if status.wants_read {
        ReadStep::Receive
    } else {
        ReadStep::Stalled
    }
}

/// The next step of a write with `queued` bytes of plaintext and `unread`
/// bytes of supplied input that the session has not yet taken: a write to a
/// peer that has closed fails; pending records go out before more plaintext is
/// handed over; plaintext is handed over only once the handshake is complete,
/// and until then the write gets on with the handshake.
pub open spec fn write_step(status: Status, queued: nat, unread: nat) -> WriteStep {
    if queued > 0 && status.peer_closed {
        WriteStep::PeerClosed
    } else if status.wants_write {
        WriteStep::Transmit
    } else if queued == 0 {
        WriteStep::Done
    } else if !status.handshaking {
        WriteStep::Accept
    } else if status.wants_read && unread > 0 {
        WriteStep::Ingest
    } else if status.end_of_input {
        WriteStep::Truncated
    } else if status.wants_read {
        WriteStep::Receive
    } else {
        WriteStep::Stalled
    }
}

/// The next step of a flush: records go out while there are any. A flush
/// never waits for the peer.
pub open spec fn flush_step(status: Status) -> FlushStep {
    if status.wants_write {
        FlushStep::Transmit
    } else {
        FlushStep::Done
    }
}

/// Decides the next step of a read with `unread` bytes of input supplied and
/// not yet taken.
pub fn plan_read(status: Status, unread: usize) -> (step: ReadStep)
    ensures
        step == read_step(status, unread as nat),
{
    if status.plaintext > 0 {
        ReadStep::Deliver
    } else if status.wants_write {
        ReadStep::Transmit
    } else if status.peer_closed {
        ReadStep::Closed
    } else if status.wants_read && unread > 0 {
        ReadStep::Ingest
    } else if status.end_of_input {
        ReadStep::Truncated
    } else if status.wants_read {
        ReadStep::Receive
    } else {
        ReadStep::Stalled
    }
}

/// Decides the next step of a write with `queued` bytes still to hand over
/// and `unread` bytes of input supplied and not yet taken.
pub fn plan_write(status: Status, queued: usize, unread: usize) -> (step: WriteStep)
    ensures
        step == write_step(status, queued as nat, unread as nat),
{
    if queued > 0 && status.peer_closed {
        WriteStep::PeerClosed
    } else if status.wants_write {
        WriteStep::Transmit
    } else if queued == 0 {
        WriteStep::Done
    } else if !status.handshaking {
        WriteStep::Accept
    } else if status.wants_read && unread > 0 {
        WriteStep::Ingest
    } else if status.end_of_input {
        WriteStep::Truncated
    } else if status.wants_read {
        WriteStep::Receive
    } else {
        WriteStep::Stalled
    }
}

/// Decides the next step of a flush.
pub fn plan_flush(status: Status) -> (step: FlushStep)
    ensures
        step == flush_step(status),
{
    if status.wants_write {
        FlushStep::Transmit
    } else {
        FlushStep::Done
    }
}

/// A read asks the transport for input only when it has nothing to deliver,
/// nothing to send and nothing supplied to use up, and the peer has neither
/// closed nor gone.
pub proof fn read_receives_only_when_idle(status: Status, unread: nat)
    requires
        read_step(status, unread) == ReadStep::Receive,
    ensures
        status.plaintext == 0,
        !status.wants_write,
        !status.peer_closed,
        !status.end_of_input,
        status.wants_read,
        unread == 0,
{
}

/// No plaintext is handed over before the handshake is complete, nor while
/// records are pending: a bound on the session's record buffer is respected
/// by draining it first.
pub proof fn write_accepts_only_when_drained(status: Status, queued: nat, unread: nat)
    requires
        write_step(status, queued, unread) == WriteStep::Accept,
    ensures
        !status.handshaking,
        !status.wants_write,
        !status.peer_closed,
        queued > 0,
{
}

/// A write is complete exactly when nothing is queued and nothing is pending.
pub proof fn write_done_means_all_out(status: Status, queued: nat, unread: nat)
    ensures
        write_step(status, queued, unread) == WriteStep::Done <==> queued == 0
            && !status.wants_write,
{
}

/// An end part of an end part is an end part.
pub proof fn end_part_of_end_part(inner: Seq<u8>, middle: Seq<u8>, whole: Seq<u8>)
    requires
        is_end_part(inner, middle),
        is_end_part(middle, whole),
    ensures
        is_end_part(inner, whole),
{
    let a = middle.len() - inner.len();
    let b = whole.len() - middle.len();
    assert(whole.skip(b).skip(a) =~= whole.skip(a + b));
}

} // verus!
