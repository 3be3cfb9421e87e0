//! A connection over a local socket and the listener that accepts
//! connections, without the socket.
//!
//! Whoever owns the socket makes the calls on it and hands each outcome to
//! the functions in here. They say what the outcome means for one attempt of
//! an operation: a result, nothing yet, or a failure. What follows an
//! attempt is decided by [`crate::ipc::retry::try_fcn_timeout`].

use vstd::prelude::*;
use interprocess::os::unix::udsocket::AncillaryData;
use crate::ipc::io_error::IoErrorKind;
use crate::ipc::ipc_commands::{
    decode_command, decode_result, encode_command, encode_result, lemma_command_has_fixed_length,
    lemma_command_round_trip, lemma_result_has_fixed_length, lemma_result_round_trip, CommandMsg,
    CommandMsgView, ProtocolError, ResultMsg, COMMAND_MSG_LEN, RESULT_MSG_LEN,
};
use crate::ipc::retry::{spec_try_fcn_timeout, RetryStep};
use crate::ipc::span::Span;

verus! {

/// The byte that is sent as an acknowledgement.
pub const ACK_BYTE: u8 = 1;

/// The bytes that travel in band with a list of handles.
pub const HANDLE_MARKER_LEN: usize = 4;

/// The most handles that can be asked for at once: the buffer for more could
/// not be sized.
pub const MAX_HANDLE_COUNT: usize = (usize::MAX - 16) / 4;

/// One end of a connection: the peer's process identifier and the timeout of
/// every receive on it.
#[derive(Debug, PartialEq, Eq)]
pub struct IPCConnection {
    pub proc_id: i32,
    pub timeout: Span,
}

/// A listener: the connections it has accepted, oldest first, and the
/// timeout that it and they work with.
#[derive(Debug, PartialEq, Eq)]
pub struct IPCSocket {
    pub connections: Vec<IPCConnection>,
    pub timeout: Span,
}

/// The bytes of one record as they come in, possibly in pieces.
#[derive(Debug, PartialEq, Eq)]
pub struct MessageReceiver {
    /// The bytes of a whole record.
    pub expected: usize,
    /// The bytes that have come in.
    pub bytes: Vec<u8>,
}

/// The handles of one transfer of handles as they come in, possibly in
/// pieces.
#[derive(Debug, PartialEq, Eq)]
pub struct AncillaryReceiver {
    /// The handles that are waited for.
    pub expected: usize,
    /// The size in bytes of the buffer to receive each piece in.
    pub buffer_size: usize,
    /// The handles that have come in.
    pub handles: Vec<i32>,
}

/// `interprocess::os::unix::udsocket::AncillaryData::encoded_size_of_file_descriptors`:
/// the bytes that a control message with `num_descriptors` file descriptors
/// takes. The function adds the size of the control message's header to four
/// bytes for each descriptor. The header's size depends on the platform; the
/// contract claims that it is between 12 and 16 bytes, and leaves out the
/// counts for which the sum could not be held.
#[verifier::external_body]
fn encoded_size_of_file_descriptors(num_descriptors: usize) -> (size: usize)
    requires
        4 * num_descriptors + 16 <= usize::MAX,
    ensures
        4 * num_descriptors + 12 <= size <= 4 * num_descriptors + 16,
{
    AncillaryData::encoded_size_of_file_descriptors(num_descriptors)
}

/// What one attempt to connect comes to: a connection when it succeeded,
/// nothing yet when the listener is not there yet, a failure otherwise. The
/// peer's process identifier is not looked up and is recorded as 0.
pub open spec fn spec_try_connect(
    connected: Result<(), IoErrorKind>,
    timeout: Span,
) -> Result<Option<IPCConnection>, IoErrorKind> {
    match connected {
        Ok(_) => Ok(Some(IPCConnection { proc_id: 0, timeout })),
        Err(kind) => if kind.spec_connect_may_retry() {
            Ok(None)
        } else {
            Err(kind)
        },
    }
}

/// What reading `read_count` bytes comes to for a receiver that waits for an
/// acknowledgement: the acknowledgement when a byte came, nothing when none
/// did.
pub open spec fn spec_recv_ack(read_count: usize) -> Option<()> {
    if read_count == 0 {
        None
    } else {
        Some(())
    }
}

impl IPCConnection {
    /// The connection to the process `proc_id`, with `timeout` for every
    /// receive on it.
    pub fn new(proc_id: i32, timeout: Span) -> (connection: IPCConnection)
        ensures
            connection == (IPCConnection { proc_id, timeout }),
    {
        IPCConnection { proc_id, timeout }
    }

    /// Says what one attempt to connect comes to.
    pub fn try_connect(connected: Result<(), IoErrorKind>, timeout: Span) -> (attempt: Result<
        Option<IPCConnection>,
        IoErrorKind,
    >)
        ensures
            attempt == spec_try_connect(connected, timeout),
    {
        match connected {
            Ok(_) => Ok(Some(IPCConnection::new(0, timeout))),
            Err(kind) => {
                if kind.connect_may_retry() {
                    Ok(None)
                } else {
                    Err(kind)
                }
            },
        }
    }

    /// The bytes to send in band with `handles`: four bytes of value 1, or
    /// nothing at all when there are no handles, for then nothing is sent.
    pub fn send_anillary_handles(&self, handles: &[i32]) -> (marker: Vec<u8>)
        ensures
            marker@ == if handles@.len() == 0 {
                Seq::<u8>::empty()
            } else {
                seq![1u8, 1u8, 1u8, 1u8]
            },
            handles@.len() != 0 ==> marker@.len() == HANDLE_MARKER_LEN,
    {
        let mut marker: Vec<u8> = Vec::new();
        if handles.len() != 0 {
            marker.push(1);
            marker.push(1);
            marker.push(1);
            marker.push(1);
            assert(marker@ =~= seq![1u8, 1u8, 1u8, 1u8]);
        }
        marker
    }

    /// Starts to receive `handle_count` handles. The receiver says how large
    /// a buffer each piece needs. There is none for a count beyond
    /// [`MAX_HANDLE_COUNT`].
    pub fn recv_ancillary(&self, handle_count: usize) -> (receiver: Option<AncillaryReceiver>)
        ensures
            receiver.is_some() <==> handle_count <= MAX_HANDLE_COUNT,
            receiver matches Some(r) ==> {
                &&& r.expected == handle_count
                &&& r.handles@ == Seq::<i32>::empty()
                &&& 4 * handle_count + 12 <= r.buffer_size <= 4 * handle_count + 16
            },
    {
        if handle_count > MAX_HANDLE_COUNT {
            None
        } else {
            let buffer_size = encoded_size_of_file_descriptors(handle_count);
            Some(AncillaryReceiver { expected: handle_count, buffer_size, handles: Vec::new() })
        }
    }

    /// The bytes to send for `command_msg`.
    pub fn send_command(&self, command_msg: &CommandMsg) -> (bytes: Vec<u8>)
        ensures
            bytes@ == encode_command(command_msg@),
            bytes@.len() == COMMAND_MSG_LEN,
    {
        command_msg.encode()
    }

    /// The bytes to send for `result_msg`.
    pub fn send_result(&self, result_msg: &ResultMsg) -> (bytes: Vec<u8>)
        ensures
            bytes@ == encode_result(*result_msg),
            bytes@.len() == RESULT_MSG_LEN,
    {
        result_msg.encode()
    }

    /// A receiver for the bytes of one command.
    pub fn command_receiver(&self) -> (receiver: MessageReceiver)
        ensures
            receiver.expected == COMMAND_MSG_LEN,
            receiver.bytes@ == Seq::<u8>::empty(),
            receiver.wf(),
    {
        MessageReceiver { expected: COMMAND_MSG_LEN, bytes: Vec::new() }
    }

    /// A receiver for the bytes of one result.
    pub fn result_receiver(&self) -> (receiver: MessageReceiver)
        ensures
            receiver.expected == RESULT_MSG_LEN,
            receiver.bytes@ == Seq::<u8>::empty(),
            receiver.wf(),
    {
        MessageReceiver { expected: RESULT_MSG_LEN, bytes: Vec::new() }
    }

    /// The command that has been received: none while bytes are missing,
    /// which is what is left when the timeout ran out before the last of
    /// them; otherwise the command that the bytes stand for, or the reason
    /// why they stand for none.
    pub fn recv_command(&self, receiver: &MessageReceiver) -> (msg: Result<
        Option<CommandMsg>,
        ProtocolError,
    >)
        ensures
            match msg {
                Ok(None) => receiver.bytes@.len() < receiver.expected,
                Ok(Some(m)) => receiver.bytes@.len() >= receiver.expected && decode_command(
                    receiver.bytes@,
                ) == Ok::<CommandMsgView, ProtocolError>(m@),
                Err(e) => receiver.bytes@.len() >= receiver.expected && decode_command(
                    receiver.bytes@,
                ) == Err::<CommandMsgView, ProtocolError>(e),
            },
    {
        if receiver.bytes.len() < receiver.expected {
            Ok(None)
        } else {
            match CommandMsg::decode(receiver.bytes.as_slice()) {
                Ok(m) => Ok(Some(m)),
                Err(e) => Err(e),
            }
        }
    }

    /// The result that has been received: none while bytes are missing;
    /// otherwise the result that the bytes stand for, or the reason why they
    /// stand for none.
    pub fn recv_result(&self, receiver: &MessageReceiver) -> (msg: Result<
        Option<ResultMsg>,
        ProtocolError,
    >)
        ensures
            msg == if receiver.bytes@.len() < receiver.expected {
                Ok::<Option<ResultMsg>, ProtocolError>(None)
            } else {
                match decode_result(receiver.bytes@) {
                    Ok(m) => Ok(Some(m)),
                    Err(e) => Err(e),
                }
            },
    {
        if receiver.bytes.len() < receiver.expected {
            Ok(None)
        } else {
            match ResultMsg::decode(receiver.bytes.as_slice()) {
                Ok(m) => Ok(Some(m)),
                Err(e) => Err(e),
            }
        }
    }

    /// The bytes to send as an acknowledgement: one byte of value 1.
    pub fn send_ack(&self) -> (bytes: Vec<u8>)
        ensures
            bytes@ == seq![ACK_BYTE],
    {
        let mut bytes: Vec<u8> = Vec::new();
        bytes.push(ACK_BYTE);
        assert(bytes@ =~= seq![ACK_BYTE]);
        bytes
    }

    /// Says what reading `read_count` bytes comes to for a receiver that
    /// waits for an acknowledgement.
    pub fn recv_ack(&self, read_count: usize) -> (ack: Option<()>)
        ensures
            ack == spec_recv_ack(read_count),
    {
        if read_count == 0 {
            None
        } else {
            Some(())
        }
    }
}

impl MessageReceiver {
    /// No more bytes have come in than a record has.
    pub open spec fn wf(&self) -> bool {
        self.bytes@.len() <= self.expected
    }

    /// The bytes that a piece of `chunk_len` bytes adds to a record of which
    /// `have` of `expected` bytes are there: all of them, or as many as are
    /// missing.
    pub open spec fn taken(expected: int, have: int, chunk_len: int) -> int {
        if chunk_len <= expected - have {
            chunk_len
        } else {
            expected - have
        }
    }

    /// The bytes that are there after a piece has come in.
    pub open spec fn after_read(expected: int, have: Seq<u8>, chunk: Seq<u8>) -> Seq<u8> {
        have + chunk.subrange(0, Self::taken(expected, have.len() as int, chunk.len() as int))
    }

    /// The bytes that are there after the pieces of `pieces` have come in,
    /// first to last.
    pub open spec fn after_reads(expected: int, have: Seq<u8>, pieces: Seq<Seq<u8>>) -> Seq<u8>
        decreases pieces.len(),
    {
        if pieces.len() == 0 {
            have
        } else {
            Self::after_reads(
                expected,
                Self::after_read(expected, have, pieces[0]),
                pieces.drop_first(),
            )
        }
    }

    /// The bytes that are still missing. This is how many to ask the socket
    /// for.
    pub fn wanted(&self) -> (missing: usize)
        requires
            self.wf(),
        ensures
            missing == self.expected - self.bytes@.len(),
    {
        self.expected - self.bytes.len()
    }

    /// Whether all bytes of the record are there.
    pub fn is_complete(&self) -> (complete: bool)
        ensures
            complete == (self.bytes@.len() >= self.expected),
    {
        self.bytes.len() >= self.expected
    }

    /// Takes in a piece that the socket delivered, and says what this
    /// attempt comes to: the whole record, or nothing yet. Bytes beyond the
    /// end of the record are left out.
    pub fn on_read(&mut self, chunk: &[u8]) -> (attempt: Option<()>)
        requires
            old(self).wf(),
        ensures
            final(self).wf(),
            final(self).expected == old(self).expected,
            final(self).bytes@ == Self::after_read(
                old(self).expected as int,
                old(self).bytes@,
                chunk@,
            ),
            attempt.is_some() <==> final(self).bytes@.len() == final(self).expected,
    {
        let missing: usize = self.expected - self.bytes.len();
        let take: usize = if chunk.len() <= missing {
            chunk.len()
        } else {
            missing
        };
        let mut i: usize = 0;
        while i < take
            invariant
                i <= take,
                take <= chunk@.len(),
                self.expected == old(self).expected,
                old(self).bytes@.len() + take <= self.expected,
                self.bytes@ == old(self).bytes@ + chunk@.subrange(0, i as int),
            decreases take - i,
        {
            self.bytes.push(chunk[i]);
            assert(chunk@.subrange(0, i + 1) =~= chunk@.subrange(0, i as int).push(
                chunk@[i as int],
            ));
            i = i + 1;
        }
        if self.bytes.len() >= self.expected {
            Some(())
        } else {
            None
        }
    }
}

impl AncillaryReceiver {
    /// The handles that are there after a piece has come in that held
    /// `received` bytes of ancillary data, from which the handles `decoded`
    /// were read. A piece without ancillary data carries nothing.
    pub open spec fn after_read(handles: Seq<i32>, received: usize, decoded: Seq<i32>) -> Seq<i32> {
        if received > 0 {
            handles + decoded
        } else {
            handles
        }
    }

    /// The handles that are there after the pieces of `pieces` have come in,
    /// first to last, each with ancillary data.
    pub open spec fn after_reads(handles: Seq<i32>, pieces: Seq<Seq<i32>>) -> Seq<i32>
        decreases pieces.len(),
    {
        if pieces.len() == 0 {
            handles
        } else {
            Self::after_reads(handles + pieces[0], pieces.drop_first())
        }
    }

    /// Whether as many handles are there as are waited for. A receiver that
    /// waits for none is complete from the start, and nothing needs to be
    /// read for it.
    pub fn is_complete(&self) -> (complete: bool)
        ensures
            complete == (self.handles@.len() >= self.expected),
    {
        self.handles.len() >= self.expected
    }

    /// Takes in a piece that the socket delivered: `received` bytes of
    /// ancillary data, from which the handles `decoded` were read. Says what
    /// this attempt comes to: the number of handles that are there, once
    /// that is as many as are waited for, and nothing yet before.
    pub fn on_read(&mut self, received: usize, decoded: &[i32]) -> (attempt: Option<usize>)
        ensures
            final(self).expected == old(self).expected,
            final(self).buffer_size == old(self).buffer_size,
            final(self).handles@ == Self::after_read(old(self).handles@, received, decoded@),
            attempt == if received > 0 && final(self).handles@.len() >= old(self).expected {
                Some(final(self).handles@.len() as usize)
            } else {
                None
            },
    {
        if received > 0 {
            let mut i: usize = 0;
            while i < decoded.len()
                invariant
                    i <= decoded@.len(),
                    self.expected == old(self).expected,
                    self.buffer_size == old(self).buffer_size,
                    self.handles@ == old(self).handles@ + decoded@.subrange(0, i as int),
                decreases decoded@.len() - i,
            {
                self.handles.push(decoded[i]);
                assert(decoded@.subrange(0, i + 1) =~= decoded@.subrange(0, i as int).push(
                    decoded@[i as int],
                ));
                i = i + 1;
            }
            assert(decoded@.subrange(0, decoded@.len() as int) =~= decoded@);
            if self.handles.len() >= self.expected {
                Some(self.handles.len())
            } else {
                None
            }
        } else {
            None
        }
    }

    /// The handles that have come in, in the order in which they came,
    /// whether or not they are as many as were waited for.
    pub fn finish(self) -> (handles: Vec<i32>)
        ensures
            handles@ == self.handles@,
    {
        self.handles
    }
}

impl IPCSocket {
    /// Says what one attempt to bind comes to: a listener without
    /// connections when it succeeded, nothing yet when an earlier listener
    /// still holds the path, a failure otherwise.
    pub fn new(bound: Result<(), IoErrorKind>, timeout: Span) -> (attempt: Result<
        Option<IPCSocket>,
        IoErrorKind,
    >)
        ensures
            match bound {
                Ok(_) => {
                    &&& attempt matches Ok(Some(socket))
                    &&& socket.connections@ == Seq::<IPCConnection>::empty()
                    &&& socket.timeout == timeout
                },
                Err(kind) => if kind.spec_bind_may_retry() {
                    attempt matches Ok(None)
                } else {
                    attempt == Err::<Option<IPCSocket>, IoErrorKind>(kind)
                },
            },
    {
        match bound {
            Ok(_) => Ok(Some(IPCSocket { connections: Vec::new(), timeout })),
            Err(kind) => {
                if kind.bind_may_retry() {
                    Ok(None)
                } else {
                    Err(kind)
                }
            },
        }
    }

    /// Says what one attempt to accept comes to. A connection that was
    /// accepted is added behind those that are there, with the listener's
    /// timeout and the process identifier 0, and the attempt's result is its
    /// place among them. An attempt that would have had to wait comes to
    /// nothing yet, and any other failure to that failure; neither changes
    /// the listener.
    pub fn try_accept(&mut self, accepted: Result<(), IoErrorKind>) -> (attempt: Result<
        Option<usize>,
        IoErrorKind,
    >)
        ensures
            final(self).timeout == old(self).timeout,
            match accepted {
                Ok(_) => {
                    &&& attempt == Ok::<Option<usize>, IoErrorKind>(
                        Some(old(self).connections@.len() as usize),
                    )
                    &&& final(self).connections@ == old(self).connections@.push(
                        IPCConnection { proc_id: 0, timeout: old(self).timeout },
                    )
                },
                Err(kind) => {
                    &&& final(self).connections@ == old(self).connections@
                    &&& attempt == if kind == IoErrorKind::WouldBlock {
                        Ok::<Option<usize>, IoErrorKind>(None)
                    } else {
                        Err::<Option<usize>, IoErrorKind>(kind)
                    }
                },
            },
    {
        match accepted {
            Ok(_) => {
                let place: usize = self.connections.len();
                let connection = IPCConnection::new(0, self.timeout);
                self.connections.push(connection);
                Ok(Some(place))
            },
            Err(kind) => match kind {
                IoErrorKind::WouldBlock => Ok(None),
                _ => Err(kind),
            },
        }
    }

    /// The connection that was accepted last, if any was.
    pub fn last(&self) -> (connection: Option<&IPCConnection>)
        ensures
            match connection {
                Some(c) => self.connections@.len() > 0 && *c == self.connections@.last(),
                None => self.connections@.len() == 0,
            },
    {
        let count: usize = self.connections.len();
        if count == 0 {
            None
        } else {
            Some(&self.connections[count - 1])
        }
    }
}

/// An acknowledgement that was sent is received as one acknowledgement:
/// reading the bytes of an acknowledgement comes to an acknowledgement. And a
/// receiver that reads nothing until more than its timeout has gone by ends
/// with nothing, not with a failure.
pub proof fn lemma_ack_delivery(sent: Seq<u8>, elapsed: Span, timeout: Span, sleep_time: Span)
    requires
        sent == seq![ACK_BYTE],
    ensures
        spec_recv_ack(sent.len() as usize) == Some(()),
        spec_try_fcn_timeout(Ok(spec_recv_ack(sent.len() as usize)), elapsed, timeout, sleep_time)
            == RetryStep::Done(()),
        elapsed.nanos > timeout.nanos ==> spec_try_fcn_timeout(
            Ok(spec_recv_ack(0)),
            elapsed,
            timeout,
            sleep_time,
        ) == RetryStep::<()>::GiveUp,
        elapsed.nanos > timeout.nanos ==> spec_try_fcn_timeout::<()>(
            Err(IoErrorKind::WouldBlock),
            elapsed,
            timeout,
            sleep_time,
        ) == RetryStep::<()>::GiveUp,
{
}

/// Connecting to a path that no listener has bound yet never ends in a
/// failure: each attempt comes to nothing yet, and the operation pauses
/// while the timeout lasts and ends with nothing once it has run out.
pub proof fn lemma_connect_timeout_is_no_failure(
    kind: IoErrorKind,
    elapsed: Span,
    timeout: Span,
    sleep_time: Span,
)
    requires
        kind is NotFound || kind is AddrNotAvailable || kind is Interrupted,
    ensures
        spec_try_connect(Err(kind), timeout) == Ok::<Option<IPCConnection>, IoErrorKind>(None),
        spec_try_fcn_timeout(spec_try_connect(Err(kind), timeout), elapsed, timeout, sleep_time)
            == if elapsed.nanos > timeout.nanos {
            RetryStep::<IPCConnection>::GiveUp
        } else {
            RetryStep::<IPCConnection>::Sleep(sleep_time)
        },
{
}

/// Handles arrive as they were sent. However the handles of a transfer are
/// split into pieces on the way, a receiver that started with none and has
/// taken in all pieces holds the handles of the pieces in their order:
/// exactly as many as were sent, and the same ones.
pub proof fn lemma_handles_arrive_in_order(pieces: Seq<Seq<i32>>)
    ensures
        AncillaryReceiver::after_reads(Seq::empty(), pieces) == pieces.flatten(),
{
    lemma_after_reads_appends(Seq::empty(), pieces);
}

/// Taking in pieces appends their handles to those that are there.
pub proof fn lemma_after_reads_appends(handles: Seq<i32>, pieces: Seq<Seq<i32>>)
    ensures
        AncillaryReceiver::after_reads(handles, pieces) == handles + pieces.flatten(),
    decreases pieces.len(),
{
    if pieces.len() == 0 {
        assert(handles + Seq::<i32>::empty() =~= handles);
    } else {
        lemma_after_reads_appends(handles + pieces[0], pieces.drop_first());
        assert((handles + pieces[0]) + pieces.drop_first().flatten() =~= handles + (pieces[0]
            + pieces.drop_first().flatten()));
    }
}

/// Bytes arrive in the order in which they were sent. However the bytes of
/// a record are split into pieces on the way, a receiver that has taken in
/// all pieces holds the bytes of the pieces in their order, as long as they
/// are no more than the record has room for.
pub proof fn lemma_bytes_arrive_in_order(expected: int, have: Seq<u8>, pieces: Seq<Seq<u8>>)
    requires
        have.len() + pieces.flatten().len() <= expected,
    ensures
        MessageReceiver::after_reads(expected, have, pieces) == have + pieces.flatten(),
    decreases pieces.len(),
{
    if pieces.len() == 0 {
        assert(have + Seq::<u8>::empty() =~= have);
    } else {
        let first = pieces[0];
        let rest = pieces.drop_first();
        assert(pieces.flatten() == first + rest.flatten());
        assert(first.subrange(0, first.len() as int) =~= first);
        lemma_bytes_arrive_in_order(expected, have + first, rest);
        assert((have + first) + rest.flatten() =~= have + (first + rest.flatten()));
    }
}

/// A command that was sent is the command that is received, however its
/// bytes were split into pieces on the way.
pub proof fn lemma_command_delivery(msg: CommandMsgView, pieces: Seq<Seq<u8>>)
    requires
        msg.wf(),
        pieces.flatten() == encode_command(msg),
    ensures
        decode_command(
            MessageReceiver::after_reads(COMMAND_MSG_LEN as int, Seq::empty(), pieces),
        ) == Ok::<CommandMsgView, ProtocolError>(msg),
{
    lemma_command_has_fixed_length(msg);
    lemma_bytes_arrive_in_order(COMMAND_MSG_LEN as int, Seq::empty(), pieces);
    assert(Seq::<u8>::empty() + pieces.flatten() =~= pieces.flatten());
    lemma_command_round_trip(msg);
}

/// A result that was sent is the result that is received, however its bytes
/// were split into pieces on the way.
pub proof fn lemma_result_delivery(msg: ResultMsg, pieces: Seq<Seq<u8>>)
    requires
        pieces.flatten() == encode_result(msg),
    ensures
        decode_result(MessageReceiver::after_reads(RESULT_MSG_LEN as int, Seq::empty(), pieces))
            == Ok::<ResultMsg, ProtocolError>(msg),
{
    lemma_result_has_fixed_length(msg);
    lemma_bytes_arrive_in_order(RESULT_MSG_LEN as int, Seq::empty(), pieces);
    assert(Seq::<u8>::empty() + pieces.flatten() =~= pieces.flatten());
    lemma_result_round_trip(msg);
}

} // verus!
