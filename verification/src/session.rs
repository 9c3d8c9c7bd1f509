//! The command dispatcher and session teardown, as one per-session state
//! machine. A session spans exactly one requested operation: the command
//! frame is sent, the response header validated and its status routed to the
//! matching payload decoder or reported as a result, and, for every
//! operation that does not itself terminate the remote side, an explicit
//! disconnect is sent and its acknowledgement awaited before the socket is
//! closed.
//!
//! The machine owns no socket. The caller asks `next_action` what to do,
//! performs the read, write or close it names, and hands bytes back through
//! the `provide_*` methods. A magic/version mismatch on any frame is fatal:
//! the session aborts at once, with no disconnect and no retry. A non-OK
//! disconnect acknowledgement is only a warning and never changes the
//! operation's own result.

use vstd::prelude::*;
use vstd::utf8::decode_utf8;

use crate::codec::{
    encode_frame, parse_response, read_u64_be, spec_be_u64, spec_frame, spec_response_status,
    FRAME_LEN,
};
use crate::discinfo::{
    decode_disc_info, spec_disc_info_ok, spec_disc_type, spec_game_name_bytes,
    spec_internal_name_bytes, DiscInfo, DISC_INFO_LEN,
};
use crate::protocol::{
    command_code, spec_command_code, spec_transfer_mode, transfer_mode, Command, Revision, Status,
    TransferMode,
};
use crate::stream::StreamFailure;

verus! {

/// Length in bytes of the fixed BCA payload.
pub const BCA_LEN: usize = 64;

/// Length in bytes of the single-length mode total that precedes a game
/// payload.
pub const GAME_LENGTH_LEN: usize = 8;

/// The operation a session performs, chosen by the caller.
#[derive(Copy, Clone, Debug, PartialEq, Eq, Structural)]
pub enum Operation {
    /// Game, BCA and info in one session: declared, but without wire
    /// behaviour in any revision, so it fails as unsupported.
    Full,
    DumpGame,
    DumpBca,
    GetDiscInfo,
    EjectDisc,
    ExitProgram,
    Shutdown,
}

/// The result a session ends with.
#[derive(Copy, Clone, Debug, PartialEq, Eq, Structural)]
pub enum Outcome {
    /// The operation completed; any payload was delivered in full.
    Success,
    /// The operation has no wire behaviour under the session's revision.
    NotSupported,
    /// The drive holds no disc.
    NoDisc,
    /// The drive could not eject the disc.
    CouldNotEject,
    /// The drive did not recognize the disc's type.
    UnknownDiscType,
    /// The server reported a protocol-level error.
    ProtocolFailure,
    /// A status outside the valid set for the issued command; no payload is
    /// read after it, so the byte stream cannot desynchronize.
    Unexpected(Status),
    /// A magic/version mismatch: fatal, the session aborted at once.
    FramingFailure,
    /// The payload arrived but did not decode; it was discarded.
    DecodeFailure,
}

/// How the closing disconnect exchange went.
#[derive(Copy, Clone, Debug, PartialEq, Eq, Structural)]
pub enum TeardownAck {
    /// No disconnect was owed: the operation terminates the remote side
    /// itself, or the session aborted on a framing error.
    NotAttempted,
    /// The disconnect was acknowledged with OK.
    Clean,
    /// The acknowledgement was missing or odd; a warning only.
    Odd,
}

/// How the caller must receive the streamed game payload.
#[derive(Copy, Clone, Debug, PartialEq, Eq, Structural)]
pub enum StreamPlan {
    /// Single-length mode with the declared total.
    Single(u64),
    /// Chunked mode; the totals arrive with each chunk.
    Chunked,
}

/// Where the session stands.
#[derive(Copy, Clone, Debug, PartialEq, Eq, Structural)]
pub enum Phase {
    /// Nothing sent yet.
    Start,
    /// Command frame sent; the 15-byte response frame is due.
    AwaitResponse,
    /// The 545-byte disc-info payload is due.
    AwaitDiscInfo,
    /// The 64-byte BCA payload is due.
    AwaitBca,
    /// The 8-byte single-length total is due.
    AwaitGameLength,
    /// The game payload is being streamed by a receiver.
    Streaming(StreamPlan),
    /// The closing disconnect frame must be sent; the result is settled.
    TeardownSend(Outcome),
    /// Disconnect sent; its 15-byte acknowledgement is due.
    TeardownAwait(Outcome),
    /// The session is over; the socket can be closed.
    Finished(Outcome, TeardownAck),
}

/// What the caller must do next.
#[derive(Debug)]
pub enum Action {
    /// Write these bytes to the socket, then call `confirm_send`.
    SendBytes(Vec<u8>),
    /// Read exactly this many bytes, then hand them to the due `provide_*`
    /// method.
    ReadBytes(usize),
    /// Drive the matching streaming receiver, then call `finish_streaming`.
    StreamPayload(StreamPlan),
    /// Close the socket; the session ended with this result.
    Finish(Outcome, TeardownAck),
}

/// Where a response status sends the session next.
#[derive(Copy, Clone, Debug, PartialEq, Eq, Structural)]
pub enum Route {
    /// No payload follows; the operation's result is settled.
    Done(Outcome),
    ReadDiscInfo,
    ReadBca,
    ReadGameSingle,
    ReadGameChunked,
}

/// The wire command an operation stands for; `Full` has none.
pub open spec fn spec_operation_command(op: Operation) -> Option<Command> {
    match op {
        Operation::Full => None,
        Operation::DumpGame => Some(Command::DumpGame),
        Operation::DumpBca => Some(Command::DumpBca),
        Operation::GetDiscInfo => Some(Command::GetDiscInfo),
        Operation::EjectDisc => Some(Command::EjectDisc),
        Operation::ExitProgram => Some(Command::ExitProgram),
        Operation::Shutdown => Some(Command::Shutdown),
    }
}

/// The numeric code an operation's command has under a revision, or `None`
/// where the operation cannot be sent there at all.
pub open spec fn spec_op_code(rev: Revision, op: Operation) -> Option<u32> {
    match spec_operation_command(op) {
        None => None,
        Some(c) => spec_command_code(rev, c),
    }
}

/// True of the operations that terminate the remote side themselves, after
/// which no disconnect is owed.
pub open spec fn spec_terminates_remote(op: Operation) -> bool {
    op is ExitProgram || op is Shutdown
}

/// The request frame an operation sends under a revision.
pub open spec fn spec_op_frame(rev: Revision, op: Operation) -> Seq<u8>
    recommends
        spec_op_code(rev, op) is Some,
{
    spec_frame(rev, spec_operation_command(op)->Some_0)
}

/// Where a status routes a session, per operation: the operation's own
/// domain-success status leads to its payload, the domain and protocol
/// errors to their results, and everything else — valid for some other
/// command or recognized by no revision — to an unexpected-response result,
/// after which no payload is read.
pub open spec fn spec_route(rev: Revision, op: Operation, st: Status) -> Route {
    match op {
        Operation::EjectDisc => match st {
            Status::Okay => Route::Done(Outcome::Success),
            Status::NoDisc => Route::Done(Outcome::NoDisc),
            Status::CouldNotEject => Route::Done(Outcome::CouldNotEject),
            Status::ProtocolError => Route::Done(Outcome::ProtocolFailure),
            _ => Route::Done(Outcome::Unexpected(st)),
        },
        Operation::GetDiscInfo => match st {
            Status::DiscInfo => Route::ReadDiscInfo,
            Status::NoDisc => Route::Done(Outcome::NoDisc),
            Status::UnknownDiscType => Route::Done(Outcome::UnknownDiscType),
            Status::ProtocolError => Route::Done(Outcome::ProtocolFailure),
            _ => Route::Done(Outcome::Unexpected(st)),
        },
        Operation::DumpBca => match st {
            Status::Bca => Route::ReadBca,
            Status::NoDisc => Route::Done(Outcome::NoDisc),
            Status::UnknownDiscType => Route::Done(Outcome::UnknownDiscType),
            Status::ProtocolError => Route::Done(Outcome::ProtocolFailure),
            _ => Route::Done(Outcome::Unexpected(st)),
        },
        Operation::DumpGame => match st {
            Status::Game => match spec_transfer_mode(rev) {
                TransferMode::SingleLength => Route::ReadGameSingle,
                TransferMode::Chunked => Route::ReadGameChunked,
            },
            Status::NoDisc => Route::Done(Outcome::NoDisc),
            Status::UnknownDiscType => Route::Done(Outcome::UnknownDiscType),
            Status::ProtocolError => Route::Done(Outcome::ProtocolFailure),
            _ => Route::Done(Outcome::Unexpected(st)),
        },
        Operation::ExitProgram | Operation::Shutdown => match st {
            Status::Okay => Route::Done(Outcome::Success),
            Status::ProtocolError => Route::Done(Outcome::ProtocolFailure),
            _ => Route::Done(Outcome::Unexpected(st)),
        },
        Operation::Full => Route::Done(Outcome::NotSupported),
    }
}

/// The phase a settled result leads to: straight to the end for the
/// operations that terminate the remote side, through the disconnect
/// exchange for every other one.
pub open spec fn spec_after_done(op: Operation, o: Outcome) -> Phase {
    if spec_terminates_remote(op) {
        Phase::Finished(o, TeardownAck::NotAttempted)
    } else {
        Phase::TeardownSend(o)
    }
}

/// The phase a 15-byte response frame puts the session in: an invalid header
/// ends it at once as a framing failure; otherwise its status is routed.
pub open spec fn spec_phase_after_response(rev: Revision, op: Operation, s: Seq<u8>) -> Phase
    recommends
        s.len() == FRAME_LEN,
{
    match spec_response_status(rev, s) {
        None => Phase::Finished(Outcome::FramingFailure, TeardownAck::NotAttempted),
        Some(st) => match spec_route(rev, op, st) {
            Route::Done(o) => spec_after_done(op, o),
            Route::ReadDiscInfo => Phase::AwaitDiscInfo,
            Route::ReadBca => Phase::AwaitBca,
            Route::ReadGameSingle => Phase::AwaitGameLength,
            Route::ReadGameChunked => Phase::Streaming(StreamPlan::Chunked),
        },
    }
}

/// The wire command an operation stands for.
pub fn operation_command(op: Operation) -> (c: Option<Command>)
    ensures
        c == spec_operation_command(op),
{
    match op {
        Operation::Full => None,
        Operation::DumpGame => Some(Command::DumpGame),
        Operation::DumpBca => Some(Command::DumpBca),
        Operation::GetDiscInfo => Some(Command::GetDiscInfo),
        Operation::EjectDisc => Some(Command::EjectDisc),
        Operation::ExitProgram => Some(Command::ExitProgram),
        Operation::Shutdown => Some(Command::Shutdown),
    }
}

/// Where a status routes a session, per operation.
pub fn route_status(rev: Revision, op: Operation, st: Status) -> (r: Route)
    ensures
        r == spec_route(rev, op, st),
{
    match op {
        Operation::EjectDisc => match st {
            Status::Okay => Route::Done(Outcome::Success),
            Status::NoDisc => Route::Done(Outcome::NoDisc),
            Status::CouldNotEject => Route::Done(Outcome::CouldNotEject),
            Status::ProtocolError => Route::Done(Outcome::ProtocolFailure),
            _ => Route::Done(Outcome::Unexpected(st)),
        },
        Operation::GetDiscInfo => match st {
            Status::DiscInfo => Route::ReadDiscInfo,
            Status::NoDisc => Route::Done(Outcome::NoDisc),
            Status::UnknownDiscType => Route::Done(Outcome::UnknownDiscType),
            Status::ProtocolError => Route::Done(Outcome::ProtocolFailure),
            _ => Route::Done(Outcome::Unexpected(st)),
        },
        Operation::DumpBca => match st {
            Status::Bca => Route::ReadBca,
            Status::NoDisc => Route::Done(Outcome::NoDisc),
            Status::UnknownDiscType => Route::Done(Outcome::UnknownDiscType),
            Status::ProtocolError => Route::Done(Outcome::ProtocolFailure),
            _ => Route::Done(Outcome::Unexpected(st)),
        },
        Operation::DumpGame => match st {
            Status::Game => match transfer_mode(rev) {
                TransferMode::SingleLength => Route::ReadGameSingle,
                TransferMode::Chunked => Route::ReadGameChunked,
            },
            Status::NoDisc => Route::Done(Outcome::NoDisc),
            Status::UnknownDiscType => Route::Done(Outcome::UnknownDiscType),
            Status::ProtocolError => Route::Done(Outcome::ProtocolFailure),
            _ => Route::Done(Outcome::Unexpected(st)),
        },
        Operation::ExitProgram | Operation::Shutdown => match st {
            Status::Okay => Route::Done(Outcome::Success),
            Status::ProtocolError => Route::Done(Outcome::ProtocolFailure),
            _ => Route::Done(Outcome::Unexpected(st)),
        },
        Operation::Full => Route::Done(Outcome::NotSupported),
    }
}

impl Outcome {
    /// True only of a fully successful operation.
    pub fn is_success(&self) -> (r: bool)
        ensures
            r == (self is Success),
    {
        matches!(self, Outcome::Success)
    }
}

/// One protocol session: exactly one operation, then teardown.
pub struct Session {
    /// The protocol revision the peer was connected under.
    pub rev: Revision,
    /// The one operation this session performs.
    pub op: Operation,
    /// Where the session stands.
    pub phase: Phase,
    /// The decoded disc metadata, once a disc-info payload arrived.
    pub info: Option<DiscInfo>,
}

impl Session {
    /// While the command frame is pending or in flight, the operation must
    /// have a code under the session's revision.
    pub open spec fn wf(&self) -> bool {
        (self.phase is Start || self.phase is AwaitResponse) ==> spec_op_code(
            self.rev,
            self.op,
        ) is Some
    }

    /// A fresh session for one operation. An operation the revision cannot
    /// send — `Full`, which no revision has on the wire, or a command the
    /// revision lacks — fails as unsupported, with the disconnect still owed.
    pub fn new(rev: Revision, op: Operation) -> (s: Session)
        ensures
            s.wf(),
            s.rev == rev,
            s.op == op,
            s.info is None,
            spec_op_code(rev, op) is Some ==> s.phase == Phase::Start,
            spec_op_code(rev, op) is None ==> s.phase == Phase::TeardownSend(
                Outcome::NotSupported,
            ),
    {
        let sendable = match operation_command(op) {
            Some(c) => command_code(rev, c).is_some(),
            None => false,
        };
        Session {
            rev,
            op,
            phase: if sendable {
                Phase::Start
            } else {
                Phase::TeardownSend(Outcome::NotSupported)
            },
            info: None,
        }
    }

    /// What the caller must do next, determined by the phase alone.
    pub fn next_action(&self) -> (a: Action)
        requires
            self.wf(),
        ensures
            self.phase is Start ==> (a matches Action::SendBytes(b) && b@ == spec_op_frame(
                self.rev,
                self.op,
            )),
            self.phase is AwaitResponse ==> (a matches Action::ReadBytes(n) && n == FRAME_LEN),
            self.phase is AwaitDiscInfo ==> (a matches Action::ReadBytes(n) && n == DISC_INFO_LEN),
            self.phase is AwaitBca ==> (a matches Action::ReadBytes(n) && n == BCA_LEN),
            self.phase is AwaitGameLength ==> (a matches Action::ReadBytes(n) && n
                == GAME_LENGTH_LEN),
            self.phase matches Phase::Streaming(p) ==> a == Action::StreamPayload(p),
            self.phase is TeardownSend ==> (a matches Action::SendBytes(b) && b@ == spec_frame(
                self.rev,
                Command::Disconnect,
            )),
            self.phase matches Phase::TeardownAwait(o) ==> (a matches Action::ReadBytes(n) && n
                == FRAME_LEN),
            self.phase matches Phase::Finished(o, t) ==> a == Action::Finish(o, t),
    {
        match self.phase {
            Phase::Start => {
                let c = operation_command(self.op).unwrap();
                Action::SendBytes(encode_frame(self.rev, c))
            },
            Phase::AwaitResponse => Action::ReadBytes(FRAME_LEN),
            Phase::AwaitDiscInfo => Action::ReadBytes(DISC_INFO_LEN),
            Phase::AwaitBca => Action::ReadBytes(BCA_LEN),
            Phase::AwaitGameLength => Action::ReadBytes(GAME_LENGTH_LEN),
            Phase::Streaming(p) => Action::StreamPayload(p),
            Phase::TeardownSend(_) => Action::SendBytes(encode_frame(self.rev, Command::Disconnect)),
            Phase::TeardownAwait(_) => Action::ReadBytes(FRAME_LEN),
            Phase::Finished(o, t) => Action::Finish(o, t),
        }
    }

    /// Records that the pending frame was written: the command frame puts
    /// the response due, the disconnect frame its acknowledgement.
    pub fn confirm_send(&mut self)
        requires
            old(self).wf(),
            old(self).phase is Start || old(self).phase is TeardownSend,
        ensures
            final(self).wf(),
            final(self).rev == old(self).rev,
            final(self).op == old(self).op,
            final(self).info == old(self).info,
            old(self).phase is Start ==> final(self).phase == Phase::AwaitResponse,
            old(self).phase matches Phase::TeardownSend(o) ==> final(self).phase
                == Phase::TeardownAwait(o),
    {
        self.phase = match self.phase {
            Phase::Start => Phase::AwaitResponse,
            Phase::TeardownSend(o) => Phase::TeardownAwait(o),
            _ => self.phase,
        };
    }

    /// Takes the 15-byte response frame: byte-exact header validation, then
    /// the status is routed. An invalid header is fatal at once — no payload,
    /// no disconnect. An unexpected status settles the result without
    /// reading a payload.
    pub fn provide_response(&mut self, data: &Vec<u8>)
        requires
            old(self).wf(),
            old(self).phase is AwaitResponse,
            data@.len() == FRAME_LEN,
        ensures
            final(self).wf(),
            final(self).rev == old(self).rev,
            final(self).op == old(self).op,
            final(self).info == old(self).info,
            final(self).phase == spec_phase_after_response(old(self).rev, old(self).op, data@),
    {
        self.phase = match parse_response(self.rev, data) {
            None => Phase::Finished(Outcome::FramingFailure, TeardownAck::NotAttempted),
            Some(st) => match route_status(self.rev, self.op, st) {
                Route::Done(o) => {
                    if matches!(self.op, Operation::ExitProgram | Operation::Shutdown) {
                        Phase::Finished(o, TeardownAck::NotAttempted)
                    } else {
                        Phase::TeardownSend(o)
                    }
                },
                Route::ReadDiscInfo => Phase::AwaitDiscInfo,
                Route::ReadBca => Phase::AwaitBca,
                Route::ReadGameSingle => Phase::AwaitGameLength,
                Route::ReadGameChunked => Phase::Streaming(StreamPlan::Chunked),
            },
        };
    }

    /// Takes the 545-byte disc-info payload. A payload that decodes is kept
    /// and the operation succeeded; one that does not is discarded and the
    /// operation failed to decode. Either way the disconnect follows.
    pub fn provide_disc_info(&mut self, data: &Vec<u8>)
        requires
            old(self).phase is AwaitDiscInfo,
            data@.len() == DISC_INFO_LEN,
        ensures
            final(self).wf(),
            final(self).rev == old(self).rev,
            final(self).op == old(self).op,
            spec_disc_info_ok(data@) ==> {
                &&& final(self).phase == Phase::TeardownSend(Outcome::Success)
                &&& final(self).info matches Some(di)
                &&& Some(final(self).info->Some_0.disc_type) == spec_disc_type(data@[0])
                &&& final(self).info->Some_0.game_name@ == decode_utf8(spec_game_name_bytes(data@))
                &&& final(self).info->Some_0.internal_name@ == decode_utf8(
                    spec_internal_name_bytes(data@),
                )
            },
            !spec_disc_info_ok(data@) ==> final(self).phase == Phase::TeardownSend(
                Outcome::DecodeFailure,
            ) && final(self).info == old(self).info,
    {
        match decode_disc_info(data) {
            Ok(di) => {
                self.info = Some(di);
                self.phase = Phase::TeardownSend(Outcome::Success);
            },
            Err(_) => {
                self.phase = Phase::TeardownSend(Outcome::DecodeFailure);
            },
        }
    }

    /// Takes the 64-byte BCA payload and hands it back for the sink,
    /// unchanged; the operation succeeded and the disconnect follows.
    pub fn provide_bca(&mut self, data: Vec<u8>) -> (sink: Vec<u8>)
        requires
            old(self).phase is AwaitBca,
            data@.len() == BCA_LEN,
        ensures
            final(self).wf(),
            final(self).rev == old(self).rev,
            final(self).op == old(self).op,
            final(self).info == old(self).info,
            final(self).phase == Phase::TeardownSend(Outcome::Success),
            sink@ == data@,
    {
        self.phase = Phase::TeardownSend(Outcome::Success);
        data
    }

    /// Takes the 8-byte big-endian total that opens a single-length game
    /// payload; the stream of exactly that many bytes follows.
    pub fn provide_game_length(&mut self, data: &Vec<u8>)
        requires
            old(self).phase is AwaitGameLength,
            data@.len() == GAME_LENGTH_LEN,
        ensures
            final(self).wf(),
            final(self).rev == old(self).rev,
            final(self).op == old(self).op,
            final(self).info == old(self).info,
            (final(self).phase matches Phase::Streaming(p) && p == StreamPlan::Single(
                spec_be_u64(data@) as u64,
            )),
    {
        let total = read_u64_be(data, 0);
        proof {
            assert(data@.subrange(0, 8) =~= data@);
        }
        self.phase = Phase::Streaming(StreamPlan::Single(total));
    }

    /// Records how the streamed game payload ended. A completed stream is a
    /// success and a mid-stream framing mismatch is fatal at once; a wrong
    /// chunk status or malformed chunk settles the matching failure. In all
    /// but the fatal case the disconnect follows; what was already written
    /// to the sink stays written.
    pub fn finish_streaming(&mut self, failure: Option<StreamFailure>)
        requires
            old(self).phase is Streaming,
        ensures
            final(self).wf(),
            final(self).rev == old(self).rev,
            final(self).op == old(self).op,
            final(self).info == old(self).info,
            final(self).phase == match failure {
                Option::<StreamFailure>::None => Phase::TeardownSend(Outcome::Success),
                Some(StreamFailure::Framing) => Phase::Finished(
                    Outcome::FramingFailure,
                    TeardownAck::NotAttempted,
                ),
                Some(StreamFailure::WrongStatus(st)) => Phase::TeardownSend(
                    Outcome::Unexpected(st),
                ),
                Some(StreamFailure::MalformedChunk) => Phase::TeardownSend(Outcome::DecodeFailure),
            },
    {
        self.phase = match failure {
            None => Phase::TeardownSend(Outcome::Success),
            Some(StreamFailure::Framing) => Phase::Finished(
                Outcome::FramingFailure,
                TeardownAck::NotAttempted,
            ),
            Some(StreamFailure::WrongStatus(st)) => Phase::TeardownSend(Outcome::Unexpected(st)),
            Some(StreamFailure::MalformedChunk) => Phase::TeardownSend(Outcome::DecodeFailure),
        };
    }

    /// Takes the 15-byte disconnect acknowledgement. Anything but a valid
    /// header with OK is odd, a warning only: the operation's own result
    /// stands either way, and the socket is closed regardless.
    pub fn provide_teardown_ack(&mut self, data: &Vec<u8>)
        requires
            old(self).phase is TeardownAwait,
            data@.len() == FRAME_LEN,
        ensures
            final(self).wf(),
            final(self).rev == old(self).rev,
            final(self).op == old(self).op,
            final(self).info == old(self).info,
            ({
                let o = old(self).phase->TeardownAwait_0;
                final(self).phase == Phase::Finished(
                    o,
                    if spec_response_status(old(self).rev, data@) == Some(Status::Okay) {
                        TeardownAck::Clean
                    } else {
                        TeardownAck::Odd
                    },
                )
            }),
    {
        let o = match self.phase {
            Phase::TeardownAwait(o) => o,
            _ => Outcome::Success,
        };
        let ack = match parse_response(self.rev, data) {
            Some(Status::Okay) => TeardownAck::Clean,
            _ => TeardownAck::Odd,
        };
        self.phase = Phase::Finished(o, ack);
    }
}

/// A payload is read only on the one domain-success status that matches the
/// issued operation; every error, domain failure or unexpected status
/// settles a result without touching the byte stream.
pub proof fn lemma_payload_only_on_domain_success(rev: Revision, op: Operation, st: Status)
    ensures
        spec_route(rev, op, st) is ReadDiscInfo <==> (op is GetDiscInfo && st is DiscInfo),
        spec_route(rev, op, st) is ReadBca <==> (op is DumpBca && st is Bca),
        (spec_route(rev, op, st) is ReadGameSingle || spec_route(rev, op, st) is ReadGameChunked)
            <==> (op is DumpGame && st is Game),
{
}

/// The disconnect exchange follows every operation that does not itself
/// terminate the remote side, and never follows one that does: a settled
/// result leads to the teardown send exactly for those operations.
pub proof fn lemma_teardown_owed(op: Operation, o: Outcome)
    ensures
        spec_after_done(op, o) == Phase::TeardownSend(o) <==> !spec_terminates_remote(op),
        spec_after_done(op, o) == Phase::Finished(o, TeardownAck::NotAttempted)
            <==> spec_terminates_remote(op),
{
}

} // verus!
