//! Unlock client: one connection lifecycle as a verified state machine.
//!
//! The machine decides, the caller performs. `Session::start` resolves the
//! endpoint and encodes the request; each `Step` it or `advance` hands back
//! names one piece of outside work — connect, write these bytes, read this
//! many bytes — and the caller reports what happened as an `Event`. The
//! exchange is strictly ordered with no retries and no branching back: a
//! single failure at any point finishes the session with a distinct error.
//! A write that accepts fewer bytes than requested and a read that comes up
//! short are `IoError`; end-of-stream before the full 8-byte response is
//! `ConnectionClosed`.

use vstd::prelude::*;
use vstd::pervasive::unreached;

use crate::codec::{
    ControlOperation, ProtocolError, ResultCode, RESPONSE_SIZE, decode_u32_be, encode,
    result_code_from, spec_request_frame, spec_result_code, spec_u32_of_be_seq,
};
use crate::errors::{AuthReason, UnlockError};
use crate::locator::resolve_endpoint;

verus! {

/// Where the exchange stands: which piece of outside work the session is
/// waiting to hear about. The write phases follow the wire order — the
/// credential-negotiation byte, then the frame's size field, operation code,
/// secret-length field and secret bytes — then the two 4-byte reads of the
/// response, then `Finished`.
#[derive(Clone, Copy, Debug, PartialEq, Eq, Structural)]
pub enum Phase {
    AwaitConnect,
    AwaitNegotiationWrite,
    AwaitSizeWrite,
    AwaitOperationWrite,
    AwaitLengthWrite,
    AwaitSecretWrite,
    AwaitSizeRead,
    AwaitCodeRead,
    Finished,
}

/// What the caller reports back about the step it was asked to perform. A
/// write reports how many bytes the transport accepted; a read reports the
/// bytes it filled, or that the stream ended, or that it failed outright.
#[derive(Debug)]
pub enum Event {
    ConnectSucceeded,
    ConnectFailed,
    WriteAccepted { count: usize },
    WriteFailed,
    ReadFilled { bytes: Vec<u8> },
    ReadEndOfStream,
    ReadFailed,
}

/// The one piece of outside work the session asks for next, or the outcome
/// of the whole exchange once nothing is left to do.
#[derive(Debug)]
pub enum Step {
    Connect { endpoint: String },
    Write { bytes: Vec<u8> },
    Read { count: usize },
    Finish { outcome: Result<(), UnlockError> },
}

/// Phases that wait on a write.
pub open spec fn spec_is_write_phase(p: Phase) -> bool {
    ||| p is AwaitNegotiationWrite
    ||| p is AwaitSizeWrite
    ||| p is AwaitOperationWrite
    ||| p is AwaitLengthWrite
    ||| p is AwaitSecretWrite
}

/// Phases that wait on a read.
pub open spec fn spec_is_read_phase(p: Phase) -> bool {
    p is AwaitSizeRead || p is AwaitCodeRead
}

/// Which events can answer which phase: an event is only ever the report on
/// the step the session last asked for.
pub open spec fn spec_accepts(p: Phase, e: Event) -> bool {
    if p is AwaitConnect {
        e is ConnectSucceeded || e is ConnectFailed
    } else if spec_is_write_phase(p) {
        e is WriteAccepted || e is WriteFailed
    } else if spec_is_read_phase(p) {
        e is ReadFilled || e is ReadEndOfStream || e is ReadFailed
    } else {
        false
    }
}

/// The bytes whose write a phase waits on: the negotiation byte, or one of
/// the four pieces of the request frame, in wire order.
pub open spec fn spec_pending_write(p: Phase, frame: Seq<u8>) -> Seq<u8> {
    match p {
        Phase::AwaitNegotiationWrite => seq![0u8],
        Phase::AwaitSizeWrite => frame.subrange(0, 4),
        Phase::AwaitOperationWrite => frame.subrange(4, 8),
        Phase::AwaitLengthWrite => frame.subrange(8, 12),
        Phase::AwaitSecretWrite => frame.subrange(12, frame.len() as int),
        _ => Seq::empty(),
    }
}

/// The phase a successful write moves the session to.
pub open spec fn spec_after_write(p: Phase) -> Phase {
    match p {
        Phase::AwaitNegotiationWrite => Phase::AwaitSizeWrite,
        Phase::AwaitSizeWrite => Phase::AwaitOperationWrite,
        Phase::AwaitOperationWrite => Phase::AwaitLengthWrite,
        Phase::AwaitLengthWrite => Phase::AwaitSecretWrite,
        Phase::AwaitSecretWrite => Phase::AwaitSizeRead,
        _ => Phase::Finished,
    }
}

/// The outcome a decoded result code maps to: `Accepted` is success and every
/// other member of the closed set is an authentication failure carrying its
/// reason.
pub open spec fn spec_outcome(rc: ResultCode) -> Result<(), UnlockError> {
    match rc {
        ResultCode::Accepted => Ok(()),
        ResultCode::Denied => Err(UnlockError::AuthFailure(AuthReason::Denied)),
        ResultCode::Failed => Err(UnlockError::AuthFailure(AuthReason::Failed)),
        ResultCode::NoDaemon => Err(UnlockError::AuthFailure(AuthReason::NoDaemon)),
    }
}

/// The outcome a raw 4-byte result-code value ends the exchange with: the
/// mapped outcome of a code in the closed set, and a typed protocol error —
/// never a crash — for any code outside it.
pub open spec fn spec_response_outcome(code: u32) -> Result<(), UnlockError> {
    match spec_result_code(code) {
        Ok(rc) => spec_outcome(rc),
        Err(e) => Err(UnlockError::Protocol(e)),
    }
}

/// The bytes a read report carries.
pub open spec fn spec_read_bytes(e: Event) -> Seq<u8>
    recommends
        e is ReadFilled,
{
    match e {
        Event::ReadFilled { bytes } => bytes@,
        _ => Seq::empty(),
    }
}

/// What a size read of exactly four bytes does: the value `RESPONSE_SIZE`
/// moves the exchange on to the result-code read; any other value finishes
/// it with a typed `UnexpectedFrameSize` error, whatever the value was.
pub open spec fn spec_size_read_result(s: Session, step: Step, size: u32) -> bool {
    &&& size == RESPONSE_SIZE ==> s.phase() is AwaitCodeRead && (step matches Step::Read { count }
        && count == 4)
    &&& size != RESPONSE_SIZE ==> spec_stopped(
        s,
        step,
        Err(UnlockError::Protocol(ProtocolError::UnexpectedFrameSize(size))),
    )
}

/// The session has finished: its phase is `Finished` and the step it handed
/// back carries exactly `outcome`.
pub open spec fn spec_stopped(s: Session, step: Step, outcome: Result<(), UnlockError>) -> bool {
    &&& s.phase() is Finished
    &&& step matches Step::Finish { outcome: got } && got == outcome
}

/// One unlock exchange. The session owns the encoded request frame — and
/// with it the secret — only until the exchange finishes and it is dropped.
pub struct Session {
    phase: Phase,
    frame: Vec<u8>,
}

impl Session {
    /// Which piece of outside work the session waits on.
    pub closed spec fn phase(self) -> Phase {
        self.phase
    }

    /// The encoded request frame the session writes out piece by piece.
    pub closed spec fn frame(self) -> Seq<u8> {
        self.frame@
    }

    /// A session always carries a complete request frame: size field,
    /// operation code and secret-length field ahead of the secret bytes.
    pub open spec fn wf(self) -> bool {
        self.frame().len() >= 12
    }

    /// Map a decoded result code to the exchange's outcome.
    pub fn map_result(code: ResultCode) -> (r: Result<(), UnlockError>)
        ensures
            r == spec_outcome(code),
    {
        match code {
            ResultCode::Accepted => Ok(()),
            ResultCode::Denied => Err(UnlockError::AuthFailure(AuthReason::Denied)),
            ResultCode::Failed => Err(UnlockError::AuthFailure(AuthReason::Failed)),
            ResultCode::NoDaemon => Err(UnlockError::AuthFailure(AuthReason::NoDaemon)),
        }
    }

    /// Begin one unlock exchange: resolve the control endpoint from the two
    /// environment values and encode the request frame for the `Unlock`
    /// operation around the secret. Exactly one secret builds exactly one
    /// request. When a source resolves, the first step is to connect to it;
    /// when none does, the exchange finishes at once with `EndpointNotFound`.
    pub fn start(primary: Option<String>, fallback: Option<String>, secret: Vec<u8>) -> (r: (
        Session,
        Step,
    ))
        requires
            secret@.len() + 8 <= u32::MAX,
        ensures
            r.0.wf(),
            r.0.frame() == spec_request_frame(ControlOperation::Unlock, secret@),
            primary matches Some(dir) ==> r.0.phase() is AwaitConnect && (
            r.1 matches Step::Connect { endpoint } && endpoint@ == dir@ + "/control"@),
            primary is None ==> (fallback matches Some(dir) ==> r.0.phase() is AwaitConnect && (
            r.1 matches Step::Connect { endpoint } && endpoint@ == dir@ + "/keyring/control"@)),
            primary is None && fallback is None ==> spec_stopped(
                r.0,
                r.1,
                Err(UnlockError::EndpointNotFound),
            ),
    {
        let frame = encode(ControlOperation::Unlock, secret.as_slice());
        match resolve_endpoint(primary, fallback) {
            Ok(endpoint) => (
                Session { phase: Phase::AwaitConnect, frame },
                Step::Connect { endpoint },
            ),
            Err(e) => (Session { phase: Phase::Finished, frame }, Step::Finish { outcome: Err(e) }),
        }
    }

    /// Feed back what the last step's outside work did and get the next
    /// step. Success walks the wire order: connect, negotiation byte, the
    /// frame's four pieces, then two 4-byte reads; the response's size field
    /// must be exactly `RESPONSE_SIZE` and its result code decides the
    /// outcome. Any failure — a refused connection, a short or failed write
    /// or read, an early end of stream, a malformed response — finishes the
    /// exchange at once with the matching error.
    pub fn advance(&mut self, event: Event) -> (step: Step)
        requires
            old(self).wf(),
            spec_accepts(old(self).phase(), event),
        ensures
            final(self).wf(),
            final(self).frame() == old(self).frame(),
            old(self).phase() is AwaitConnect && event is ConnectSucceeded ==> final(self).phase()
                is AwaitNegotiationWrite && (step matches Step::Write { bytes } && bytes@
                == seq![0u8]),
            old(self).phase() is AwaitConnect && event is ConnectFailed ==> spec_stopped(
                *final(self),
                step,
                Err(UnlockError::ConnectionFailed),
            ),
            spec_is_write_phase(old(self).phase()) ==> (event matches Event::WriteAccepted {
                count,
            } && count == spec_pending_write(old(self).phase(), old(self).frame()).len() ==> {
                let next = spec_after_write(old(self).phase());
                &&& final(self).phase() == next
                &&& next is AwaitSizeRead ==> (step matches Step::Read { count: c } && c == 4)
                &&& !(next is AwaitSizeRead) ==> (step matches Step::Write { bytes } && bytes@
                    == spec_pending_write(next, old(self).frame()))
            }),
            spec_is_write_phase(old(self).phase()) && (event is WriteFailed || (
            event matches Event::WriteAccepted { count } && count != spec_pending_write(
                old(self).phase(),
                old(self).frame(),
            ).len())) ==> spec_stopped(*final(self), step, Err(UnlockError::IoError)),
            spec_is_read_phase(old(self).phase()) && event is ReadEndOfStream ==> spec_stopped(
                *final(self),
                step,
                Err(UnlockError::ConnectionClosed),
            ),
            spec_is_read_phase(old(self).phase()) && (event is ReadFailed || (event is ReadFilled
                && spec_read_bytes(event).len() != 4)) ==> spec_stopped(
                *final(self),
                step,
                Err(UnlockError::IoError),
            ),
            old(self).phase() is AwaitSizeRead && event is ReadFilled && spec_read_bytes(
                event,
            ).len() == 4 ==> spec_size_read_result(
                *final(self),
                step,
                spec_u32_of_be_seq(spec_read_bytes(event)),
            ),
            old(self).phase() is AwaitCodeRead && event is ReadFilled && spec_read_bytes(
                event,
            ).len() == 4 ==> spec_stopped(
                *final(self),
                step,
                spec_response_outcome(spec_u32_of_be_seq(spec_read_bytes(event))),
            ),
    {
        let phase = self.phase;
        match phase {
            Phase::AwaitConnect => match event {
                Event::ConnectSucceeded => {
                    self.phase = Phase::AwaitNegotiationWrite;
                    let mut bytes: Vec<u8> = Vec::new();
                    bytes.push(0u8);
                    proof {
                        assert(bytes@ =~= seq![0u8]);
                    }
                    Step::Write { bytes }
                },
                Event::ConnectFailed => self.finish(Err(UnlockError::ConnectionFailed)),
                _ => unreached(),
            },
            Phase::AwaitNegotiationWrite => self.handle_write(event, 1),
            Phase::AwaitSizeWrite => self.handle_write(event, 4),
            Phase::AwaitOperationWrite => self.handle_write(event, 4),
            Phase::AwaitLengthWrite => self.handle_write(event, 4),
            Phase::AwaitSecretWrite => {
                let expected = self.frame.len() - 12;
                self.handle_write(event, expected)
            },
            Phase::AwaitSizeRead => match event {
                Event::ReadFilled { bytes } => {
                    if bytes.len() == 4 {
                        let size = decode_u32_be(bytes[0], bytes[1], bytes[2], bytes[3]);
                        if size == RESPONSE_SIZE {
                            self.phase = Phase::AwaitCodeRead;
                            Step::Read { count: 4 }
                        } else {
                            self.finish(
                                Err(UnlockError::Protocol(ProtocolError::UnexpectedFrameSize(
                                    size,
                                ))),
                            )
                        }
                    } else {
                        self.finish(Err(UnlockError::IoError))
                    }
                },
                Event::ReadEndOfStream => self.finish(Err(UnlockError::ConnectionClosed)),
                Event::ReadFailed => self.finish(Err(UnlockError::IoError)),
                _ => unreached(),
            },
            Phase::AwaitCodeRead => match event {
                Event::ReadFilled { bytes } => {
                    if bytes.len() == 4 {
                        let code = decode_u32_be(bytes[0], bytes[1], bytes[2], bytes[3]);
                        match result_code_from(code) {
                            Ok(rc) => {
                                let outcome = Self::map_result(rc);
                                self.finish(outcome)
                            },
                            Err(e) => self.finish(Err(UnlockError::Protocol(e))),
                        }
                    } else {
                        self.finish(Err(UnlockError::IoError))
                    }
                },
                Event::ReadEndOfStream => self.finish(Err(UnlockError::ConnectionClosed)),
                Event::ReadFailed => self.finish(Err(UnlockError::IoError)),
                _ => unreached(),
            },
            Phase::Finished => unreached(),
        }
    }

    /// Answer a write report in a write phase: the full expected count moves
    /// the exchange along; anything else is a short write, `IoError`.
    fn handle_write(&mut self, event: Event, expected: usize) -> (step: Step)
        requires
            old(self).wf(),
            spec_is_write_phase(old(self).phase()),
            event is WriteAccepted || event is WriteFailed,
            expected == spec_pending_write(old(self).phase(), old(self).frame()).len(),
        ensures
            final(self).wf(),
            final(self).frame() == old(self).frame(),
            event matches Event::WriteAccepted { count } && count == expected ==> {
                let next = spec_after_write(old(self).phase());
                &&& final(self).phase() == next
                &&& next is AwaitSizeRead ==> (step matches Step::Read { count: c } && c == 4)
                &&& !(next is AwaitSizeRead) ==> (step matches Step::Write { bytes } && bytes@
                    == spec_pending_write(next, old(self).frame()))
            },
            event is WriteFailed || (event matches Event::WriteAccepted { count } && count
                != expected) ==> spec_stopped(*final(self), step, Err(UnlockError::IoError)),
    {
        match event {
            Event::WriteAccepted { count } => {
                if count == expected {
                    match self.phase {
                        Phase::AwaitNegotiationWrite => {
                            self.phase = Phase::AwaitSizeWrite;
                            Step::Write { bytes: self.frame_part(0, 4) }
                        },
                        Phase::AwaitSizeWrite => {
                            self.phase = Phase::AwaitOperationWrite;
                            Step::Write { bytes: self.frame_part(4, 8) }
                        },
                        Phase::AwaitOperationWrite => {
                            self.phase = Phase::AwaitLengthWrite;
                            Step::Write { bytes: self.frame_part(8, 12) }
                        },
                        Phase::AwaitLengthWrite => {
                            self.phase = Phase::AwaitSecretWrite;
                            let end = self.frame.len();
                            Step::Write { bytes: self.frame_part(12, end) }
                        },
                        Phase::AwaitSecretWrite => {
                            self.phase = Phase::AwaitSizeRead;
                            Step::Read { count: 4 }
                        },
                        _ => unreached(),
                    }
                } else {
                    self.finish(Err(UnlockError::IoError))
                }
            },
            Event::WriteFailed => self.finish(Err(UnlockError::IoError)),
            _ => unreached(),
        }
    }

    /// Finish the exchange with `outcome`; every exit path of the state
    /// machine runs through here.
    fn finish(&mut self, outcome: Result<(), UnlockError>) -> (step: Step)
        ensures
            final(self).frame() == old(self).frame(),
            spec_stopped(*final(self), step, outcome),
    {
        self.phase = Phase::Finished;
        Step::Finish { outcome }
    }

    /// Copy one piece of the request frame out for a write step.
    fn frame_part(&self, from: usize, to: usize) -> (r: Vec<u8>)
        requires
            from <= to <= self.frame().len(),
        ensures
            r@ == self.frame().subrange(from as int, to as int),
    {
        vstd::slice::slice_to_vec(&self.frame.as_slice()[from..to])
    }
}

} // verus!
