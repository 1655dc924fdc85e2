//! Binary wire codec for the keyring service's control protocol.
//!
//! A request frame is a 4-byte big-endian size field (counting everything that
//! follows it, never itself), a 4-byte operation code, a 4-byte secret length,
//! and the secret bytes. A response frame is a 4-byte size field that must be
//! exactly `RESPONSE_SIZE`, followed by a 4-byte result code.

use vstd::prelude::*;
use vstd::slice::slice_to_vec;

verus! {

/// Numeric code of the `Init` control operation.
pub const OP_INIT: u32 = 0x00;

/// Numeric code of the `Unlock` control operation.
pub const OP_UNLOCK: u32 = 0x01;

/// Numeric code of the `Change` control operation.
pub const OP_CHANGE: u32 = 0x02;

/// Numeric code of the `Quit` control operation.
pub const OP_QUIT: u32 = 0x03;

/// Numeric code of the `Accepted` result.
pub const CODE_ACCEPTED: u32 = 0x00;

/// Numeric code of the `Denied` result.
pub const CODE_DENIED: u32 = 0x01;

/// Numeric code of the `Failed` result.
pub const CODE_FAILED: u32 = 0x02;

/// Numeric code of the `NoDaemon` result.
pub const CODE_NO_DAEMON: u32 = 0x03;

/// The only size field a well-formed response carries.
pub const RESPONSE_SIZE: u32 = 8;

/// The request kinds the control protocol defines. Only `Unlock` is exercised
/// by this client; the others exist in the protocol.
#[derive(Clone, Copy, Debug, PartialEq, Eq, Structural)]
pub enum ControlOperation {
    Init,
    Unlock,
    Change,
    Quit,
}

/// The response outcomes the control protocol defines. Any numeric code
/// outside this closed set is a protocol violation, never a silent default.
#[derive(Clone, Copy, Debug, PartialEq, Eq, Structural)]
pub enum ResultCode {
    Accepted,
    Denied,
    Failed,
    NoDaemon,
}

/// A malformed-but-parseable response: wrong size field or a result code
/// outside the closed set. Each variant carries the offending value.
#[derive(Clone, Copy, Debug, PartialEq, Eq, Structural)]
pub enum ProtocolError {
    UnexpectedFrameSize(u32),
    UnknownResultCode(u32),
}

/// The wire code of a control operation.
pub open spec fn spec_operation_code(op: ControlOperation) -> u32 {
    match op {
        ControlOperation::Init => OP_INIT,
        ControlOperation::Unlock => OP_UNLOCK,
        ControlOperation::Change => OP_CHANGE,
        ControlOperation::Quit => OP_QUIT,
    }
}

/// The wire code of a control operation.
pub fn operation_code(op: ControlOperation) -> (r: u32)
    ensures
        r == spec_operation_code(op),
{
    match op {
        ControlOperation::Init => OP_INIT,
        ControlOperation::Unlock => OP_UNLOCK,
        ControlOperation::Change => OP_CHANGE,
        ControlOperation::Quit => OP_QUIT,
    }
}

/// The four big-endian bytes of a 32-bit value, most significant first.
pub open spec fn spec_be_bytes(n: u32) -> Seq<u8> {
    seq![
        ((n >> 24) & 0xff) as u8,
        ((n >> 16) & 0xff) as u8,
        ((n >> 8) & 0xff) as u8,
        (n & 0xff) as u8,
    ]
}

/// The 32-bit value read from four big-endian bytes.
pub open spec fn spec_u32_of_be(b0: u8, b1: u8, b2: u8, b3: u8) -> u32 {
    ((b0 as u32) << 24) | ((b1 as u32) << 16) | ((b2 as u32) << 8) | (b3 as u32)
}

/// The 32-bit value read from the first four bytes of a sequence, big-endian.
pub open spec fn spec_u32_of_be_seq(b: Seq<u8>) -> u32
    recommends
        b.len() >= 4,
{
    spec_u32_of_be(b[0], b[1], b[2], b[3])
}

/// Serialise a 32-bit value as four big-endian bytes.
pub fn encode_u32_be(n: u32) -> (r: Vec<u8>)
    ensures
        r@ == spec_be_bytes(n),
{
    let mut r: Vec<u8> = Vec::new();
    r.push(((n >> 24) & 0xff) as u8);
    r.push(((n >> 16) & 0xff) as u8);
    r.push(((n >> 8) & 0xff) as u8);
    r.push((n & 0xff) as u8);
    proof {
        assert(r@ =~= spec_be_bytes(n));
    }
    r
}

/// Read a 32-bit value from four big-endian bytes.
pub fn decode_u32_be(b0: u8, b1: u8, b2: u8, b3: u8) -> (r: u32)
    ensures
        r == spec_u32_of_be(b0, b1, b2, b3),
{
    ((b0 as u32) << 24) | ((b1 as u32) << 16) | ((b2 as u32) << 8) | (b3 as u32)
}

/// The result a numeric response code maps to: a member of the closed set, or
/// `UnknownResultCode` for anything else.
pub open spec fn spec_result_code(code: u32) -> Result<ResultCode, ProtocolError> {
    if code == CODE_ACCEPTED {
        Ok(ResultCode::Accepted)
    } else if code == CODE_DENIED {
        Ok(ResultCode::Denied)
    } else if code == CODE_FAILED {
        Ok(ResultCode::Failed)
    } else if code == CODE_NO_DAEMON {
        Ok(ResultCode::NoDaemon)
    } else {
        Err(ProtocolError::UnknownResultCode(code))
    }
}

/// Map a numeric response code to a `ResultCode`. A code outside the closed
/// set is a typed `UnknownResultCode` error, never a crash.
pub fn result_code_from(code: u32) -> (r: Result<ResultCode, ProtocolError>)
    ensures
        r == spec_result_code(code),
{
    match code {
        0x00 => Ok(ResultCode::Accepted),
        0x01 => Ok(ResultCode::Denied),
        0x02 => Ok(ResultCode::Failed),
        0x03 => Ok(ResultCode::NoDaemon),
        _ => Err(ProtocolError::UnknownResultCode(code)),
    }
}

/// The encoded request frame for operation `op` carrying `secret`: a
/// big-endian size field holding `8 + secret.len()` — it counts the operation
/// code field, the secret-length field and the secret bytes, never itself —
/// then the operation code, the secret length, and the secret, each
/// big-endian and 4 bytes wide but for the secret itself.
pub open spec fn spec_request_frame(op: ControlOperation, secret: Seq<u8>) -> Seq<u8>
    recommends
        secret.len() + 8 <= u32::MAX,
{
    spec_be_bytes((8 + secret.len()) as u32) + spec_be_bytes(spec_operation_code(op))
        + spec_be_bytes(secret.len() as u32) + secret
}

/// Encode an unlock-protocol request frame for `op` carrying `secret`.
pub fn encode(op: ControlOperation, secret: &[u8]) -> (r: Vec<u8>)
    requires
        secret@.len() + 8 <= u32::MAX,
    ensures
        r@ == spec_request_frame(op, secret@),
        r@.len() == 12 + secret@.len(),
{
    let secret_len: u32 = secret.len() as u32;
    let mut r = encode_u32_be(8 + secret_len);
    let mut part = encode_u32_be(operation_code(op));
    r.append(&mut part);
    let mut part = encode_u32_be(secret_len);
    r.append(&mut part);
    let mut tail = slice_to_vec(secret);
    r.append(&mut tail);
    proof {
        assert(r@ =~= spec_request_frame(op, secret@));
    }
    r
}

/// The result an 8-byte response frame decodes to: a size field other than
/// `RESPONSE_SIZE` is `UnexpectedFrameSize` whatever the trailing bytes hold;
/// otherwise the result code field decides, and a code outside the closed set
/// is `UnknownResultCode`.
pub open spec fn spec_decode(frame: Seq<u8>) -> Result<ResultCode, ProtocolError>
    recommends
        frame.len() == 8,
{
    let size = spec_u32_of_be_seq(frame);
    if size != RESPONSE_SIZE {
        Err(ProtocolError::UnexpectedFrameSize(size))
    } else {
        spec_result_code(spec_u32_of_be_seq(frame.skip(4)))
    }
}

/// Decode a complete 8-byte response frame into a result code or a typed
/// protocol error; a malformed frame is never a crash.
pub fn decode(frame: &[u8]) -> (r: Result<ResultCode, ProtocolError>)
    requires
        frame@.len() == 8,
    ensures
        r == spec_decode(frame@),
{
    let size = decode_u32_be(frame[0], frame[1], frame[2], frame[3]);
    if size != RESPONSE_SIZE {
        Err(ProtocolError::UnexpectedFrameSize(size))
    } else {
        result_code_from(decode_u32_be(frame[4], frame[5], frame[6], frame[7]))
    }
}

/// The size field of every encoded request counts the operation code field,
/// the secret-length field and the secret bytes — `8 + L` for a secret of
/// `L` bytes — and never counts itself: the whole frame is `12 + L` bytes,
/// 4 of which are the size field.
pub proof fn lemma_request_size_field(op: ControlOperation, secret: Seq<u8>)
    requires
        secret.len() + 8 <= u32::MAX,
    ensures
        spec_request_frame(op, secret).len() == 12 + secret.len(),
        spec_request_frame(op, secret).subrange(0, 4) == spec_be_bytes(
            (8 + secret.len()) as u32,
        ),
        spec_request_frame(op, secret).subrange(4, 8) == spec_be_bytes(spec_operation_code(op)),
        spec_request_frame(op, secret).subrange(8, 12) == spec_be_bytes(secret.len() as u32),
        spec_request_frame(op, secret).subrange(
            12,
            spec_request_frame(op, secret).len() as int,
        ) == secret,
{
    let frame = spec_request_frame(op, secret);
    assert(frame.subrange(0, 4) =~= spec_be_bytes((8 + secret.len()) as u32));
    assert(frame.subrange(4, 8) =~= spec_be_bytes(spec_operation_code(op)));
    assert(frame.subrange(8, 12) =~= spec_be_bytes(secret.len() as u32));
    assert(frame.subrange(12, frame.len() as int) =~= secret);
}

} // verus!
