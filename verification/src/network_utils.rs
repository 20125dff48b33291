//! Framed message transport.
//!
//! Each frame on the wire is a 16-bit big-endian length followed by that
//! many bytes of UTF-8 text. The encoder and the decoder are verified
//! against one frame grammar, and a round-trip law ties them together.

use crate::error::RussulaError;
use crate::encoding::is_valid_utf8;
use vstd::prelude::*;
use vstd::string::StringSliceAdditionalSpecFns;
use vstd::utf8::valid_utf8;

verus! {

/// The two-byte big-endian prefix encoding `len`.
pub open spec fn len_prefix(len: u16) -> Seq<u8> {
    seq![(len / 256) as u8, (len % 256) as u8]
}

/// The encoded frame for a payload: length prefix, then the payload bytes.
pub open spec fn frame_spec(payload: Seq<u8>) -> Seq<u8>
    recommends
        payload.len() <= 0xFFFF,
{
    len_prefix(payload.len() as u16) + payload
}

/// The length announced by a frame's prefix.
pub open spec fn announced_len(buf: Seq<u8>) -> int
    recommends
        buf.len() >= 2,
{
    buf[0] * 256 + buf[1]
}

/// True when decoding the buffer fails with `ReadFail`: the peer closed
/// before a complete prefix arrived, or before the announced number of
/// payload bytes arrived.
pub open spec fn parse_is_read_fail(buf: Seq<u8>) -> bool {
    buf.len() < 2 || buf.len() - 2 < announced_len(buf)
}

/// True when decoding the buffer fails with `BadMsg`: more bytes than
/// announced, or a payload that is not valid UTF-8.
pub open spec fn parse_is_bad_msg(buf: Seq<u8>) -> bool {
    buf.len() >= 2 && (buf.len() - 2 > announced_len(buf) || (buf.len() - 2 == announced_len(buf)
        && !valid_utf8(buf.skip(2))))
}

/// True when the buffer decodes to a message.
pub open spec fn parse_ok(buf: Seq<u8>) -> bool {
    buf.len() >= 2 && buf.len() - 2 == announced_len(buf) && valid_utf8(buf.skip(2))
}

/// A length-prefixed message whose payload is valid UTF-8 text.
pub struct Msg {
    len: u16,
    data: Vec<u8>,
}

impl Msg {
    /// The message invariant: the recorded length is the payload length,
    /// and the payload is valid UTF-8.
    pub closed spec fn wf(&self) -> bool {
        &&& self.len == self.data@.len()
        &&& valid_utf8(self.data@)
    }

    /// The payload bytes.
    pub closed spec fn payload(&self) -> Seq<u8> {
        self.data@
    }

    /// Accept a payload as a message: it must be valid UTF-8 and fit the
    /// 16-bit length prefix; anything else is a `BadMsg`.
    pub fn new(data: Vec<u8>) -> (r: Result<Msg, RussulaError>)
        ensures
            r is Ok <==> (valid_utf8(data@) && data@.len() <= 0xFFFF),
            r matches Ok(m) ==> m.wf() && m.payload() == data@,
            r matches Err(e) ==> e is BadMsg,
    {
        if data.len() > 0xFFFF {
            return Err(
                RussulaError::BadMsg { dbg: String::from_str("payload too long for a frame") },
            );
        }
        if !is_valid_utf8(data.as_slice()) {
            return Err(
                RussulaError::BadMsg { dbg: String::from_str("payload is not valid utf8") },
            );
        }
        let len = data.len() as u16;
        Ok(Msg { len, data })
    }

    /// Wrap a payload that is already known to be sound: valid UTF-8 and
    /// short enough for the length prefix.
    pub fn from_payload(data: Vec<u8>) -> (r: Msg)
        requires
            valid_utf8(data@),
            data@.len() <= 0xFFFF,
        ensures
            r.wf(),
            r.payload() == data@,
    {
        let len = data.len() as u16;
        Msg { len, data }
    }

    /// The payload bytes.
    pub fn as_bytes(&self) -> (r: &[u8])
        ensures
            r@ == self.payload(),
    {
        self.data.as_slice()
    }

    /// The payload as text.
    pub fn as_str(&self) -> (r: &str)
        requires
            self.wf(),
        ensures
            r.spec_bytes() == self.payload(),
    {
        bytes_as_str(self.data.as_slice())
    }

    /// The payload length recorded in the frame header.
    pub fn payload_len(&self) -> (r: u16)
        requires
            self.wf(),
        ensures
            r == self.payload().len(),
    {
        self.len
    }
}

/// Relies on `str::from_utf8` of std: on bytes that are valid UTF-8 it
/// returns `Ok` of a string slice over exactly those bytes.
#[verifier::external_body]
fn bytes_as_str(b: &[u8]) -> (r: &str)
    requires
        valid_utf8(b@),
    ensures
        r.spec_bytes() == b@,
{
    std::str::from_utf8(b).expect("checked utf8")
}

/// Encode a message as one frame: the big-endian length prefix followed by
/// the payload.
pub fn construct_payload(msg: &Msg) -> (r: Vec<u8>)
    requires
        msg.wf(),
    ensures
        r@ == frame_spec(msg.payload()),
{
    let mut r: Vec<u8> = Vec::new();
    r.push((msg.len / 256) as u8);
    r.push((msg.len % 256) as u8);
    let n = msg.data.len();
    let mut i: usize = 0;
    while i < n
        invariant
            n == msg.data@.len(),
            0 <= i <= n,
            r@ == len_prefix(msg.len) + msg.data@.subrange(0, i as int),
        decreases n - i,
    {
        let b = msg.data[i];
        r.push(b);
        proof {
            assert(r@ =~= len_prefix(msg.len) + msg.data@.subrange(0, i + 1));
        }
        i += 1;
    }
    proof {
        assert(msg.data@.subrange(0, n as int) =~= msg.data@);
        assert(r@ =~= frame_spec(msg.payload()));
    }
    r
}

/// Read the length prefix from the first read of a frame. An empty buffer
/// means the peer closed the stream; a short read is treated the same way.
pub fn read_msg_len(buf: &[u8]) -> (r: Result<u16, RussulaError>)
    ensures
        r is Ok <==> buf@.len() >= 2,
        r matches Ok(len) ==> len == announced_len(buf@),
        r matches Err(e) ==> e is ReadFail,
{
    if buf.len() < 2 {
        return Err(RussulaError::ReadFail { dbg: String::from_str("read 0 bytes, read closed?") });
    }
    let hi = buf[0];
    let lo = buf[1];
    Ok((hi as u16) * 256 + (lo as u16))
}

/// Decode one frame: the length prefix, then exactly the announced number
/// of payload bytes, which must be valid UTF-8. A buffer that ends before
/// the announced length fails with `ReadFail`; a buffer with extra bytes or
/// a non-UTF-8 payload fails with `BadMsg`.
pub fn parse_frame(buf: &[u8]) -> (r: Result<Msg, RussulaError>)
    ensures
        r is Ok <==> parse_ok(buf@),
        r matches Ok(m) ==> m.wf() && m.payload() == buf@.skip(2) && m.payload().len()
            == announced_len(buf@),
        r matches Err(e) ==> if parse_is_read_fail(buf@) {
            e is ReadFail
        } else {
            e is BadMsg
        },
{
    let announced = match read_msg_len(buf) {
        Ok(len) => len,
        Err(e) => {
            return Err(e);
        },
    };
    let have = buf.len() - 2;
    if have < announced as usize {
        return Err(
            RussulaError::ReadFail { dbg: String::from_str("peer closed mid frame") },
        );
    }
    if have > announced as usize {
        return Err(
            RussulaError::BadMsg { dbg: String::from_str("received malformed or partial frame") },
        );
    }
    let mut data: Vec<u8> = Vec::new();
    let n = buf.len();
    let mut i: usize = 2;
    while i < n
        invariant
            2 <= i <= n,
            n == buf@.len(),
            data@ == buf@.subrange(2, i as int),
        decreases n - i,
    {
        let b = buf[i];
        data.push(b);
        proof {
            assert(data@ =~= buf@.subrange(2, i + 1));
        }
        i += 1;
    }
    proof {
        assert(data@ =~= buf@.skip(2));
    }
    match Msg::new(data) {
        Ok(m) => Ok(m),
        Err(e) => Err(e),
    }
}

/// Framing round-trip: any payload of at most 65535 bytes of valid UTF-8,
/// once encoded, decodes back to a message with that payload and that
/// length.
pub proof fn lemma_frame_round_trip(payload: Seq<u8>)
    requires
        payload.len() <= 0xFFFF,
        valid_utf8(payload),
    ensures
        parse_ok(frame_spec(payload)),
        frame_spec(payload).skip(2) == payload,
        announced_len(frame_spec(payload)) == payload.len(),
{
    let buf = frame_spec(payload);
    let len = payload.len() as u16;
    assert(buf[0] == len / 256 && buf[1] == len % 256);
    assert(announced_len(buf) == (len / 256) * 256 + (len % 256));
    assert((len / 256) * 256 + (len % 256) == len) by (nonlinear_arith);
    assert(buf.skip(2) =~= payload);
}

/// Framing rejection: a frame whose payload is not valid UTF-8 never
/// decodes to a message; it fails, and with `BadMsg`.
pub proof fn lemma_frame_rejects_bad_utf8(payload: Seq<u8>)
    requires
        payload.len() <= 0xFFFF,
        !valid_utf8(payload),
    ensures
        !parse_ok(frame_spec(payload)),
        parse_is_bad_msg(frame_spec(payload)),
{
    let buf = frame_spec(payload);
    let len = payload.len() as u16;
    assert(buf[0] == len / 256 && buf[1] == len % 256);
    assert((len / 256) * 256 + (len % 256) == len) by (nonlinear_arith);
    assert(buf.skip(2) =~= payload);
}

} // verus!
