//! Control-message codec: a tagged, self-describing payload encoding and
//! the `u32 length (big-endian) || payload` framing that carries it on a
//! substream.
//!
//! A receiver ignores payloads whose tag it does not recognize, so that a
//! newer sender can talk to an older receiver; a payload with a known tag
//! but a malformed body is a protocol violation.

use vstd::prelude::*;

use crate::error::Error;
use crate::protocol::{
    message_wf, name_wf, ControlMessage, MessageModel, PeerIdentity, ServiceName,
};

verus! {

pub const TAG_HELLO: u8 = 1;

pub const TAG_CONNECT_TO_PEER: u8 = 2;

pub const TAG_PEER_NOT_FOUND: u8 = 3;

pub const TAG_REQUEST_SERVICE: u8 = 4;

pub const TAG_SERVICE_ESTABLISHED: u8 = 5;

pub const TAG_SERVICE_NOT_FOUND: u8 = 6;

/// The longest payload the codec emits: tag, connection id, length byte and
/// a 64-byte identity.
pub const MAX_PAYLOAD_LEN: usize = 74;

pub open spec fn spec_u64_to_be_bytes(x: u64) -> Seq<u8> {
    seq![
        (x >> 56) as u8,
        (x >> 48) as u8,
        (x >> 40) as u8,
        (x >> 32) as u8,
        (x >> 24) as u8,
        (x >> 16) as u8,
        (x >> 8) as u8,
        x as u8,
    ]
}

pub open spec fn spec_u64_from_be_bytes(s: Seq<u8>) -> u64
    recommends
        s.len() == 8,
{
    ((s[0] as u64) << 56) | ((s[1] as u64) << 48) | ((s[2] as u64) << 40) | ((s[3] as u64) << 32)
        | ((s[4] as u64) << 24) | ((s[5] as u64) << 16) | ((s[6] as u64) << 8) | (s[7] as u64)
}

pub open spec fn spec_u32_to_be_bytes(x: u32) -> Seq<u8> {
    seq![(x >> 24) as u8, (x >> 16) as u8, (x >> 8) as u8, x as u8]
}

pub open spec fn spec_u32_from_be_bytes(s: Seq<u8>) -> u32
    recommends
        s.len() == 4,
{
    ((s[0] as u32) << 24) | ((s[1] as u32) << 16) | ((s[2] as u32) << 8) | (s[3] as u32)
}

/// Reading back the eight big-endian bytes of a word gives the word.
pub proof fn lemma_u64_be_round_trip(x: u64)
    ensures
        spec_u64_from_be_bytes(spec_u64_to_be_bytes(x)) == x,
{
    assert((((x >> 56) as u8 as u64) << 56) | (((x >> 48) as u8 as u64) << 48) | (((x >> 40)
        as u8 as u64) << 40) | (((x >> 32) as u8 as u64) << 32) | (((x >> 24) as u8 as u64) << 24)
        | (((x >> 16) as u8 as u64) << 16) | (((x >> 8) as u8 as u64) << 8) | (x as u8 as u64)
        == x) by (bit_vector);
}

/// Writing back the word read from eight bytes gives the bytes.
pub proof fn lemma_u64_be_bytes_canonical(s: Seq<u8>)
    requires
        s.len() == 8,
    ensures
        spec_u64_to_be_bytes(spec_u64_from_be_bytes(s)) =~= s,
{
    let b0 = s[0];
    let b1 = s[1];
    let b2 = s[2];
    let b3 = s[3];
    let b4 = s[4];
    let b5 = s[5];
    let b6 = s[6];
    let b7 = s[7];
    let x = ((b0 as u64) << 56) | ((b1 as u64) << 48) | ((b2 as u64) << 40) | ((b3 as u64) << 32)
        | ((b4 as u64) << 24) | ((b5 as u64) << 16) | ((b6 as u64) << 8) | (b7 as u64);
    assert((x >> 56) as u8 == b0 && (x >> 48) as u8 == b1 && (x >> 40) as u8 == b2 && (x >> 32)
        as u8 == b3 && (x >> 24) as u8 == b4 && (x >> 16) as u8 == b5 && (x >> 8) as u8 == b6 && x
        as u8 == b7) by (bit_vector)
        requires
            x == ((b0 as u64) << 56) | ((b1 as u64) << 48) | ((b2 as u64) << 40) | ((b3
                as u64) << 32) | ((b4 as u64) << 24) | ((b5 as u64) << 16) | ((b6 as u64) << 8) | (
            b7 as u64),
    ;
}

/// Reading back the four big-endian bytes of a word gives the word.
pub proof fn lemma_u32_be_round_trip(x: u32)
    ensures
        spec_u32_from_be_bytes(spec_u32_to_be_bytes(x)) == x,
{
    assert((((x >> 24) as u8 as u32) << 24) | (((x >> 16) as u8 as u32) << 16) | (((x >> 8)
        as u8 as u32) << 8) | (x as u8 as u32) == x) by (bit_vector);
}

/// Appends the big-endian bytes of a 64-bit word.
fn push_u64_be(out: &mut Vec<u8>, x: u64)
    ensures
        final(out)@ == old(out)@ + spec_u64_to_be_bytes(x),
{
    out.push((x >> 56) as u8);
    out.push((x >> 48) as u8);
    out.push((x >> 40) as u8);
    out.push((x >> 32) as u8);
    out.push((x >> 24) as u8);
    out.push((x >> 16) as u8);
    out.push((x >> 8) as u8);
    out.push(x as u8);
    proof {
        assert(out@ =~= old(out)@ + spec_u64_to_be_bytes(x));
    }
}

/// Reads a big-endian 64-bit word at the given offset.
fn read_u64_be(bytes: &[u8], at: usize) -> (x: u64)
    requires
        at + 8 <= bytes@.len(),
    ensures
        x == spec_u64_from_be_bytes(bytes@.subrange(at as int, at as int + 8)),
{
    let x = ((bytes[at] as u64) << 56) | ((bytes[at + 1] as u64) << 48) | ((bytes[at + 2]
        as u64) << 40) | ((bytes[at + 3] as u64) << 32) | ((bytes[at + 4] as u64) << 24) | ((
    bytes[at + 5] as u64) << 16) | ((bytes[at + 6] as u64) << 8) | (bytes[at + 7] as u64);
    proof {
        let s = bytes@.subrange(at as int, at as int + 8);
        assert(s[0] == bytes@[at as int]);
        assert(s[1] == bytes@[at as int + 1]);
        assert(s[2] == bytes@[at as int + 2]);
        assert(s[3] == bytes@[at as int + 3]);
        assert(s[4] == bytes@[at as int + 4]);
        assert(s[5] == bytes@[at as int + 5]);
        assert(s[6] == bytes@[at as int + 6]);
        assert(s[7] == bytes@[at as int + 7]);
    }
    x
}

/// Copies `bytes[start..end]` into a fresh vector.
pub(crate) fn copy_range(bytes: &[u8], start: usize, end: usize) -> (r: Vec<u8>)
    requires
        start <= end <= bytes@.len(),
    ensures
        r@ == bytes@.subrange(start as int, end as int),
{
    let mut r: Vec<u8> = Vec::new();
    let mut i: usize = start;
    while i < end
        invariant
            start <= i <= end <= bytes@.len(),
            r@ == bytes@.subrange(start as int, i as int),
        decreases end - i,
    {
        r.push(bytes[i]);
        proof {
            assert(r@ =~= bytes@.subrange(start as int, i as int + 1));
        }
        i = i + 1;
    }
    r
}

/// The payload bytes of a control message.
pub open spec fn spec_encode_payload(m: MessageModel) -> Seq<u8> {
    match m {
        MessageModel::Hello => seq![TAG_HELLO],
        MessageModel::ConnectToPeer { target, connection_id } => seq![TAG_CONNECT_TO_PEER]
            + spec_u64_to_be_bytes(connection_id) + seq![target.len() as u8] + target,
        MessageModel::PeerNotFound { connection_id } => seq![TAG_PEER_NOT_FOUND]
            + spec_u64_to_be_bytes(connection_id),
        MessageModel::RequestService { name } => seq![TAG_REQUEST_SERVICE]
            + seq![name.len() as u8] + name,
        MessageModel::ServiceConnectionEstablished => seq![TAG_SERVICE_ESTABLISHED],
        MessageModel::ServiceNotFound => seq![TAG_SERVICE_NOT_FOUND],
    }
}

/// Encodes a control message into its payload bytes (without framing).
pub fn encode_payload(m: &ControlMessage) -> (r: Vec<u8>)
    requires
        m.wf(),
    ensures
        r@ == spec_encode_payload(m@),
        1 <= r@.len() <= MAX_PAYLOAD_LEN,
{
    let mut out: Vec<u8> = Vec::new();
    match m {
        ControlMessage::Hello => {
            out.push(TAG_HELLO);
            proof {
                assert(out@ =~= spec_encode_payload(m@));
            }
        },
        ControlMessage::ConnectToPeer { target, connection_id } => {
            out.push(TAG_CONNECT_TO_PEER);
            push_u64_be(&mut out, *connection_id);
            let tb = target.as_bytes();
            out.push(tb.len() as u8);
            out.extend_from_slice(tb.as_slice());
            proof {
                assert(out@ =~= spec_encode_payload(m@));
            }
        },
        ControlMessage::PeerNotFound { connection_id } => {
            out.push(TAG_PEER_NOT_FOUND);
            push_u64_be(&mut out, *connection_id);
            proof {
                assert(out@ =~= spec_encode_payload(m@));
            }
        },
        ControlMessage::RequestService { name } => {
            out.push(TAG_REQUEST_SERVICE);
            let nb = name.as_bytes();
            out.push(nb.len() as u8);
            out.extend_from_slice(nb.as_slice());
            proof {
                assert(out@ =~= spec_encode_payload(m@));
            }
        },
        ControlMessage::ServiceConnectionEstablished => {
            out.push(TAG_SERVICE_ESTABLISHED);
            proof {
                assert(out@ =~= spec_encode_payload(m@));
            }
        },
        ControlMessage::ServiceNotFound => {
            out.push(TAG_SERVICE_NOT_FOUND);
            proof {
                assert(out@ =~= spec_encode_payload(m@));
            }
        },
    }
    out
}

/// What a received payload decodes to.
pub enum DecodeOutcome {
    /// A control message the receiver understands.
    Control(MessageModel),
    /// A tag this receiver does not know; ignored on a control substream.
    Unrecognized,
    /// A known tag with a malformed body.
    Malformed,
}

/// The meaning of a payload: which control message it carries, if any.
pub open spec fn spec_decode_payload(s: Seq<u8>) -> DecodeOutcome {
    if s.len() == 0 {
        DecodeOutcome::Malformed
    } else if s[0] == TAG_HELLO {
        if s.len() == 1 {
            DecodeOutcome::Control(MessageModel::Hello)
        } else {
            DecodeOutcome::Malformed
        }
    } else if s[0] == TAG_CONNECT_TO_PEER {
        if s.len() >= 10 && 1 <= s[9] as int <= 64 && s.len() == 10 + s[9] as int {
            DecodeOutcome::Control(
                MessageModel::ConnectToPeer {
                    target: s.subrange(10, 10 + s[9] as int),
                    connection_id: spec_u64_from_be_bytes(s.subrange(1, 9)),
                },
            )
        } else {
            DecodeOutcome::Malformed
        }
    } else if s[0] == TAG_PEER_NOT_FOUND {
        if s.len() == 9 {
            DecodeOutcome::Control(
                MessageModel::PeerNotFound {
                    connection_id: spec_u64_from_be_bytes(s.subrange(1, 9)),
                },
            )
        } else {
            DecodeOutcome::Malformed
        }
    } else if s[0] == TAG_REQUEST_SERVICE {
        if s.len() >= 2 && s.len() == 2 + s[1] as int && name_wf(s.subrange(2, 2 + s[1] as int)) {
            DecodeOutcome::Control(
                MessageModel::RequestService { name: s.subrange(2, 2 + s[1] as int) },
            )
        } else {
            DecodeOutcome::Malformed
        }
    } else if s[0] == TAG_SERVICE_ESTABLISHED {
        if s.len() == 1 {
            DecodeOutcome::Control(MessageModel::ServiceConnectionEstablished)
        } else {
            DecodeOutcome::Malformed
        }
    } else if s[0] == TAG_SERVICE_NOT_FOUND {
        if s.len() == 1 {
            DecodeOutcome::Control(MessageModel::ServiceNotFound)
        } else {
            DecodeOutcome::Malformed
        }
    } else {
        DecodeOutcome::Unrecognized
    }
}

/// Decodes a received payload.
///
/// `Ok(Some(m))` is a recognized control message, `Ok(None)` an
/// unrecognized tag (to be ignored on a control substream), and
/// `Err(ProtocolViolation)` a known tag with a malformed body.
pub fn decode_payload(bytes: &[u8]) -> (r: Result<Option<ControlMessage>, Error>)
    ensures
        r matches Ok(Some(m)) ==> spec_decode_payload(bytes@) == DecodeOutcome::Control(m@)
            && m.wf(),
        r matches Ok(o) ==> (o is None <==> spec_decode_payload(bytes@)
            == DecodeOutcome::Unrecognized),
        r is Err <==> spec_decode_payload(bytes@) == DecodeOutcome::Malformed,
        r matches Err(e) ==> e == Error::ProtocolViolation,
        spec_decode_payload(bytes@) matches DecodeOutcome::Control(mm) ==> (r matches Ok(
        Some(m)) && m@ == mm),
{
    if bytes.len() == 0 {
        return Err(Error::ProtocolViolation);
    }
    let tag = bytes[0];
    if tag == TAG_HELLO {
        if bytes.len() == 1 {
            Ok(Some(ControlMessage::Hello))
        } else {
            Err(Error::ProtocolViolation)
        }
    } else if tag == TAG_CONNECT_TO_PEER {
        if bytes.len() < 10 {
            return Err(Error::ProtocolViolation);
        }
        let n = bytes[9] as usize;
        if n < 1 || n > 64 || bytes.len() != 10 + n {
            return Err(Error::ProtocolViolation);
        }
        let connection_id = read_u64_be(bytes, 1);
        let tb = copy_range(bytes, 10, 10 + n);
        match PeerIdentity::from_bytes(tb) {
            Ok(target) => Ok(Some(ControlMessage::ConnectToPeer { target, connection_id })),
            Err(_) => {
                // The length was checked above, so the identity is well
                // formed and wrapping cannot fail.
                proof {
                    assert(false);
                }
                Err(Error::ProtocolViolation)
            },
        }
    } else if tag == TAG_PEER_NOT_FOUND {
        if bytes.len() != 9 {
            return Err(Error::ProtocolViolation);
        }
        let connection_id = read_u64_be(bytes, 1);
        Ok(Some(ControlMessage::PeerNotFound { connection_id }))
    } else if tag == TAG_REQUEST_SERVICE {
        if bytes.len() < 2 {
            return Err(Error::ProtocolViolation);
        }
        let n = bytes[1] as usize;
        if bytes.len() != 2 + n {
            return Err(Error::ProtocolViolation);
        }
        let nb = copy_range(bytes, 2, 2 + n);
        match ServiceName::from_bytes(nb) {
            Ok(name) => Ok(Some(ControlMessage::RequestService { name })),
            Err(_) => Err(Error::ProtocolViolation),
        }
    } else if tag == TAG_SERVICE_ESTABLISHED {
        if bytes.len() == 1 {
            Ok(Some(ControlMessage::ServiceConnectionEstablished))
        } else {
            Err(Error::ProtocolViolation)
        }
    } else if tag == TAG_SERVICE_NOT_FOUND {
        if bytes.len() == 1 {
            Ok(Some(ControlMessage::ServiceNotFound))
        } else {
            Err(Error::ProtocolViolation)
        }
    } else {
        Ok(None)
    }
}

/// Encoding then decoding a well-formed control message gives the message
/// back: the wire protocol round-trips every variant.
pub proof fn lemma_payload_round_trip(m: MessageModel)
    requires
        message_wf(m),
    ensures
        spec_decode_payload(spec_encode_payload(m)) == DecodeOutcome::Control(m),
{
    let s = spec_encode_payload(m);
    match m {
        MessageModel::Hello => {
            assert(s.len() == 1 && s[0] == TAG_HELLO);
        },
        MessageModel::ConnectToPeer { target, connection_id } => {
            assert(s.len() == 10 + target.len());
            assert(s[0] == TAG_CONNECT_TO_PEER);
            assert(s[9] == target.len() as u8);
            assert(s[9] as int == target.len());
            assert(s.subrange(1, 9) =~= spec_u64_to_be_bytes(connection_id));
            lemma_u64_be_round_trip(connection_id);
            assert(s.subrange(10, 10 + s[9] as int) =~= target);
        },
        MessageModel::PeerNotFound { connection_id } => {
            assert(s.len() == 9);
            assert(s[0] == TAG_PEER_NOT_FOUND);
            assert(s.subrange(1, 9) =~= spec_u64_to_be_bytes(connection_id));
            lemma_u64_be_round_trip(connection_id);
        },
        MessageModel::RequestService { name } => {
            assert(s.len() == 2 + name.len());
            assert(s[0] == TAG_REQUEST_SERVICE);
            assert(s[1] == name.len() as u8);
            assert(s[1] as int == name.len());
            assert(s.subrange(2, 2 + s[1] as int) =~= name);
        },
        MessageModel::ServiceConnectionEstablished => {
            assert(s.len() == 1 && s[0] == TAG_SERVICE_ESTABLISHED);
        },
        MessageModel::ServiceNotFound => {
            assert(s.len() == 1 && s[0] == TAG_SERVICE_NOT_FOUND);
        },
    }
}

/// The decoder accepts only the canonical encoding: a payload that decodes
/// to a control message is byte for byte what the encoder emits for it, and
/// the message is well formed.
pub proof fn lemma_decode_canonical(s: Seq<u8>, m: MessageModel)
    requires
        spec_decode_payload(s) == DecodeOutcome::Control(m),
    ensures
        s =~= spec_encode_payload(m),
        message_wf(m),
{
    if s[0] == TAG_CONNECT_TO_PEER {
        let n = s[9] as int;
        let target = s.subrange(10, 10 + n);
        let connection_id = spec_u64_from_be_bytes(s.subrange(1, 9));
        lemma_u64_be_bytes_canonical(s.subrange(1, 9));
        assert(target.len() == n);
        assert(spec_encode_payload(m) =~= seq![TAG_CONNECT_TO_PEER] + s.subrange(1, 9)
            + seq![s[9]] + target);
    } else if s[0] == TAG_PEER_NOT_FOUND {
        lemma_u64_be_bytes_canonical(s.subrange(1, 9));
        assert(spec_encode_payload(m) =~= seq![TAG_PEER_NOT_FOUND] + s.subrange(1, 9));
    } else if s[0] == TAG_REQUEST_SERVICE {
        let n = s[1] as int;
        let name = s.subrange(2, 2 + n);
        assert(name.len() == n);
        assert(spec_encode_payload(m) =~= seq![TAG_REQUEST_SERVICE] + seq![s[1]] + name);
    }
}

/// A payload wrapped in its frame: big-endian length, then the bytes.
pub open spec fn spec_frame(payload: Seq<u8>) -> Seq<u8>
    recommends
        payload.len() <= u32::MAX,
{
    spec_u32_to_be_bytes(payload.len() as u32) + payload
}

/// Encodes a control message and wraps it in a length frame, ready to be
/// written to a substream in one piece.
pub fn encode_frame(m: &ControlMessage) -> (r: Vec<u8>)
    requires
        m.wf(),
    ensures
        r@ == spec_frame(spec_encode_payload(m@)),
        r@.len() == 4 + spec_encode_payload(m@).len(),
{
    let payload = encode_payload(m);
    let n = payload.len() as u32;
    let mut out: Vec<u8> = Vec::new();
    out.push((n >> 24) as u8);
    out.push((n >> 16) as u8);
    out.push((n >> 8) as u8);
    out.push(n as u8);
    out.extend_from_slice(payload.as_slice());
    proof {
        assert(out@ =~= spec_frame(spec_encode_payload(m@)));
    }
    out
}

/// Reads a big-endian 32-bit word at the given offset.
fn read_u32_be(bytes: &[u8], at: usize) -> (x: u32)
    requires
        at + 4 <= bytes@.len(),
    ensures
        x == spec_u32_from_be_bytes(bytes@.subrange(at as int, at as int + 4)),
{
    let x = ((bytes[at] as u32) << 24) | ((bytes[at + 1] as u32) << 16) | ((bytes[at + 2]
        as u32) << 8) | (bytes[at + 3] as u32);
    proof {
        let s = bytes@.subrange(at as int, at as int + 4);
        assert(s[0] == bytes@[at as int]);
        assert(s[1] == bytes@[at as int + 1]);
        assert(s[2] == bytes@[at as int + 2]);
        assert(s[3] == bytes@[at as int + 3]);
    }
    x
}

/// Whether the buffered bytes start with one complete frame.
pub open spec fn spec_frame_ready(s: Seq<u8>) -> bool {
    s.len() >= 4 && s.len() >= 4 + spec_u32_from_be_bytes(s.subrange(0, 4)) as int
}

/// The payload length announced by the frame header.
pub open spec fn spec_frame_len(s: Seq<u8>) -> int
    recommends
        s.len() >= 4,
{
    spec_u32_from_be_bytes(s.subrange(0, 4)) as int
}

/// Reassembles frames from the byte chunks a substream delivers.
///
/// Bytes go in as they arrive; complete payloads come out in the order
/// their frames were sent, never splitting or reordering a frame.
pub struct FrameBuffer {
    buf: Vec<u8>,
}

impl View for FrameBuffer {
    type V = Seq<u8>;

    closed spec fn view(&self) -> Seq<u8> {
        self.buf@
    }
}

impl FrameBuffer {
    /// An empty reassembly buffer.
    pub fn new() -> (r: FrameBuffer)
        ensures
            r@ == Seq::<u8>::empty(),
    {
        FrameBuffer { buf: Vec::new() }
    }

    /// How many bytes are buffered and not yet consumed as frames.
    pub fn buffered(&self) -> (r: usize)
        ensures
            r == self@.len(),
    {
        self.buf.len()
    }

    /// Appends a chunk of bytes received from the substream.
    pub fn feed(&mut self, data: &[u8])
        requires
            old(self)@.len() + data@.len() <= usize::MAX,
        ensures
            final(self)@ == old(self)@ + data@,
    {
        self.buf.extend_from_slice(data);
    }

    /// Empties the buffer, handing back everything still in it. This is
    /// the promotion step: once a substream stops carrying control
    /// frames, what has already arrived is raw service payload.
    pub fn take_all(&mut self) -> (r: Vec<u8>)
        ensures
            r@ == old(self)@,
            final(self)@ == Seq::<u8>::empty(),
    {
        let mut taken = Vec::new();
        std::mem::swap(&mut taken, &mut self.buf);
        taken
    }

    /// Takes the first complete frame's payload out of the buffer, or
    /// returns nothing and leaves the buffer unchanged if no complete
    /// frame has arrived yet.
    pub fn next_frame(&mut self) -> (r: Option<Vec<u8>>)
        ensures
            spec_frame_ready(old(self)@) ==> (r matches Some(p) && p@ == old(self)@.subrange(
                4,
                4 + spec_frame_len(old(self)@),
            ) && final(self)@ == old(self)@.subrange(
                4 + spec_frame_len(old(self)@),
                old(self)@.len() as int,
            )),
            !spec_frame_ready(old(self)@) ==> r is None && final(self)@ == old(self)@,
    {
        if self.buf.len() < 4 {
            return None;
        }
        let n = read_u32_be(self.buf.as_slice(), 0);
        if (self.buf.len() as u64) < 4u64 + (n as u64) {
            return None;
        }
        let n_us = n as usize;
        let payload = copy_range(self.buf.as_slice(), 4, 4 + n_us);
        let rest = copy_range(self.buf.as_slice(), 4 + n_us, self.buf.len());
        self.buf = rest;
        Some(payload)
    }
}

/// A framed message at the head of a byte stream is recovered exactly:
/// the frame is complete, its payload is the message's encoding, and the
/// bytes that follow it are untouched.
pub proof fn lemma_frame_delivery(m: MessageModel, rest: Seq<u8>)
    requires
        message_wf(m),
    ensures
        ({
            let stream = spec_frame(spec_encode_payload(m)) + rest;
            &&& spec_frame_ready(stream)
            &&& spec_frame_len(stream) == spec_encode_payload(m).len()
            &&& stream.subrange(4, 4 + spec_frame_len(stream)) =~= spec_encode_payload(m)
            &&& stream.subrange(4 + spec_frame_len(stream), stream.len() as int) =~= rest
        }),
{
    let payload = spec_encode_payload(m);
    let stream = spec_frame(payload) + rest;
    assert(stream.subrange(0, 4) =~= spec_u32_to_be_bytes(payload.len() as u32));
    lemma_u32_be_round_trip(payload.len() as u32);
}

} // verus!
