//! The binary frame format: a 16-byte big-endian header followed by a payload.

use crate::json::{json_of, json_text_of, parse_json, print_json, JsonNumber, JsonValue};
use vstd::prelude::*;

verus! {

/// Length of every frame header, in bytes.
pub const HEADER_LENGTH: u16 = 16;

/// Sequence number carried by client-originated frames.
pub const SEQ: u32 = 1;

/// Operation code of a frame.
#[derive(Debug, Clone, Copy, PartialEq, Eq, Structural)]
pub enum OpType {
    HeartBeat,
    HeartBeatReply,
    Notification,
    Entry,
    EntryReply,
    /// Any code this connector does not understand, kept as it came.
    Unknown(u32),
}

/// The wire code of an operation.
pub open spec fn op_code(op: OpType) -> u32 {
    match op {
        OpType::HeartBeat => 2,
        OpType::HeartBeatReply => 3,
        OpType::Notification => 5,
        OpType::Entry => 7,
        OpType::EntryReply => 8,
        OpType::Unknown(n) => n,
    }
}

/// The operation that a wire code denotes.
pub open spec fn op_of_code(n: u32) -> OpType {
    if n == 2 {
        OpType::HeartBeat
    } else if n == 3 {
        OpType::HeartBeatReply
    } else if n == 5 {
        OpType::Notification
    } else if n == 7 {
        OpType::Entry
    } else if n == 8 {
        OpType::EntryReply
    } else {
        OpType::Unknown(n)
    }
}

/// An operation is canonical when decoding its code gives it back: `Unknown`
/// never holds one of the five known codes.
pub open spec fn op_is_canonical(op: OpType) -> bool {
    op_of_code(op_code(op)) == op
}

impl OpType {
    pub fn code(self) -> (r: u32)
        ensures
            r == op_code(self),
    {
        match self {
            OpType::HeartBeat => 2,
            OpType::HeartBeatReply => 3,
            OpType::Notification => 5,
            OpType::Entry => 7,
            OpType::EntryReply => 8,
            OpType::Unknown(n) => n,
        }
    }

    pub fn from_code(n: u32) -> (r: OpType)
        ensures
            r == op_of_code(n),
    {
        if n == 2 {
            OpType::HeartBeat
        } else if n == 3 {
            OpType::HeartBeatReply
        } else if n == 5 {
            OpType::Notification
        } else if n == 7 {
            OpType::Entry
        } else if n == 8 {
            OpType::EntryReply
        } else {
            OpType::Unknown(n)
        }
    }
}

impl From<OpType> for u32 {
    fn from(op: OpType) -> (r: u32) {
        op.code()
    }
}

impl vstd::std_specs::convert::FromSpecImpl<OpType> for u32 {
    open spec fn obeys_from_spec() -> bool {
        true
    }

    open spec fn from_spec(op: OpType) -> u32 {
        op_code(op)
    }
}

impl From<u32> for OpType {
    fn from(n: u32) -> (r: OpType) {
        OpType::from_code(n)
    }
}

impl vstd::std_specs::convert::FromSpecImpl<u32> for OpType {
    open spec fn obeys_from_spec() -> bool {
        true
    }

    open spec fn from_spec(n: u32) -> OpType {
        op_of_code(n)
    }
}

/// Big-endian bytes of a 32-bit value.
pub open spec fn be32(v: u32) -> Seq<u8> {
    seq![
        (v / 0x100_0000) as u8,
        ((v / 0x1_0000) % 0x100) as u8,
        ((v / 0x100) % 0x100) as u8,
        (v % 0x100) as u8,
    ]
}

/// Big-endian bytes of a 16-bit value.
pub open spec fn be16(v: u16) -> Seq<u8> {
    seq![(v / 0x100) as u8, (v % 0x100) as u8]
}

/// The 32-bit value of the four big-endian bytes at `i`.
pub open spec fn read_be32(b: Seq<u8>, i: int) -> u32 {
    (b[i] as int * 0x100_0000 + b[i + 1] as int * 0x1_0000 + b[i + 2] as int * 0x100 + b[i
        + 3] as int) as u32
}

/// The 16-bit value of the two big-endian bytes at `i`.
pub open spec fn read_be16(b: Seq<u8>, i: int) -> u16 {
    (b[i] as int * 0x100 + b[i + 1] as int) as u16
}

/// Reading back the big-endian bytes of a 32-bit value gives the value.
pub proof fn lemma_be32_round_trip(v: u32)
    ensures
        read_be32(be32(v), 0) == v,
{
    let b = be32(v);
    assert(b[0] as int == v / 0x100_0000);
    assert(b[1] as int == (v / 0x1_0000) % 0x100);
    assert(b[2] as int == (v / 0x100) % 0x100);
    assert(b[3] as int == v % 0x100);
    assert((v / 0x100_0000) * 0x100_0000 + ((v / 0x1_0000) % 0x100) * 0x1_0000 + ((v / 0x100)
        % 0x100) * 0x100 + v % 0x100 == v) by (nonlinear_arith);
}

/// Reading back the big-endian bytes of a 16-bit value gives the value.
pub proof fn lemma_be16_round_trip(v: u16)
    ensures
        read_be16(be16(v), 0) == v,
{
    let b = be16(v);
    assert(b[0] as int == v / 0x100);
    assert(b[1] as int == v % 0x100);
    assert((v / 0x100) * 0x100 + v % 0x100 == v) by (nonlinear_arith);
}

fn push_be32(out: &mut Vec<u8>, v: u32)
    ensures
        final(out)@ == old(out)@ + be32(v),
{
    out.push((v / 0x100_0000) as u8);
    out.push(((v / 0x1_0000) % 0x100) as u8);
    out.push(((v / 0x100) % 0x100) as u8);
    out.push((v % 0x100) as u8);
    assert(final(out)@ =~= old(out)@ + be32(v));
}

fn push_be16(out: &mut Vec<u8>, v: u16)
    ensures
        final(out)@ == old(out)@ + be16(v),
{
    out.push((v / 0x100) as u8);
    out.push((v % 0x100) as u8);
    assert(final(out)@ =~= old(out)@ + be16(v));
}

fn get_be32(b: &[u8], i: usize) -> (r: u32)
    requires
        i + 4 <= b@.len(),
    ensures
        r == read_be32(b@, i as int),
{
    let r: u32 = (b[i] as u32) * 0x100_0000 + (b[i + 1] as u32) * 0x1_0000 + (b[i + 2] as u32)
        * 0x100 + (b[i + 3] as u32);
    r
}

fn get_be16(b: &[u8], i: usize) -> (r: u16)
    requires
        i + 2 <= b@.len(),
    ensures
        r == read_be16(b@, i as int),
{
    (b[i] as u16) * 0x100 + (b[i + 1] as u16)
}


/// Errors met while decoding frames. Each one is confined to the frame (or
/// the remainder of the batch) in which it occurs.
#[derive(Debug, Clone, Copy, PartialEq, Eq, Structural)]
pub enum FrameError {
    /// Fewer than 16 bytes were given for a header.
    TruncatedHeader,
    /// A frame's declared packet length disagrees with its size.
    PacketLengthMismatch,
    /// A sub-frame of a batch declares a length that runs past the batch.
    CorruptBatch,
    /// A compressed batch could not be inflated.
    DecompressionFailure,
    /// A notification payload is not a JSON document.
    JsonParseFailure,
}

/// The fixed 16-byte header of every frame.
#[derive(Debug, Clone, Copy, PartialEq, Eq, Structural)]
pub struct BiliWebsocketHeader {
    /// Header and payload bytes together.
    pub packet_length: u32,
    pub header_length: u16,
    /// 0: plain JSON payload; 2: zlib-compressed batch of frames.
    pub protocol_version: u16,
    pub op: OpType,
    pub seq: u32,
}

/// The 16 bytes that encode a header.
pub open spec fn header_bytes(h: BiliWebsocketHeader) -> Seq<u8> {
    be32(h.packet_length) + be16(h.header_length) + be16(h.protocol_version) + be32(
        op_code(h.op),
    ) + be32(h.seq)
}

/// The header that the first 16 bytes of `b` encode.
pub open spec fn header_of(b: Seq<u8>) -> BiliWebsocketHeader {
    BiliWebsocketHeader {
        packet_length: read_be32(b, 0),
        header_length: read_be16(b, 4),
        protocol_version: read_be16(b, 6),
        op: op_of_code(read_be32(b, 8)),
        seq: read_be32(b, 12),
    }
}

/// The header of a client-built frame.
pub open spec fn spec_header(packet_length: u32, protocol_version: u16, op: OpType) -> BiliWebsocketHeader {
    BiliWebsocketHeader {
        packet_length,
        header_length: HEADER_LENGTH,
        protocol_version,
        op,
        seq: SEQ,
    }
}

/// Decoding the bytes of a header gives it back, as long as its operation is canonical.
pub proof fn lemma_header_round_trip(h: BiliWebsocketHeader)
    requires
        op_is_canonical(h.op),
    ensures
        header_bytes(h).len() == 16,
        header_of(header_bytes(h)) == h,
{
    let b = header_bytes(h);
    lemma_be32_round_trip(h.packet_length);
    lemma_be16_round_trip(h.header_length);
    lemma_be16_round_trip(h.protocol_version);
    lemma_be32_round_trip(op_code(h.op));
    lemma_be32_round_trip(h.seq);
    assert(b.subrange(0, 4) =~= be32(h.packet_length));
    assert(b.subrange(4, 6) =~= be16(h.header_length));
    assert(b.subrange(6, 8) =~= be16(h.protocol_version));
    assert(b.subrange(8, 12) =~= be32(op_code(h.op)));
    assert(b.subrange(12, 16) =~= be32(h.seq));
    assert(read_be32(b, 0) == read_be32(b.subrange(0, 4), 0));
    assert(read_be16(b, 4) == read_be16(b.subrange(4, 6), 0));
    assert(read_be16(b, 6) == read_be16(b.subrange(6, 8), 0));
    assert(read_be32(b, 8) == read_be32(b.subrange(8, 12), 0));
    assert(read_be32(b, 12) == read_be32(b.subrange(12, 16), 0));
}

impl BiliWebsocketHeader {
    pub fn new(packet_length: u32, protocol_version: u16, op: OpType) -> (r: Self)
        ensures
            r == spec_header(packet_length, protocol_version, op),
    {
        BiliWebsocketHeader {
            packet_length,
            header_length: HEADER_LENGTH,
            protocol_version,
            op,
            seq: SEQ,
        }
    }

    /// Reads a header from the first 16 bytes of `buf`.
    pub fn from_vec(buf: &[u8]) -> (r: Result<Self, FrameError>)
        ensures
            buf@.len() < 16 ==> r == Err::<Self, FrameError>(FrameError::TruncatedHeader),
            buf@.len() >= 16 ==> r == Ok::<Self, FrameError>(header_of(buf@)),
    {
        if buf.len() < 16 {
            return Err(FrameError::TruncatedHeader);
        }
        Ok(read_header_at(buf, 0))
    }

    /// Serializes the header into its 16 bytes.
    pub fn to_vec(&self) -> (r: Vec<u8>)
        ensures
            r@ == header_bytes(*self),
            r@.len() == 16,
    {
        let mut out: Vec<u8> = Vec::new();
        push_be32(&mut out, self.packet_length);
        push_be16(&mut out, self.header_length);
        push_be16(&mut out, self.protocol_version);
        push_be32(&mut out, self.op.code());
        push_be32(&mut out, self.seq);
        assert(out@ =~= header_bytes(*self));
        out
    }
}

/// Reads the header that starts at byte `off` of `buf`.
fn read_header_at(buf: &[u8], off: usize) -> (r: BiliWebsocketHeader)
    requires
        off + 16 <= buf.len(),
    ensures
        r == header_of(buf@.subrange(off as int, buf@.len() as int)),
{
    let ghost rest = buf@.subrange(off as int, buf@.len() as int);
    let packet_length = get_be32(buf, off);
    let header_length = get_be16(buf, off + 4);
    let protocol_version = get_be16(buf, off + 6);
    let op = OpType::from_code(get_be32(buf, off + 8));
    let seq = get_be32(buf, off + 12);
    assert(read_be32(rest, 0) == read_be32(buf@, off as int));
    assert(read_be16(rest, 4) == read_be16(buf@, off + 4));
    assert(read_be16(rest, 6) == read_be16(buf@, off + 6));
    assert(read_be32(rest, 8) == read_be32(buf@, off + 8));
    assert(read_be32(rest, 12) == read_be32(buf@, off + 12));
    BiliWebsocketHeader { packet_length, header_length, protocol_version, op, seq }
}

/// A whole frame: its header and its raw payload.
#[derive(Debug, PartialEq, Eq)]
pub struct BiliWebsocketMessage {
    pub header: BiliWebsocketHeader,
    pub data: Vec<u8>,
}

/// The bytes of a whole frame.
pub open spec fn message_bytes(m: BiliWebsocketMessage) -> Seq<u8> {
    header_bytes(m.header) + m.data@
}

impl BiliWebsocketMessage {
    /// Builds a frame around `data`; its packet length counts header and payload.
    pub fn new(data: Vec<u8>, op: OpType, protocol_version: u16) -> (r: Self)
        requires
            data@.len() + 16 <= u32::MAX,
        ensures
            r.header == spec_header((data@.len() + 16) as u32, protocol_version, op),
            r.data@ == data@,
    {
        let packet_length = HEADER_LENGTH as u32 + data.len() as u32;
        BiliWebsocketMessage {
            header: BiliWebsocketHeader::new(packet_length, protocol_version, op),
            data,
        }
    }

    /// The heartbeat frame: an empty payload.
    pub fn heartbeat() -> (r: Self)
        ensures
            r.header == spec_header(16, 2, OpType::HeartBeat),
            r.data@.len() == 0,
    {
        BiliWebsocketMessage::new(Vec::new(), OpType::HeartBeat, 2)
    }

    /// Splits received bytes into header and payload.
    pub fn from_binary(buf: Vec<u8>) -> (r: Result<Self, FrameError>)
        ensures
            buf@.len() < 16 ==> r == Err::<Self, FrameError>(FrameError::TruncatedHeader),
            buf@.len() >= 16 && header_of(buf@).packet_length != buf@.len() ==> r == Err::<
                Self,
                FrameError,
            >(FrameError::PacketLengthMismatch),
            buf@.len() >= 16 && header_of(buf@).packet_length == buf@.len() ==> (r matches Ok(m)
                && m.header == header_of(buf@) && m.data@ == buf@.subrange(16, buf@.len() as int)),
    {
        let header = match BiliWebsocketHeader::from_vec(buf.as_slice()) {
            Ok(h) => h,
            Err(e) => return Err(e),
        };
        if header.packet_length as usize != buf.len() {
            return Err(FrameError::PacketLengthMismatch);
        }
        let mut data: Vec<u8> = Vec::new();
        let mut i: usize = 16;
        while i < buf.len()
            invariant
                16 <= i <= buf@.len(),
                data@ == buf@.subrange(16, i as int),
            decreases buf@.len() - i,
        {
            data.push(buf[i]);
            i += 1;
            assert(data@ =~= buf@.subrange(16, i as int));
        }
        Ok(BiliWebsocketMessage { header, data })
    }

    /// Serializes the frame: header bytes, then the payload.
    pub fn to_vec(&self) -> (r: Vec<u8>)
        ensures
            r@ == message_bytes(*self),
    {
        let mut buf = self.header.to_vec();
        let mut i: usize = 0;
        while i < self.data.len()
            invariant
                i <= self.data@.len(),
                buf@ == header_bytes(self.header) + self.data@.subrange(0, i as int),
            decreases self.data@.len() - i,
        {
            buf.push(self.data[i]);
            i += 1;
            assert(buf@ =~= header_bytes(self.header) + self.data@.subrange(0, i as int));
        }
        assert(self.data@.subrange(0, self.data@.len() as int) =~= self.data@);
        buf
    }
}


/// What a server frame carries, by operation.
#[derive(Debug)]
pub enum BiliWebsocketMessageBody {
    /// A heartbeat reply: the room's viewer-count pulse.
    RoomPopularity(i32),
    /// A notification: a JSON document for the normalizer.
    Notification(JsonValue),
    /// The reply to the handshake, with no payload.
    EntryReply,
}

/// One decoded frame: its own header and its body.
#[derive(Debug)]
pub struct BiliWebsocketInner {
    pub header: BiliWebsocketHeader,
    pub body: BiliWebsocketMessageBody,
}

impl BiliWebsocketInner {
    pub fn get_op_type(&self) -> (r: OpType)
        ensures
            r == self.header.op,
    {
        self.header.op
    }

    /// Consumes the frame and hands back its body.
    pub fn into_body(self) -> (r: BiliWebsocketMessageBody)
        ensures
            r == self.body,
    {
        self.body
    }
}

/// A 32-bit pattern read as a two's-complement signed integer.
pub open spec fn i32_of_bits(v: u32) -> i32 {
    if v < 0x8000_0000 {
        v as i32
    } else {
        (v as int - 0x1_0000_0000) as i32
    }
}

/// The viewer count of a heartbeat reply: a big-endian `i32`, or 0 when the
/// payload is shorter than four bytes.
pub open spec fn popularity_of(payload: Seq<u8>) -> i32 {
    if payload.len() >= 4 {
        i32_of_bits(read_be32(payload, 0))
    } else {
        0
    }
}

/// One decoded frame, or the error that stands in its place.
pub type Decoded = Result<BiliWebsocketInner, FrameError>;

/// The frames that one uncompressed frame yields, by its operation.
pub open spec fn plain_frames(h: BiliWebsocketHeader, payload: Seq<u8>) -> Seq<Decoded> {
    match h.op {
        OpType::Notification => match json_of(payload) {
            Some(j) => seq![
                Ok(BiliWebsocketInner { header: h, body: BiliWebsocketMessageBody::Notification(j) }),
            ],
            None => seq![Err(FrameError::JsonParseFailure)],
        },
        OpType::EntryReply => seq![
            Ok(BiliWebsocketInner { header: h, body: BiliWebsocketMessageBody::EntryReply }),
        ],
        OpType::HeartBeatReply => seq![
            Ok(
                BiliWebsocketInner {
                    header: h,
                    body: BiliWebsocketMessageBody::RoomPopularity(popularity_of(payload)),
                },
            ),
        ],
        _ => seq![],
    }
}

/// The frames of an inflated batch: sub-frames one after the other, each
/// decoded as an uncompressed frame. A sub-header that is cut short or whose
/// length runs past the buffer ends the batch with `CorruptBatch`.
pub open spec fn batch_frames(buf: Seq<u8>) -> Seq<Decoded>
    decreases buf.len(),
{
    if buf.len() == 0 {
        seq![]
    } else if buf.len() < 16 {
        seq![Err(FrameError::CorruptBatch)]
    } else {
        let h = header_of(buf);
        let n = h.packet_length as int;
        if n < 16 || n > buf.len() {
            seq![Err(FrameError::CorruptBatch)]
        } else {
            plain_frames(h, buf.subrange(16, n)) + batch_frames(buf.subrange(n, buf.len() as int))
        }
    }
}

/// The bytes that zlib inflates `bytes` to, if they are a zlib stream.
pub uninterp spec fn inflated_of(bytes: Seq<u8>) -> Option<Seq<u8>>;

/// The frames that a frame with header `h` and payload `data` yields.
pub open spec fn frames_of(h: BiliWebsocketHeader, data: Seq<u8>) -> Seq<Decoded> {
    if h.op == OpType::Notification && h.protocol_version == 2 {
        match inflated_of(data) {
            Some(b) => batch_frames(b),
            None => seq![Err(FrameError::DecompressionFailure)],
        }
    } else {
        plain_frames(h, data)
    }
}

/// The frames that a received frame yields.
pub open spec fn message_frames(m: BiliWebsocketMessage) -> Seq<Decoded> {
    frames_of(m.header, m.data@)
}

/// The frames that the bytes of one received frame yield: its own error
/// when the bytes do not hold a whole frame.
pub open spec fn received_frames(buf: Seq<u8>) -> Seq<Decoded> {
    if buf.len() < 16 {
        seq![Err(FrameError::TruncatedHeader)]
    } else if header_of(buf).packet_length != buf.len() {
        seq![Err(FrameError::PacketLengthMismatch)]
    } else {
        frames_of(header_of(buf), buf.subrange(16, buf.len() as int))
    }
}

/// Relies on flate2::read::ZlibDecoder read to its end: inflates a zlib
/// stream; the result depends on the bytes alone.
#[verifier::external_body]
fn inflate(bytes: &[u8]) -> (r: Option<Vec<u8>>)
    ensures
        r matches Some(v) ==> inflated_of(bytes@) == Some(v@),
        r is None ==> inflated_of(bytes@) is None,
{
    let mut out = Vec::new();
    match std::io::Read::read_to_end(&mut flate2::read::ZlibDecoder::new(bytes), &mut out) {
        Ok(_) => Some(out),
        Err(_) => None,
    }
}

fn popularity(payload: &[u8]) -> (r: i32)
    ensures
        r == popularity_of(payload@),
{
    if payload.len() < 4 {
        return 0;
    }
    let v = get_be32(payload, 0);
    if v < 0x8000_0000 {
        v as i32
    } else {
        (v as i64 - 0x1_0000_0000) as i32
    }
}

fn one(d: Decoded) -> (r: Vec<Decoded>)
    ensures
        r@ == seq![d],
{
    let mut v: Vec<Decoded> = Vec::new();
    v.push(d);
    v
}

/// Decodes one uncompressed frame from its header and payload.
pub fn decode_plain(header: BiliWebsocketHeader, payload: &[u8]) -> (r: Vec<Decoded>)
    ensures
        r@ == plain_frames(header, payload@),
{
    match header.op {
        OpType::Notification => match parse_json(payload) {
            Some(j) => one(
                Ok(BiliWebsocketInner { header, body: BiliWebsocketMessageBody::Notification(j) }),
            ),
            None => one(Err(FrameError::JsonParseFailure)),
        },
        OpType::EntryReply => one(
            Ok(BiliWebsocketInner { header, body: BiliWebsocketMessageBody::EntryReply }),
        ),
        OpType::HeartBeatReply => one(
            Ok(
                BiliWebsocketInner {
                    header,
                    body: BiliWebsocketMessageBody::RoomPopularity(popularity(payload)),
                },
            ),
        ),
        _ => Vec::new(),
    }
}

/// Splits an inflated batch into its sub-frames and decodes each.
pub fn decode_batch(buf: &[u8]) -> (r: Vec<Decoded>)
    ensures
        r@ == batch_frames(buf@),
{
    let mut out: Vec<Decoded> = Vec::new();
    let mut off: usize = 0;
    assert(buf@.subrange(0, buf@.len() as int) =~= buf@);
    while off < buf.len()
        invariant
            off <= buf@.len(),
            batch_frames(buf@) == out@ + batch_frames(buf@.subrange(off as int, buf@.len() as int)),
        decreases buf@.len() - off,
    {
        let ghost rest = buf@.subrange(off as int, buf@.len() as int);
        if buf.len() - off < 16 {
            out.push(Err(FrameError::CorruptBatch));
            return out;
        }
        let h = read_header_at(buf, off);
        let n = h.packet_length as usize;
        if n < 16 || n > buf.len() - off {
            out.push(Err(FrameError::CorruptBatch));
            return out;
        }
        let mut sub = decode_plain(h, &buf[off + 16..off + n]);
        assert(rest.subrange(16, n as int) =~= buf@.subrange(off + 16, off + n));
        assert(rest.subrange(n as int, rest.len() as int) =~= buf@.subrange(off + n, buf@.len() as int));
        let ghost before = out@;
        out.append(&mut sub);
        off += n;
        assert(out@ + batch_frames(buf@.subrange(off as int, buf@.len() as int)) =~= before + batch_frames(rest));
    }
    assert(buf@.subrange(off as int, buf@.len() as int) =~= Seq::<u8>::empty());
    assert(out@ + Seq::<Decoded>::empty() =~= out@);
    out
}

/// A string member of the handshake document.
pub open spec fn is_str_member(m: (String, JsonValue), key: Seq<char>, value: Seq<char>) -> bool {
    m.0@ == key && (m.1 matches JsonValue::Str(s) && s@ == value)
}

/// An integer member of the handshake document, as serde_json holds it.
pub open spec fn is_int_member(m: (String, JsonValue), key: Seq<char>, value: int) -> bool {
    m.0@ == key && match m.1 {
        JsonValue::Number(JsonNumber::PosInt(n)) => value >= 0 && n == value,
        JsonValue::Number(JsonNumber::NegInt(n)) => value < 0 && n == value,
        _ => false,
    }
}

/// The handshake document: `{clientver, platform, protover: 1, uid, roomid, type: 2}`.
pub open spec fn is_handshake_document(d: JsonValue, room_id: i64, uid: u64) -> bool {
    &&& d matches JsonValue::Object(m)
    &&& m@.len() == 6
    &&& is_str_member(m@[0], "clientver"@, "1.14.0"@)
    &&& is_str_member(m@[1], "platform"@, "web"@)
    &&& is_int_member(m@[2], "protover"@, 1)
    &&& is_int_member(m@[3], "uid"@, uid as int)
    &&& is_int_member(m@[4], "roomid"@, room_id as int)
    &&& is_int_member(m@[5], "type"@, 2)
}

fn str_member(key: &str, value: &str) -> (r: (String, JsonValue))
    ensures
        is_str_member(r, key@, value@),
{
    (key.to_string(), JsonValue::Str(value.to_string()))
}

fn int_member(key: &str, value: i64) -> (r: (String, JsonValue))
    ensures
        is_int_member(r, key@, value as int),
{
    let n = if value >= 0 {
        JsonNumber::PosInt(value as u64)
    } else {
        JsonNumber::NegInt(value)
    };
    (key.to_string(), JsonValue::Number(n))
}

fn uint_member(key: &str, value: u64) -> (r: (String, JsonValue))
    ensures
        is_int_member(r, key@, value as int),
{
    (key.to_string(), JsonValue::Number(JsonNumber::PosInt(value)))
}

/// The document that the handshake frame carries.
pub fn handshake_document(room_id: i64, uid: Option<u64>) -> (r: JsonValue)
    ensures
        is_handshake_document(r, room_id, uid.unwrap_or(0)),
{
    let mut m: Vec<(String, JsonValue)> = Vec::new();
    m.push(str_member("clientver", "1.14.0"));
    m.push(str_member("platform", "web"));
    m.push(uint_member("protover", 1));
    m.push(uint_member("uid", uid.unwrap_or(0)));
    m.push(int_member("roomid", room_id));
    m.push(uint_member("type", 2));
    JsonValue::Object(m)
}

/// The handshake frame: an `Entry` frame of protocol version 2 whose payload
/// is the printed handshake document; `None` only when that document would
/// not fit a frame.
pub open spec fn is_handshake_frame(r: Option<BiliWebsocketMessage>, room_id: i64, uid: u64) -> bool {
    match r {
        Some(m) => exists|d: JsonValue|
            is_handshake_document(d, room_id, uid) && m.data@ == json_text_of(d) && m.data@.len()
                + 16 <= u32::MAX && m.header == spec_header(
                (m.data@.len() + 16) as u32,
                2,
                OpType::Entry,
            ),
        None => exists|d: JsonValue|
            is_handshake_document(d, room_id, uid) && json_text_of(d).len() + 16 > u32::MAX,
    }
}

impl BiliWebsocketMessage {
    /// The handshake frame that opens a session with a room, as a given
    /// user (0 when none is given).
    pub fn entry(room_id: i64, uid: Option<u64>) -> (r: Option<Self>)
        ensures
            is_handshake_frame(r, room_id, uid.unwrap_or(0)),
    {
        let d = handshake_document(room_id, uid);
        let data = print_json(&d);
        if data.len() > (u32::MAX - 16) as usize {
            return None;
        }
        Some(BiliWebsocketMessage::new(data, OpType::Entry, 2))
    }

    /// Decodes the frame into the frames it carries: one for a plain frame,
    /// one per sub-frame for a compressed batch, none for an operation this
    /// connector does not read. Errors stand in the place of the frame they
    /// concern.
    pub fn parse(self) -> (r: Vec<Decoded>)
        ensures
            r@ == message_frames(self),
    {
        if self.header.op == OpType::Notification && self.header.protocol_version == 2 {
            match inflate(self.data.as_slice()) {
                Some(b) => decode_batch(b.as_slice()),
                None => one(Err(FrameError::DecompressionFailure)),
            }
        } else {
            decode_plain(self.header, self.data.as_slice())
        }
    }
}


/// The header is read from the first 16 bytes alone.
pub proof fn lemma_header_of_prefix(a: Seq<u8>, b: Seq<u8>)
    requires
        a.len() >= 16,
    ensures
        header_of(a + b) == header_of(a),
{
    let c = a + b;
    assert forall|i: int| 0 <= i < 16 implies c[i] == a[i] by {}
}

/// Encoding a frame and decoding the first 16 bytes gives back its header,
/// whose packet length is 16 plus the payload's; the rest of the bytes is
/// the payload.
pub proof fn lemma_frame_round_trip(m: BiliWebsocketMessage)
    requires
        op_is_canonical(m.header.op),
        m.data@.len() + 16 <= u32::MAX,
        m.header == spec_header((m.data@.len() + 16) as u32, m.header.protocol_version, m.header.op),
    ensures
        header_of(message_bytes(m).subrange(0, 16)) == m.header,
        header_of(message_bytes(m).subrange(0, 16)).packet_length == 16 + m.data@.len(),
        header_of(message_bytes(m).subrange(0, 16)).header_length == 16,
        header_of(message_bytes(m).subrange(0, 16)).seq == 1,
        message_bytes(m).subrange(16, message_bytes(m).len() as int) == m.data@,
        message_bytes(m).len() == m.header.packet_length,
{
    lemma_header_round_trip(m.header);
    let b = message_bytes(m);
    assert(b.subrange(0, 16) =~= header_bytes(m.header));
    assert(b.subrange(16, b.len() as int) =~= m.data@);
}

/// The bytes of a frame given by its header and payload.
pub open spec fn frame_bytes(f: (BiliWebsocketHeader, Seq<u8>)) -> Seq<u8> {
    header_bytes(f.0) + f.1
}

/// Frames laid end to end, as a batch holds them once inflated.
pub open spec fn concat_frames(fs: Seq<(BiliWebsocketHeader, Seq<u8>)>) -> Seq<u8>
    decreases fs.len(),
{
    if fs.len() == 0 {
        seq![]
    } else {
        frame_bytes(fs[0]) + concat_frames(fs.drop_first())
    }
}

/// A well-formed notification sub-frame whose payload is a JSON document.
pub open spec fn is_valid_notification(f: (BiliWebsocketHeader, Seq<u8>)) -> bool {
    &&& f.0.op == OpType::Notification
    &&& f.0.packet_length == 16 + f.1.len()
    &&& json_of(f.1) is Some
}

/// The frame that a valid notification sub-frame decodes to.
pub open spec fn notification_frame(f: (BiliWebsocketHeader, Seq<u8>)) -> Decoded {
    Ok(
        BiliWebsocketInner {
            header: f.0,
            body: BiliWebsocketMessageBody::Notification(json_of(f.1).unwrap()),
        },
    )
}

/// A batch of N valid notification sub-frames splits into exactly N
/// decoded frames, in the order they were laid out.
pub proof fn lemma_batch_split(fs: Seq<(BiliWebsocketHeader, Seq<u8>)>)
    requires
        forall|i: int| 0 <= i < fs.len() ==> #[trigger] is_valid_notification(fs[i]),
    ensures
        batch_frames(concat_frames(fs)).len() == fs.len(),
        forall|i: int|
            0 <= i < fs.len() ==> batch_frames(concat_frames(fs))[i] == notification_frame(
                #[trigger] fs[i],
            ),
    decreases fs.len(),
{
    if fs.len() > 0 {
        let f = fs[0];
        let rest = fs.drop_first();
        assert forall|i: int| 0 <= i < rest.len() implies #[trigger] is_valid_notification(
            rest[i],
        ) by {
            assert(rest[i] == fs[i + 1]);
        }
        lemma_batch_split(rest);
        assert(is_valid_notification(fs[0]));
        let op_ok = op_is_canonical(f.0.op);
        assert(op_ok);
        lemma_header_round_trip(f.0);
        let b = concat_frames(fs);
        let hb = header_bytes(f.0);
        assert(b == hb + (f.1 + concat_frames(rest)));
        assert(b =~= hb + f.1 + concat_frames(rest));
        lemma_header_of_prefix(hb, f.1 + concat_frames(rest));
        let n = f.0.packet_length as int;
        assert(b.subrange(16, n) =~= f.1);
        assert(b.subrange(n, b.len() as int) =~= concat_frames(rest));
        assert(plain_frames(f.0, f.1) == seq![notification_frame(f)]);
        assert(batch_frames(b) == seq![notification_frame(f)] + batch_frames(concat_frames(rest)));
        assert forall|i: int| 0 <= i < fs.len() implies batch_frames(
            concat_frames(fs),
        )[i] == notification_frame(#[trigger] fs[i]) by {
            if i > 0 {
                assert(fs[i] == rest[i - 1]);
            }
        }
    }
}


/// A compressed notification frame whose payload inflates to N valid
/// sub-frames decodes to exactly those N frames, in order.
pub proof fn lemma_compressed_batch(
    h: BiliWebsocketHeader,
    data: Seq<u8>,
    fs: Seq<(BiliWebsocketHeader, Seq<u8>)>,
)
    requires
        h.op == OpType::Notification,
        h.protocol_version == 2,
        inflated_of(data) == Some(concat_frames(fs)),
        forall|i: int| 0 <= i < fs.len() ==> #[trigger] is_valid_notification(fs[i]),
    ensures
        frames_of(h, data).len() == fs.len(),
        forall|i: int|
            0 <= i < fs.len() ==> frames_of(h, data)[i] == notification_frame(#[trigger] fs[i]),
{
    lemma_batch_split(fs);
}

} // verus!
