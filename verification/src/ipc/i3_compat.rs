//! The i3 IPC wire format: the six bytes `i3-ipc`, the payload length and
//! the message type as little-endian `u32`s, then the JSON payload. Events
//! carry the high bit in their type.
use vstd::prelude::*;
use vstd::utf8::valid_utf8;
use vstd::string::StringSliceAdditionalSpecFns;

verus! {

/// Length of a header: magic, payload length, message type.
pub const HEADER_SIZE: usize = 14;

/// The bit that marks an event.
pub const EVENT_MASK: u32 = 0x80000000;

/// Payloads longer than this (16 MiB) are refused.
pub const MAX_PAYLOAD: usize = 16777216;

/// The magic prefix `i3-ipc`.
pub open spec fn magic() -> Seq<u8> {
    seq![0x69u8, 0x33u8, 0x2du8, 0x69u8, 0x70u8, 0x63u8]
}

/// `v` as four little-endian bytes.
pub open spec fn le_bytes(v: u32) -> Seq<u8> {
    seq![
        (v % 256) as u8,
        ((v / 256) % 256) as u8,
        ((v / 65536) % 256) as u8,
        (v / 16777216) as u8,
    ]
}

/// The `u32` whose little-endian bytes are `b[0..4]`.
pub open spec fn le_u32(b: Seq<u8>) -> u32 {
    (b[0] + b[1] * 256 + b[2] * 65536 + b[3] * 16777216) as u32
}

/// A whole message on the wire.
pub open spec fn wire_message(msg_type: u32, payload: Seq<u8>) -> Seq<u8> {
    magic() + le_bytes(payload.len() as u32) + le_bytes(msg_type) + payload
}

#[derive(Debug, Clone, Copy, PartialEq, Eq, Structural)]
pub enum MessageType {
    RunCommand,
    GetWorkspaces,
    Subscribe,
    GetOutputs,
    GetTree,
    GetMarks,
    GetBarConfig,
    GetVersion,
    GetBindingModes,
    GetConfig,
    SendTick,
    Sync,
    GetBindingState,
}

/// The wire number of a request type.
pub open spec fn message_code(t: MessageType) -> u32 {
    match t {
        MessageType::RunCommand => 0,
        MessageType::GetWorkspaces => 1,
        MessageType::Subscribe => 2,
        MessageType::GetOutputs => 3,
        MessageType::GetTree => 4,
        MessageType::GetMarks => 5,
        MessageType::GetBarConfig => 6,
        MessageType::GetVersion => 7,
        MessageType::GetBindingModes => 8,
        MessageType::GetConfig => 9,
        MessageType::SendTick => 10,
        MessageType::Sync => 11,
        MessageType::GetBindingState => 12,
    }
}

impl MessageType {
    /// The request type with wire number `val`, if there is one.
    pub fn from_u32(val: u32) -> (t: Option<MessageType>)
        ensures
            t is Some <==> val <= 12,
            t matches Some(m) ==> message_code(m) == val,
    {
        match val {
            0 => Some(MessageType::RunCommand),
            1 => Some(MessageType::GetWorkspaces),
            2 => Some(MessageType::Subscribe),
            3 => Some(MessageType::GetOutputs),
            4 => Some(MessageType::GetTree),
            5 => Some(MessageType::GetMarks),
            6 => Some(MessageType::GetBarConfig),
            7 => Some(MessageType::GetVersion),
            8 => Some(MessageType::GetBindingModes),
            9 => Some(MessageType::GetConfig),
            10 => Some(MessageType::SendTick),
            11 => Some(MessageType::Sync),
            12 => Some(MessageType::GetBindingState),
            _ => None,
        }
    }

    /// The wire number of this request type.
    pub fn code(&self) -> (c: u32)
        ensures
            c == message_code(*self),
    {
        match self {
            MessageType::RunCommand => 0,
            MessageType::GetWorkspaces => 1,
            MessageType::Subscribe => 2,
            MessageType::GetOutputs => 3,
            MessageType::GetTree => 4,
            MessageType::GetMarks => 5,
            MessageType::GetBarConfig => 6,
            MessageType::GetVersion => 7,
            MessageType::GetBindingModes => 8,
            MessageType::GetConfig => 9,
            MessageType::SendTick => 10,
            MessageType::Sync => 11,
            MessageType::GetBindingState => 12,
        }
    }
}

#[derive(Debug, Clone, Copy, PartialEq, Eq, Structural)]
pub enum EventType {
    Workspace,
    Output,
    Mode,
    Window,
    BarconfigUpdate,
    Binding,
    Shutdown,
    Tick,
}

/// The number of an event type, before the event bit is set.
pub open spec fn event_code(e: EventType) -> u32 {
    match e {
        EventType::Workspace => 0,
        EventType::Output => 1,
        EventType::Mode => 2,
        EventType::Window => 3,
        EventType::BarconfigUpdate => 4,
        EventType::Binding => 5,
        EventType::Shutdown => 6,
        EventType::Tick => 7,
    }
}

impl EventType {
    /// The type number on the wire: the event bit with the event's number.
    pub fn to_wire(&self) -> (w: u32)
        ensures
            w == EVENT_MASK + event_code(*self),
    {
        let c: u32 = match self {
            EventType::Workspace => 0,
            EventType::Output => 1,
            EventType::Mode => 2,
            EventType::Window => 3,
            EventType::BarconfigUpdate => 4,
            EventType::Binding => 5,
            EventType::Shutdown => 6,
            EventType::Tick => 7,
        };
        assert(c < 8 ==> 0x80000000u32 | c == 0x80000000u32 + c) by (bit_vector);
        EVENT_MASK | c
    }
}

/// A message read off the wire.
#[derive(Debug)]
pub struct I3Message {
    pub msg_type: u32,
    pub payload: Vec<u8>,
}

#[verifier::external_type_specification]
#[verifier::external_body]
pub struct ExUtf8Error(std::str::Utf8Error);

/// `std::str::from_utf8`: the bytes read as a string when they are valid
/// UTF-8, an error otherwise.
#[verifier::external_body]
pub(crate) fn str_from_utf8(bytes: &[u8]) -> (r: Result<&str, std::str::Utf8Error>)
    ensures
        r is Ok <==> valid_utf8(bytes@),
        r matches Ok(s) ==> s.spec_bytes() == bytes@,
{
    std::str::from_utf8(bytes)
}

impl I3Message {
    pub fn new(msg_type: u32, payload: Vec<u8>) -> (m: I3Message)
        ensures
            m.msg_type == msg_type,
            m.payload@ == payload@,
    {
        I3Message { msg_type, payload }
    }

    /// Whether the type carries the event bit.
    pub fn is_event(&self) -> (b: bool)
        ensures
            b == (self.msg_type >= EVENT_MASK),
    {
        let t = self.msg_type;
        assert((t & 0x80000000u32 != 0) == (t >= 0x80000000u32)) by (bit_vector);
        t & EVENT_MASK != 0
    }

    /// The type without the event bit.
    pub fn base_type(&self) -> (b: u32)
        ensures
            b == self.msg_type % EVENT_MASK,
    {
        let t = self.msg_type;
        assert(t & !0x80000000u32 == t % 0x80000000u32) by (bit_vector);
        t & !EVENT_MASK
    }

    /// The payload as a string, when it is valid UTF-8.
    pub fn payload_str(&self) -> (r: Result<&str, std::str::Utf8Error>)
        ensures
            r is Ok <==> valid_utf8(self.payload@),
            r matches Ok(s) ==> s.spec_bytes() == self.payload@,
    {
        str_from_utf8(self.payload.as_slice())
    }
}

/// Why a message could not be read.
#[derive(Debug, Clone, Copy, PartialEq, Eq, Structural)]
pub enum IpcError {
    /// The header does not start with `i3-ipc`.
    InvalidMagic,
    /// The header announces a payload over 16 MiB.
    MessageTooLarge,
    /// The stream ended inside a payload.
    UnexpectedEof,
}

/// Bytes waiting to be read, and how far reading has got.
pub struct ByteReader {
    pub data: Vec<u8>,
    pub pos: usize,
}

impl ByteReader {
    pub open spec fn wf(&self) -> bool {
        self.pos <= self.data@.len()
    }

    /// The bytes not read yet.
    pub open spec fn remaining(&self) -> Seq<u8> {
        self.data@.subrange(self.pos as int, self.data@.len() as int)
    }

    pub fn new(data: Vec<u8>) -> (r: ByteReader)
        ensures
            r.wf(),
            r.data@ == data@,
            r.pos == 0,
            r.remaining() == data@,
    {
        let r = ByteReader { data, pos: 0 };
        assert(r.remaining() =~= r.data@);
        r
    }
}

/// What reading one message from `bytes` gives, and how many bytes it
/// consumes: nothing (`Ok(None)`, all consumed) when a whole header is not
/// there; the header's refusal; the end of the stream inside the payload
/// (all consumed); or the message.
pub open spec fn spec_read(bytes: Seq<u8>) -> (Result<Option<(u32, Seq<u8>)>, IpcError>, nat) {
    if bytes.len() < HEADER_SIZE {
        (Ok(None), bytes.len())
    } else if bytes.subrange(0, 6) != magic() {
        (Err(IpcError::InvalidMagic), HEADER_SIZE as nat)
    } else {
        let length = le_u32(bytes.subrange(6, 10));
        let msg_type = le_u32(bytes.subrange(10, 14));
        if length > MAX_PAYLOAD {
            (Err(IpcError::MessageTooLarge), HEADER_SIZE as nat)
        } else if bytes.len() < HEADER_SIZE + length {
            (Err(IpcError::UnexpectedEof), bytes.len())
        } else {
            (
                Ok(Some((msg_type, bytes.subrange(HEADER_SIZE as int, HEADER_SIZE + length)))),
                (HEADER_SIZE + length) as nat,
            )
        }
    }
}

fn le_of(b0: u8, b1: u8, b2: u8, b3: u8) -> (v: u32)
    ensures
        v == (b0 + b1 * 256 + b2 * 65536 + b3 * 16777216) as u32,
{
    let v: u64 = b0 as u64 + b1 as u64 * 256 + b2 as u64 * 65536 + b3 as u64 * 16777216;
    assert(v <= 0xffffffff);
    v as u32
}

/// Check a header and give the payload length and message type it announces.
pub fn decode_header(header: &[u8]) -> (r: Result<(usize, u32), IpcError>)
    requires
        header@.len() == HEADER_SIZE,
    ensures
        header@.subrange(0, 6) != magic() ==> r == Err::<(usize, u32), IpcError>(IpcError::InvalidMagic),
        header@.subrange(0, 6) == magic() ==> {
            let length = le_u32(header@.subrange(6, 10));
            let msg_type = le_u32(header@.subrange(10, 14));
            if length > MAX_PAYLOAD {
                r == Err::<(usize, u32), IpcError>(IpcError::MessageTooLarge)
            } else {
                r == Ok::<(usize, u32), IpcError>((length as usize, msg_type))
            }
        },
{
    let h = header;
    if !(h[0] == 0x69 && h[1] == 0x33 && h[2] == 0x2d && h[3] == 0x69 && h[4] == 0x70 && h[5]
        == 0x63) {
        proof {
            if header@.subrange(0, 6) == magic() {
                assert(header@.subrange(0, 6)[0] == magic()[0]);
                assert(header@.subrange(0, 6)[1] == magic()[1]);
                assert(header@.subrange(0, 6)[2] == magic()[2]);
                assert(header@.subrange(0, 6)[3] == magic()[3]);
                assert(header@.subrange(0, 6)[4] == magic()[4]);
                assert(header@.subrange(0, 6)[5] == magic()[5]);
            }
        }
        return Err(IpcError::InvalidMagic);
    }
    assert(header@.subrange(0, 6) =~= magic());
    let length = le_of(h[6], h[7], h[8], h[9]);
    let msg_type = le_of(h[10], h[11], h[12], h[13]);
    if length as usize > MAX_PAYLOAD {
        return Err(IpcError::MessageTooLarge);
    }
    Ok((length as usize, msg_type))
}

fn copy_range(data: &Vec<u8>, start: usize, end: usize) -> (v: Vec<u8>)
    requires
        start <= end <= data@.len(),
    ensures
        v@ == data@.subrange(start as int, end as int),
{
    let mut v: Vec<u8> = Vec::new();
    let mut i = start;
    while i < end
        invariant
            start <= i <= end <= data@.len(),
            v@ == data@.subrange(start as int, i as int),
        decreases end - i,
    {
        v.push(data[i]);
        assert(data@.subrange(start as int, i + 1) =~= data@.subrange(start as int, i as int).push(
            data@[i as int],
        ));
        i = i + 1;
    }
    v
}

/// Read one message. `Ok(None)` when a whole header has not arrived.
pub fn read_message(reader: &mut ByteReader) -> (r: Result<Option<I3Message>, IpcError>)
    requires
        old(reader).wf(),
    ensures
        final(reader).wf(),
        final(reader).data@ == old(reader).data@,
        final(reader).pos == old(reader).pos + spec_read(old(reader).remaining()).1,
        match (r, spec_read(old(reader).remaining()).0) {
            (Ok(None), Ok(None)) => true,
            (Ok(Some(m)), Ok(Some((t, p)))) => m.msg_type == t && m.payload@ == p,
            (Err(e), Err(e2)) => e == e2,
            _ => false,
        },
{
    let len = reader.data.len();
    let ghost rem = reader.remaining();
    if len - reader.pos < HEADER_SIZE {
        reader.pos = len;
        return Ok(None);
    }
    let start = reader.pos;
    let header = copy_range(&reader.data, start, start + HEADER_SIZE);
    assert(header@ =~= rem.subrange(0, 14));
    assert(rem.subrange(0, 14).subrange(0, 6) =~= rem.subrange(0, 6));
    assert(rem.subrange(0, 14).subrange(6, 10) =~= rem.subrange(6, 10));
    assert(rem.subrange(0, 14).subrange(10, 14) =~= rem.subrange(10, 14));
    reader.pos = start + HEADER_SIZE;
    match decode_header(header.as_slice()) {
        Err(e) => Err(e),
        Ok((length, msg_type)) => {
            if len - reader.pos < length {
                reader.pos = len;
                return Err(IpcError::UnexpectedEof);
            }
            let p = reader.pos;
            let payload = copy_range(&reader.data, p, p + length);
            assert(payload@ =~= rem.subrange(14, 14 + length));
            reader.pos = p + length;
            Ok(Some(I3Message::new(msg_type, payload)))
        },
    }
}

fn push_le(out: &mut Vec<u8>, v: u32)
    ensures
        final(out)@ == old(out)@ + le_bytes(v),
{
    out.push((v % 256) as u8);
    out.push(((v / 256) % 256) as u8);
    out.push(((v / 65536) % 256) as u8);
    out.push((v / 16777216) as u8);
    assert(final(out)@ =~= old(out)@ + le_bytes(v));
}

/// The bytes of a whole message.
pub fn encode_message(msg_type: u32, payload: &[u8]) -> (out: Vec<u8>)
    ensures
        out@ == wire_message(msg_type, payload@),
{
    let mut out: Vec<u8> = Vec::new();
    out.push(0x69);
    out.push(0x33);
    out.push(0x2d);
    out.push(0x69);
    out.push(0x70);
    out.push(0x63);
    assert(out@ =~= magic());
    push_le(&mut out, payload.len() as u32);
    push_le(&mut out, msg_type);
    let ghost before = out@;
    let mut i: usize = 0;
    while i < payload.len()
        invariant
            i <= payload@.len(),
            out@ == before + payload@.subrange(0, i as int),
        decreases payload@.len() - i,
    {
        out.push(payload[i]);
        assert(payload@.subrange(0, i + 1) =~= payload@.subrange(0, i as int).push(payload@[i as int]));
        i = i + 1;
    }
    assert(payload@.subrange(0, payload@.len() as int) =~= payload@);
    out
}

/// Append a whole message to `writer`.
pub fn write_message(writer: &mut Vec<u8>, msg_type: u32, payload: &[u8]) -> (r: Result<(), IpcError>)
    ensures
        r is Ok,
        final(writer)@ == old(writer)@ + wire_message(msg_type, payload@),
{
    let mut bytes = encode_message(msg_type, payload);
    writer.append(&mut bytes);
    Ok(())
}

/// Append a response of the request's type carrying `json`.
pub fn write_response(writer: &mut Vec<u8>, msg_type: u32, json: &str) -> (r: Result<(), IpcError>)
    ensures
        r is Ok,
        final(writer)@ == old(writer)@ + wire_message(msg_type, json.spec_bytes()),
{
    write_message(writer, msg_type, json.as_bytes())
}

/// Append an event of type `event_type` carrying `json`.
pub fn write_event(writer: &mut Vec<u8>, event_type: EventType, json: &str) -> (r: Result<(), IpcError>)
    ensures
        r is Ok,
        final(writer)@ == old(writer)@ + wire_message((EVENT_MASK + event_code(event_type)) as u32, json.spec_bytes()),
{
    write_message(writer, event_type.to_wire(), json.as_bytes())
}

proof fn lemma_le_roundtrip(v: u32)
    ensures
        le_u32(le_bytes(v)) == v,
{
    let b0 = v % 256;
    let b1 = (v / 256) % 256;
    let b2 = (v / 65536) % 256;
    let b3 = v / 16777216;
    assert(b0 + b1 * 256 + b2 * 65536 + b3 * 16777216 == v) by (bit_vector)
        requires
            b0 == v % 256,
            b1 == (v / 256) % 256,
            b2 == (v / 65536) % 256,
            b3 == v / 16777216,
    ;
    assert(b3 < 256) by (bit_vector)
        requires
            b3 == v / 16777216,
    ;
    let s = le_bytes(v);
    assert(s[0] == b0 && s[1] == b1 && s[2] == b2 && s[3] == b3);
}

/// Reading back a message that was written gives its type and payload and
/// consumes exactly its bytes, whatever follows it, for every payload the
/// reader accepts.
pub proof fn law_write_then_read(msg_type: u32, payload: Seq<u8>, rest: Seq<u8>)
    requires
        payload.len() <= MAX_PAYLOAD,
    ensures
        spec_read(wire_message(msg_type, payload) + rest) == (
            Ok::<Option<(u32, Seq<u8>)>, IpcError>(Some((msg_type, payload))),
            wire_message(msg_type, payload).len(),
        ),
        wire_message(msg_type, payload).len() == HEADER_SIZE + payload.len(),
{
    let w = wire_message(msg_type, payload);
    let bytes = w + rest;
    let len32 = payload.len() as u32;
    lemma_le_roundtrip(len32);
    lemma_le_roundtrip(msg_type);
    assert(w.len() == 14 + payload.len());
    assert(bytes.subrange(0, 6) =~= magic());
    assert(bytes.subrange(6, 10) =~= le_bytes(len32));
    assert(bytes.subrange(10, 14) =~= le_bytes(msg_type));
    assert(bytes.subrange(14, 14 + payload.len() as int) =~= payload);
}

} // verus!
