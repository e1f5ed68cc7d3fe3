//! Frames: a MITCH header followed by one body (`count = 1`), the canonical
//! on-wire and on-disk form of a single message.
//!
//! | Frame          | Body          | Total |
//! |----------------|---------------|-------|
//! | TradeFrame     | Trade 24B     | 40B   |
//! | TickFrame      | Tick 32B      | 48B   |
//! | BarFrame       | Bar 96B       | 112B  |
//! | HeartbeatFrame | Heartbeat 16B | 32B   |

use vstd::prelude::*;

use crate::bar::Bar;
use crate::body::{lemma_record_from_wire, record_from_wire, MitchBody};
use crate::bytes::vec_to_array;
use crate::common::{is_message_type, message_sizes, message_type, MitchError};
use crate::header::{header_from_wire, MitchHeader};
use crate::heartbeat::Heartbeat;
use crate::tick::Tick;
use crate::timestamp::{self, lemma_u48_decodes, u48_modulus, EPOCH_US};
use crate::trade::Trade;

verus! {

/// A body type that a [`Frame`] can carry, with the message type that its
/// frame header names.
pub trait FrameBody: MitchBody {
    /// The ASCII message type of frames of this body.
    spec fn spec_msg_type() -> u8;

    /// The ASCII message type stamped into the header.
    fn msg_type() -> (r: u8)
        ensures
            r == Self::spec_msg_type(),
            is_message_type(r),
    ;

    /// A frame of this body is at most 64 KiB.
    proof fn lemma_frame_fits()
        ensures
            16 + Self::wire_size() <= 0x1_0000,
    ;
}

impl FrameBody for Tick {
    open spec fn spec_msg_type() -> u8 {
        message_type::TICK
    }

    fn msg_type() -> (r: u8) {
        message_type::TICK
    }

    proof fn lemma_frame_fits() {
    }
}

impl FrameBody for Trade {
    open spec fn spec_msg_type() -> u8 {
        message_type::TRADE
    }

    fn msg_type() -> (r: u8) {
        message_type::TRADE
    }

    proof fn lemma_frame_fits() {
    }
}

impl FrameBody for Bar {
    open spec fn spec_msg_type() -> u8 {
        message_type::BAR
    }

    fn msg_type() -> (r: u8) {
        message_type::BAR
    }

    proof fn lemma_frame_fits() {
    }
}

impl FrameBody for Heartbeat {
    open spec fn spec_msg_type() -> u8 {
        message_type::HEARTBEAT
    }

    fn msg_type() -> (r: u8) {
        message_type::HEARTBEAT
    }

    proof fn lemma_frame_fits() {
    }
}

/// Header and body of one message.
#[derive(Debug, Clone, Copy, PartialEq, Eq)]
pub struct Frame<B: FrameBody> {
    /// Header (type = the body's message type, count = 1).
    pub header: MitchHeader,
    /// The body.
    pub body: B,
}

/// The frame whose wire bytes start `bytes`.
pub open spec fn frame_from_wire<B: FrameBody>(bytes: Seq<u8>) -> Frame<B> {
    Frame { header: header_from_wire(bytes), body: record_from_wire::<B>(bytes.skip(16)) }
}

/// A frame with the first wire bytes of `bytes` is the frame read from them.
proof fn lemma_frame_from_wire<B: FrameBody>(bytes: Seq<u8>, frame: Frame<B>)
    requires
        bytes.len() >= 16 + B::wire_size(),
        frame.wire() == bytes.subrange(0, 16 + B::wire_size() as int),
    ensures
        frame_from_wire::<B>(bytes) == frame,
{
    let (header, body) = (frame.header, frame.body);
    crate::header::law_header_roundtrip(header);
    body.lemma_wire_len();
    assert(frame.wire().subrange(0, 16) =~= header.wire());
    assert(frame.wire().subrange(16, 16 + B::wire_size() as int) =~= body.wire());
    assert(bytes.subrange(0, 16) =~= frame.wire().subrange(0, 16));
    assert(bytes.skip(16).subrange(0, B::wire_size() as int) =~= frame.wire().subrange(16, 16 + B::wire_size() as int));
    header_from_wire(bytes).lemma_wire_injective(header);
    lemma_record_from_wire::<B>(bytes.skip(16), body);
}

impl<B: FrameBody> Frame<B> {
    /// Builds a frame; `ticks` is the u48 tick count of the header and the
    /// provider id is at most 4095.
    pub fn new(provider_id: u16, ticks: u64, body: B) -> (r: Self)
        requires
            provider_id <= 0x0FFF,
        ensures
            r.header.built_from(B::spec_msg_type(), provider_id, ticks, 1),
            r.header.spec_message_type() == B::spec_msg_type(),
            r.header.spec_provider_id() == provider_id,
            r.header.spec_timestamp() == ticks as nat % u48_modulus(),
            r.body == body,
    {
        Self { header: MitchHeader::new(B::msg_type(), provider_id, ticks, 1), body }
    }

    /// The raw u48 tick count of the header.
    pub fn timestamp(&self) -> (r: u64)
        ensures
            r as nat == self.header.spec_timestamp(),
    {
        self.header.get_timestamp()
    }

    /// The header time as Unix-epoch milliseconds.
    pub fn timestamp_ms(&self) -> (r: i64)
        ensures
            r == (self.header.spec_timestamp() * 16 + EPOCH_US) / 1000,
    {
        let mts = self.header.get_timestamp();
        proof {
            lemma_u48_decodes(mts);
        }
        timestamp::to_epoch_ms(mts)
    }

    /// Provider id of the header.
    pub fn provider_id(&self) -> (r: u16)
        ensures
            r == self.header.spec_provider_id(),
    {
        self.header.provider_id()
    }

    /// Frame size in bytes.
    pub fn size() -> (r: usize)
        ensures
            r == 16 + B::wire_size(),
    {
        Self::body_size()
    }

    /// Reads a frame from the start of `bytes`, which must hold at least
    /// `16 + B::wire_size()` bytes, without checking the header's message type
    /// (the checked form is [`Self::unpack`]).
    pub fn unpack_unchecked(bytes: &[u8]) -> (r: Self)
        requires
            bytes@.len() >= 16 + B::wire_size(),
        ensures
            r == frame_from_wire::<B>(bytes@),
            r.wire() == bytes@.subrange(0, 16 + B::wire_size() as int),
    {
        let frame = Self::decode(bytes, 0);
        proof {
            lemma_frame_from_wire::<B>(bytes@, frame);
        }
        frame
    }

    /// Reads a frame from the start of `bytes`, checking the buffer size and
    /// that the header names this body's message type.
    pub fn unpack(bytes: &[u8]) -> (r: Result<Self, MitchError>)
        ensures
            bytes@.len() < 16 + B::wire_size() ==> r == Err::<Self, MitchError>(MitchError::BufferTooSmall {
                expected: (16 + B::wire_size() as int) as usize,
                actual: bytes@.len() as usize,
            }),
            bytes@.len() >= 16 + B::wire_size() ==> ({
                let f = frame_from_wire::<B>(bytes@);
                &&& f.header.spec_message_type() != B::spec_msg_type() ==> r == Err::<Self, MitchError>(
                    MitchError::InvalidMessageType(f.header.spec_message_type()))
                &&& f.header.spec_message_type() == B::spec_msg_type() ==> r == Ok::<Self, MitchError>(f)
            }),
            r matches Ok(f) ==> f.wire() == bytes@.subrange(0, 16 + B::wire_size() as int),
    {
        let expected = Self::body_size();
        if bytes.len() < expected {
            return Err(MitchError::BufferTooSmall { expected, actual: bytes.len() });
        }
        let frame = Self::decode(bytes, 0);
        proof {
            lemma_frame_from_wire::<B>(bytes@, frame);
        }
        let mt = frame.header.message_type();
        if mt != B::msg_type() {
            return Err(MitchError::InvalidMessageType(mt));
        }
        Ok(frame)
    }
}

impl<B: FrameBody> MitchBody for Frame<B> {
    open spec fn wire_size() -> nat {
        16 + B::wire_size()
    }

    /// The wire bytes: header then body.
    open spec fn wire(&self) -> Seq<u8> {
        self.header.wire() + self.body.wire()
    }

    fn body_size() -> (n: usize) {
        proof {
            B::lemma_frame_fits();
        }
        message_sizes::HEADER + B::body_size()
    }

    proof fn lemma_wire_len(&self) {
        crate::header::law_header_roundtrip(self.header);
        self.body.lemma_wire_len();
    }

    proof fn lemma_wire_injective(&self, other: &Self) {
        crate::header::law_header_roundtrip(self.header);
        crate::header::law_header_roundtrip(other.header);
        let (a, b) = (self.wire(), other.wire());
        assert(a.subrange(0, 16) =~= self.header.wire());
        assert(b.subrange(0, 16) =~= other.header.wire());
        assert(a.skip(16) =~= self.body.wire());
        assert(b.skip(16) =~= other.body.wire());
        self.header.lemma_wire_injective(other.header);
        self.body.lemma_wire_injective(&other.body);
    }

    fn encode(&self, out: &mut Vec<u8>) {
        let ghost before = out@;
        self.header.encode(out);
        self.body.encode(out);
        assert(out@ =~= before + self.wire());
    }

    fn decode(bytes: &[u8], start: usize) -> (r: Self) {
        proof {
            B::lemma_frame_fits();
        }
        let _len = bytes.len();
        let header = MitchHeader::decode(bytes, start);
        let body = B::decode(bytes, start + 16);
        let r = Self { header, body };
        assert(r.wire() =~= bytes@.subrange(start as int, start + 16 + B::wire_size()));
        r
    }
}

/// The header of a frame names its body's message type: a header built for a
/// tick frame has wire code 3 and type 's', for a trade frame code 1 and 't',
/// for a bar frame code 6 and 'k', for a heartbeat frame code 7 and 'h',
/// whatever its provider id, timestamp and count.
pub proof fn law_frame_header_types(provider_id: u16, timestamp: u64, count: u8, h: MitchHeader)
    requires
        provider_id <= 0x0FFF,
    ensures
        Tick::spec_msg_type() == 115 && Trade::spec_msg_type() == 116,
        Bar::spec_msg_type() == 107 && Heartbeat::spec_msg_type() == 104,
        h.built_from(Tick::spec_msg_type(), provider_id, timestamp, count) ==> (h.type_provider % 16 == 3
            && h.spec_message_type() == 115),
        h.built_from(Trade::spec_msg_type(), provider_id, timestamp, count) ==> (h.type_provider % 16 == 1
            && h.spec_message_type() == 116),
        h.built_from(Bar::spec_msg_type(), provider_id, timestamp, count) ==> (h.type_provider % 16 == 6
            && h.spec_message_type() == 107),
        h.built_from(Heartbeat::spec_msg_type(), provider_id, timestamp, count) ==> (h.type_provider % 16 == 7
            && h.spec_message_type() == 104),
{
    crate::common::law_message_type_code_table(0, 1);
    crate::common::law_message_type_code_table(0, 3);
    crate::common::law_message_type_code_table(0, 6);
    crate::common::law_message_type_code_table(0, 7);
}

/// Reading back the bytes of a frame gives that frame.
pub proof fn law_frame_roundtrip<B: FrameBody>(f: Frame<B>)
    ensures
        frame_from_wire::<B>(f.wire()) == f,
        f.wire().len() == 16 + B::wire_size(),
{
    crate::header::law_header_roundtrip(f.header);
    f.body.lemma_wire_len();
    let w = f.wire();
    assert(w.subrange(0, 16) =~= f.header.wire());
    assert(header_from_wire(w) == f.header) by {
        header_from_wire(w).lemma_wire_injective(f.header);
    }
    assert(w.skip(16) =~= f.body.wire());
    crate::body::law_record_roundtrip::<B>(f.body);
}

/// Tick frame: 48 bytes.
pub type TickFrame = Frame<Tick>;

/// Trade frame: 40 bytes.
pub type TradeFrame = Frame<Trade>;

/// Bar frame: 112 bytes.
pub type BarFrame = Frame<Bar>;

/// Heartbeat frame: 32 bytes.
pub type HeartbeatFrame = Frame<Heartbeat>;

/// Size of a [`TickFrame`] in bytes.
pub const TICK_FRAME_SIZE: usize = 48;

/// Size of a [`TradeFrame`] in bytes.
pub const TRADE_FRAME_SIZE: usize = 40;

/// Size of a [`BarFrame`] in bytes.
pub const BAR_FRAME_SIZE: usize = 112;

/// Size of a [`HeartbeatFrame`] in bytes.
pub const HEARTBEAT_FRAME_SIZE: usize = 32;

impl Frame<Tick> {
    /// The 48 wire bytes.
    pub fn pack(&self) -> (r: [u8; 48])
        ensures
            r@ == self.wire(),
    {
        let mut v: Vec<u8> = Vec::new();
        self.encode(&mut v);
        proof {
            law_frame_roundtrip(*self);
        }
        vec_to_array::<48>(&v)
    }

    /// The tick body.
    pub fn tick(&self) -> (r: Tick)
        ensures
            r == self.body,
    {
        self.body
    }

    /// Total volume of the tick body.
    pub fn total_volume(&self) -> (r: u64)
        ensures
            r == self.body.vbid + self.body.vask,
    {
        self.body.total_volume()
    }
}

impl Frame<Trade> {
    /// The 40 wire bytes.
    pub fn pack(&self) -> (r: [u8; 40])
        ensures
            r@ == self.wire(),
    {
        let mut v: Vec<u8> = Vec::new();
        self.encode(&mut v);
        proof {
            law_frame_roundtrip(*self);
        }
        vec_to_array::<40>(&v)
    }

    /// The trade body.
    pub fn trade(&self) -> (r: Trade)
        ensures
            r == self.body,
    {
        self.body
    }
}

impl Frame<Bar> {
    /// The 112 wire bytes.
    pub fn pack(&self) -> (r: [u8; 112])
        ensures
            r@ == self.wire(),
    {
        let mut v: Vec<u8> = Vec::new();
        self.encode(&mut v);
        proof {
            law_frame_roundtrip(*self);
        }
        vec_to_array::<112>(&v)
    }

    /// The bar body.
    pub fn bar(&self) -> (r: Bar)
        ensures
            r == self.body,
    {
        self.body
    }
}

impl Frame<Heartbeat> {
    /// The 32 wire bytes.
    pub fn pack(&self) -> (r: [u8; 32])
        ensures
            r@ == self.wire(),
    {
        let mut v: Vec<u8> = Vec::new();
        self.encode(&mut v);
        proof {
            law_frame_roundtrip(*self);
        }
        vec_to_array::<32>(&v)
    }

    /// The heartbeat body.
    pub fn heartbeat(&self) -> (r: Heartbeat)
        ensures
            r == self.body,
    {
        self.body
    }
}

} // verus!
