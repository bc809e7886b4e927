//! The logical packet: an id, a type and a text body.
use vstd::prelude::*;
use vstd::utf8::*;

use crate::packet_type::PacketType;
use crate::raw::{frame, frame_body, RawPacket, MIN_FRAME_LEN};
use crate::serialization::{i32_from_le_bytes, lemma_i32_round_trip};

verus! {

/// The body's UTF-8 length plus the ten bytes that the size counts besides
/// it fit in the size field.
pub open spec fn body_fits(body: Seq<char>) -> bool {
    encode_utf8(body).len() + 10 <= i32::MAX
}

/// The frame of a packet with this id, type and body.
pub open spec fn packet_frame(id: i32, ty: PacketType, body: Seq<char>) -> Seq<u8> {
    frame((encode_utf8(body).len() + 10) as i32, id, ty.spec_code(), encode_utf8(body))
}

/// A frame that decodes: at least the three integers and the terminator, and
/// a body of valid UTF-8.
pub open spec fn well_formed_frame(b: Seq<u8>) -> bool {
    b.len() >= 14 && valid_utf8(frame_body(b))
}

/// `p` is what the frame `b` decodes to: id and type from their fields (the
/// type leniently), the body decoded from UTF-8. The size field is not compared with the length.
pub open spec fn decodes_to(b: Seq<u8>, p: Packet) -> bool {
    &&& p.id == i32_from_le_bytes(b.subrange(4, 8))
    &&& p.packet_type == PacketType::spec_from_code(i32_from_le_bytes(b.subrange(8, 12)))
    &&& p.body@ == decode_utf8(frame_body(b))
}

/// Why a frame did not decode.
#[derive(Debug, Clone, Copy, PartialEq, Eq, Structural)]
pub enum DecodeError {
    /// Fewer bytes than the three integers and the terminator take.
    TooShort,
    /// The body is not valid UTF-8.
    InvalidUtf8,
}

/// A packet of the protocol.
#[derive(Debug, Clone)]
pub struct Packet {
    /// Packet ID
    pub id: i32,
    /// Packet Type
    pub packet_type: PacketType,
    /// Packet Body
    pub body: String,
}

impl PartialEq for Packet {
    fn eq(&self, other: &Packet) -> bool {
        self.id == other.id && self.packet_type == other.packet_type && self.body == other.body
    }
}

impl vstd::std_specs::cmp::PartialEqSpecImpl for Packet {
    open spec fn obeys_eq_spec() -> bool {
        true
    }

    open spec fn eq_spec(&self, other: &Packet) -> bool {
        self.id == other.id && self.packet_type == other.packet_type && self.body@ == other.body@
    }
}

impl Packet {
    /// The frame this packet is written as.
    pub open spec fn spec_frame(&self) -> Seq<u8> {
        packet_frame(self.id, self.packet_type, self.body@)
    }

    pub fn new(id: i32, packet_type: PacketType, body: String) -> (r: Self)
        ensures
            r.id == id,
            r.packet_type == packet_type,
            r.body@ == body@,
    {
        Self { id, packet_type, body }
    }

    /// Decodes a whole frame, or says why it cannot be decoded.
    pub fn decode(packet_data: Vec<u8>) -> (r: Result<Packet, DecodeError>)
        ensures
            packet_data@.len() < 14 ==> r == Err::<Packet, DecodeError>(DecodeError::TooShort),
            packet_data@.len() >= 14 && !valid_utf8(frame_body(packet_data@)) ==> r == Err::<
                Packet,
                DecodeError,
            >(DecodeError::InvalidUtf8),
            r is Ok <==> well_formed_frame(packet_data@),
            r matches Ok(p) ==> decodes_to(packet_data@, p),
    {
        if packet_data.len() < MIN_FRAME_LEN {
            return Err(DecodeError::TooShort);
        }
        match RawPacket::deserialize(packet_data).to_packet() {
            Some(p) => Ok(p),
            None => Err(DecodeError::InvalidUtf8),
        }
    }

    /// Decodes a frame whose size prefix was read apart from the rest.
    pub fn decode_with_size(packet_size: [u8; 4], packet_data: Vec<u8>) -> (r: Result<
        Packet,
        DecodeError,
    >)
        ensures
            r is Ok <==> well_formed_frame(packet_size@ + packet_data@),
            r matches Ok(p) ==> decodes_to(packet_size@ + packet_data@, p),
            r matches Err(e) ==> (e == DecodeError::TooShort <==> packet_data@.len() < 10),
    {
        Packet::decode(join(packet_size, packet_data))
    }

    /// Decodes a whole frame.
    pub fn from_raw(packet_data: Vec<u8>) -> (r: Packet)
        requires
            well_formed_frame(packet_data@),
        ensures
            decodes_to(packet_data@, r),
    {
        match Packet::decode(packet_data) {
            Ok(p) => p,
            Err(_) => {
                proof {
                    assert(false);
                }
                Packet::new(0, PacketType::SDResponseValue, String::new())
            },
        }
    }

    /// Decodes a frame whose size prefix was read apart from the rest.
    pub fn from_raw_with_size(packet_size: [u8; 4], packet_data: Vec<u8>) -> (r: Packet)
        requires
            well_formed_frame(packet_size@ + packet_data@),
        ensures
            decodes_to(packet_size@ + packet_data@, r),
    {
        Packet::from_raw(join(packet_size, packet_data))
    }

    /// The bytes of the packet's frame, `4 + size` of them.
    pub fn serialize(&self) -> (r: Vec<u8>)
        requires
            body_fits(self.body@),
        ensures
            r@ == self.spec_frame(),
            r@.len() == 4 + encode_utf8(self.body@).len() + 10,
    {
        let raw = RawPacket::from(Packet::new(self.id, self.packet_type, self.body.clone()));
        proof {
            lemma_frame_length(*self);
        }
        raw.serialize()
    }
}

/// The size prefix followed by the rest of the frame.
fn join(packet_size: [u8; 4], packet_data: Vec<u8>) -> (r: Vec<u8>)
    ensures
        r@ == packet_size@ + packet_data@,
{
    let mut r: Vec<u8> = Vec::new();
    r.push(packet_size[0]);
    r.push(packet_size[1]);
    r.push(packet_size[2]);
    r.push(packet_size[3]);
    let mut i: usize = 0;
    while i < packet_data.len()
        invariant
            i <= packet_data@.len(),
            r@ == packet_size@ + packet_data@.subrange(0, i as int),
        decreases packet_data@.len() - i,
    {
        r.push(packet_data[i]);
        i = i + 1;
        assert(r@ =~= packet_size@ + packet_data@.subrange(0, i as int));
    }
    assert(packet_data@.subrange(0, packet_data@.len() as int) =~= packet_data@);
    r
}

/// Decoding the frame of a packet gives the packet back.
pub proof fn lemma_round_trip(p: Packet)
    requires
        body_fits(p.body@),
    ensures
        well_formed_frame(p.spec_frame()),
        decodes_to(p.spec_frame(), p),
{
    let body = encode_utf8(p.body@);
    let size = (body.len() + 10) as i32;
    let b = p.spec_frame();
    lemma_i32_round_trip(size);
    lemma_i32_round_trip(p.id);
    lemma_i32_round_trip(p.packet_type.spec_code());
    assert(b.subrange(4, 8) =~= crate::serialization::i32_le_bytes(p.id));
    assert(b.subrange(8, 12) =~= crate::serialization::i32_le_bytes(p.packet_type.spec_code()));
    assert(frame_body(b) =~= body);
    encode_utf8_valid_utf8(p.body@);
    encode_utf8_decode_utf8(p.body@);
}

/// A packet's frame is four bytes of size, then the ten bytes and the body
/// bytes that the size counts.
pub proof fn lemma_frame_length(p: Packet)
    ensures
        p.spec_frame().len() == 4 + encode_utf8(p.body@).len() + 10,
{
    lemma_i32_round_trip((encode_utf8(p.body@).len() + 10) as i32);
    lemma_i32_round_trip(p.id);
    lemma_i32_round_trip(p.packet_type.spec_code());
}

} // verus!
