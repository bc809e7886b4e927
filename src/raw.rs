//! The wire form of a packet: size, id, type, body and two terminator bytes.
use vstd::prelude::*;
use vstd::utf8::*;

use crate::packet::{body_fits, Packet};
use crate::packet_type::PacketType;
use crate::serialization::{deserialize_i32, i32_from_le_bytes, i32_le_bytes, serialize_i32};

verus! {

/// The bytes of a frame: size, id and type as little-endian integers, the
/// body, then two zero bytes.
pub open spec fn frame(size: i32, id: i32, ty: i32, body: Seq<u8>) -> Seq<u8> {
    i32_le_bytes(size) + i32_le_bytes(id) + i32_le_bytes(ty) + body + seq![0u8, 0u8]
}

/// The shortest frame: three integers and the terminator.
pub const MIN_FRAME_LEN: usize = 14;

/// The body region of a frame: what lies between the type and the terminator.
pub open spec fn frame_body(b: Seq<u8>) -> Seq<u8> {
    b.subrange(12, b.len() - 2)
}

/// A packet as it stands on the wire. `sz` counts the bytes after the size
/// field itself.
#[derive(Debug, Clone)]
pub struct RawPacket {
    pub sz: i32,
    pub id: i32,
    pub packet_type: i32,
    pub body: Vec<u8>,
}

/// Relies on String::from_utf8: it succeeds exactly on valid UTF-8, and the
/// string then holds those bytes.
#[verifier::external_body]
fn string_from_utf8(bytes: Vec<u8>) -> (r: Option<String>)
    ensures
        match r {
            Some(s) => valid_utf8(bytes@) && encode_utf8(s@) == bytes@,
            None => !valid_utf8(bytes@),
        },
{
    String::from_utf8(bytes).ok()
}

/// Appends the four little-endian bytes of `val`.
fn push_i32(out: &mut Vec<u8>, val: i32)
    ensures
        final(out)@ == old(out)@ + i32_le_bytes(val),
{
    let b = serialize_i32(val);
    out.push(b[0]);
    out.push(b[1]);
    out.push(b[2]);
    out.push(b[3]);
    assert(final(out)@ =~= old(out)@ + i32_le_bytes(val));
}

impl RawPacket {
    /// The bytes this packet is written as.
    pub open spec fn spec_serialize(&self) -> Seq<u8> {
        frame(self.sz, self.id, self.packet_type, self.body@)
    }

    /// The wire form of a packet: its size is the body's byte length plus 10.
    pub fn from(packet: Packet) -> (r: RawPacket)
        requires
            body_fits(packet.body@),
        ensures
            r.sz == encode_utf8(packet.body@).len() + 10,
            r.id == packet.id,
            r.packet_type == packet.packet_type.spec_code(),
            r.body@ == encode_utf8(packet.body@),
    {
        let body = vstd::slice::slice_to_vec(packet.body.as_str().as_bytes());
        let sz = (body.len() + 4 + 4 + 1 + 1) as i32;
        RawPacket { sz, id: packet.id, packet_type: i32::from(packet.packet_type), body }
    }

    /// Reads size, id and type from the first twelve bytes; the body is what
    /// follows them but for the last two bytes.
    pub fn deserialize(packet: Vec<u8>) -> (r: RawPacket)
        requires
            packet@.len() >= MIN_FRAME_LEN,
        ensures
            r.sz == i32_from_le_bytes(packet@),
            r.id == i32_from_le_bytes(packet@.subrange(4, 8)),
            r.packet_type == i32_from_le_bytes(packet@.subrange(8, 12)),
            r.body@ == frame_body(packet@),
    {
        let sz = deserialize_i32([packet[0], packet[1], packet[2], packet[3]]);
        let id = deserialize_i32([packet[4], packet[5], packet[6], packet[7]]);
        let packet_type = deserialize_i32([packet[8], packet[9], packet[10], packet[11]]);
        let end = packet.len() - 2;
        let mut body: Vec<u8> = Vec::new();
        let mut i: usize = 12;
        while i < end
            invariant
                12 <= i <= end,
                end == packet@.len() - 2,
                body@ == packet@.subrange(12, i as int),
            decreases end - i,
        {
            body.push(packet[i]);
            i = i + 1;
            assert(body@ =~= packet@.subrange(12, i as int));
        }
        RawPacket { sz, id, packet_type, body }
    }

    /// The bytes of the frame.
    pub fn serialize(&self) -> (r: Vec<u8>)
        ensures
            r@ == self.spec_serialize(),
            r@.len() == self.body@.len() + 14,
    {
        let mut packet: Vec<u8> = Vec::new();
        push_i32(&mut packet, self.sz);
        push_i32(&mut packet, self.id);
        push_i32(&mut packet, self.packet_type);
        let ghost head = packet@;
        let mut i: usize = 0;
        while i < self.body.len()
            invariant
                i <= self.body@.len(),
                head.len() == 12,
                packet@ == head + self.body@.subrange(0, i as int),
            decreases self.body@.len() - i,
        {
            packet.push(self.body[i]);
            i = i + 1;
            assert(packet@ =~= head + self.body@.subrange(0, i as int));
        }
        packet.push(0x00);
        packet.push(0x00);
        assert(self.body@.subrange(0, self.body@.len() as int) =~= self.body@);
        assert(packet@ =~= self.spec_serialize());
        packet
    }

    /// The logical packet: the type read leniently, the body decoded as UTF-8.
    /// Fails exactly when the body is not valid UTF-8.
    pub fn to_packet(self) -> (r: Option<Packet>)
        ensures
            r is Some <==> valid_utf8(self.body@),
            r matches Some(p) ==> p.id == self.id && p.packet_type == PacketType::spec_from_code(
                self.packet_type,
            ) && p.body@ == decode_utf8(self.body@),
    {
        let id = self.id;
        let packet_type = PacketType::from(self.packet_type);
        match string_from_utf8(self.body) {
            Some(body) => {
                proof {
                    encode_utf8_decode_utf8(body@);
                }
                Some(Packet::new(id, packet_type, body))
            },
            None => None,
        }
    }
}

} // verus!
