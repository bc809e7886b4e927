//! The decisions of a client session, apart from the byte stream it runs on:
//! packet-id allocation, framing of outgoing packets, the length of an
//! incoming frame, and the authentication exchange.
use vstd::prelude::*;

use crate::packet::{body_fits, packet_frame, Packet};
use crate::packet_type::PacketType;
use crate::serialization::{deserialize_i32, i32_from_le_bytes};

verus! {

/// The id counter of a session.
#[derive(Debug)]
pub struct Session {
    packet_idx: i32,
}

/// `p` is the packet made by a session that went from `before` to `after`:
/// it carries the id that was next, and the counter moved on by one.
pub open spec fn issues(before: Session, after: Session, p: Packet) -> bool {
    p.id == before.next_id() && after.next_id() == before.next_id() + 1
}

impl Session {
    /// The id the next packet will carry.
    pub closed spec fn next_id(&self) -> i32 {
        self.packet_idx
    }

    /// A session with no packet made yet.
    pub fn new() -> (r: Session)
        ensures
            r.next_id() == 0,
    {
        Session { packet_idx: 0 }
    }

    /// The id the next packet will carry.
    pub fn next_packet_id(&self) -> (r: i32)
        ensures
            r == self.next_id(),
    {
        self.packet_idx
    }

    /// Makes a packet with the next id and moves the counter on.
    pub fn new_packet(&mut self, packet_type: PacketType, body: String) -> (p: Packet)
        requires
            old(self).next_id() < i32::MAX,
        ensures
            issues(*old(self), *final(self), p),
            p.packet_type == packet_type,
            p.body@ == body@,
    {
        let packet = Packet::new(self.packet_idx, packet_type, body);
        self.packet_idx = self.packet_idx + 1;
        packet
    }

    /// Makes a packet with the next id and returns that id with the frame to
    /// send.
    pub fn prepare_packet(&mut self, packet_type: PacketType, body: String) -> (r: (i32, Vec<u8>))
        requires
            old(self).next_id() < i32::MAX,
            body_fits(body@),
        ensures
            r.0 == old(self).next_id(),
            final(self).next_id() == old(self).next_id() + 1,
            r.1@ == packet_frame(r.0, packet_type, body@),
    {
        let packet = self.new_packet(packet_type, body);
        let bytes = packet.serialize();
        (packet.id, bytes)
    }

    /// Starts authentication: the frame of the auth packet to send, and the
    /// exchange that waits for the server's two answers.
    pub fn begin_auth(&mut self, password: String) -> (r: (Vec<u8>, AuthExchange))
        requires
            old(self).next_id() < i32::MAX,
            body_fits(password@),
        ensures
            final(self).next_id() == old(self).next_id() + 1,
            r.0@ == packet_frame(old(self).next_id(), PacketType::SDAuth, password@),
            r.1.password@ == password@,
            !r.1.discarded_first,
    {
        let (_, bytes) = self.prepare_packet(PacketType::SDAuth, password.clone());
        (bytes, AuthExchange { password, discarded_first: false })
    }
}

/// How many bytes follow a size prefix, or `None` where the declared size is
/// negative.
pub fn remaining_len(size_prefix: [u8; 4]) -> (r: Option<usize>)
    ensures
        i32_from_le_bytes(size_prefix@) >= 0 ==> r == Some(i32_from_le_bytes(size_prefix@) as usize),
        i32_from_le_bytes(size_prefix@) < 0 ==> r is None,
{
    let size = deserialize_i32(size_prefix);
    if size < 0 {
        None
    } else {
        Some(size as usize)
    }
}

/// Authentication was refused; holds the password that was tried.
#[derive(Debug, Clone)]
pub enum AuthError {
    WrongPassword(String),
}

/// An authentication exchange in progress. The server answers an auth packet
/// with an empty response first, which is read and dropped, and then with the
/// real answer.
#[derive(Debug, Clone)]
pub struct AuthExchange {
    pub password: String,
    pub discarded_first: bool,
}

/// What an exchange does after a packet was read.
#[derive(Debug)]
pub enum AuthProgress {
    /// Read another packet and hand it to this exchange.
    ReadAnother(AuthExchange),
    /// The exchange is over.
    Finished(Result<(), AuthError>),
}

impl AuthExchange {
    /// Takes the next packet the server sent. The first is dropped; the second
    /// decides: authentication failed exactly when its id is -1.
    pub fn on_response(self, response: &Packet) -> (r: AuthProgress)
        ensures
            !self.discarded_first ==> (r matches AuthProgress::ReadAnother(next)
                && next.discarded_first && next.password@ == self.password@),
            self.discarded_first && response.id != -1 ==> r matches AuthProgress::Finished(Ok(_)),
            self.discarded_first && response.id == -1 ==> (r matches AuthProgress::Finished(
                Err(AuthError::WrongPassword(pw)),
            ) && pw@ == self.password@),
    {
        if !self.discarded_first {
            AuthProgress::ReadAnother(AuthExchange { password: self.password, discarded_first: true })
        } else if response.id == -1 {
            AuthProgress::Finished(Err(AuthError::WrongPassword(self.password)))
        } else {
            AuthProgress::Finished(Ok(()))
        }
    }
}

proof fn lemma_ids_prefix(states: Seq<Session>, packets: Seq<Packet>, n: int)
    requires
        states.len() == packets.len() + 1,
        states[0].next_id() == 0,
        forall|k: int| 0 <= k < packets.len() ==> issues(states[k], states[k + 1], #[trigger] packets[k]),
        0 <= n < states.len(),
    ensures
        states[n].next_id() == n,
    decreases n,
{
    if n > 0 {
        lemma_ids_prefix(states, packets, n - 1);
        assert(issues(states[n - 1], states[n], packets[n - 1]));
    }
}

/// In a fresh session, the packets made one after another carry the ids
/// 0, 1, 2, ... in order: `states[k]` is the session before the `k`-th packet
/// (counting from zero) was made and `states[k + 1]` the session after.
pub proof fn lemma_ids_sequential(states: Seq<Session>, packets: Seq<Packet>)
    requires
        states.len() == packets.len() + 1,
        states[0].next_id() == 0,
        forall|k: int| 0 <= k < packets.len() ==> issues(states[k], states[k + 1], #[trigger] packets[k]),
    ensures
        forall|k: int| 0 <= k < packets.len() ==> #[trigger] packets[k].id == k,
{
    assert forall|k: int| 0 <= k < packets.len() implies #[trigger] packets[k].id == k by {
        lemma_ids_prefix(states, packets, k);
        assert(issues(states[k], states[k + 1], packets[k]));
    }
}

} // verus!
