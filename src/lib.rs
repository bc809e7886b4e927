//! A client library for the Source RCON (remote console) protocol: the wire
//! codec for its packets and the decisions of a client session.

pub mod packet;
pub mod packet_type;
pub mod raw;
pub mod serialization;
pub mod session;
