//! The packet types of the protocol.
use vstd::prelude::*;

verus! {

/// The packet types of the protocol (SD stands for ServerData).
///
/// The execute-command request and the auth response share one wire value, so
/// the type alone does not tell a request from a response.
#[derive(Debug, Clone, Copy, PartialEq, Eq, Structural)]
pub enum PacketType {
    SDAuth,
    SDExecCommandAndAuthResponse,
    SDResponseValue,
}

impl PacketType {
    /// The wire value of the type.
    pub open spec fn spec_code(self) -> i32 {
        match self {
            PacketType::SDAuth => 3,
            PacketType::SDExecCommandAndAuthResponse => 2,
            PacketType::SDResponseValue => 0,
        }
    }

    /// The type of a wire value; every value but 3 and 2 reads as a response value.
    pub open spec fn spec_from_code(value: i32) -> PacketType {
        if value == 3 {
            PacketType::SDAuth
        } else if value == 2 {
            PacketType::SDExecCommandAndAuthResponse
        } else {
            PacketType::SDResponseValue
        }
    }
}

impl From<PacketType> for i32 {
    fn from(value: PacketType) -> i32 {
        match value {
            PacketType::SDAuth => 3,
            PacketType::SDExecCommandAndAuthResponse => 2,
            PacketType::SDResponseValue => 0,
        }
    }
}

impl vstd::std_specs::convert::FromSpecImpl<PacketType> for i32 {
    open spec fn obeys_from_spec() -> bool {
        true
    }

    open spec fn from_spec(v: PacketType) -> i32 {
        v.spec_code()
    }
}

impl From<i32> for PacketType {
    fn from(value: i32) -> Self {
        match value {
            3 => PacketType::SDAuth,
            2 => PacketType::SDExecCommandAndAuthResponse,
            _ => PacketType::SDResponseValue,
        }
    }
}

impl vstd::std_specs::convert::FromSpecImpl<i32> for PacketType {
    open spec fn obeys_from_spec() -> bool {
        true
    }

    open spec fn from_spec(v: i32) -> PacketType {
        PacketType::spec_from_code(v)
    }
}

/// Reading back the wire value of a type gives the type.
pub proof fn lemma_code_round_trip(t: PacketType)
    ensures
        PacketType::spec_from_code(t.spec_code()) == t,
{
}

/// A wire value other than 3 and 2 reads as a response value.
pub proof fn lemma_unknown_code_is_response_value(value: i32)
    requires
        value != 0 && value != 2 && value != 3,
    ensures
        PacketType::spec_from_code(value) == PacketType::SDResponseValue,
{
}

} // verus!
