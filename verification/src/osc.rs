//! The message model of the wire protocol: an address plus typed arguments,
//! and the trusted bridge to the outside codec that turns a message into
//! datagram bytes and a datagram back into a packet.

use vstd::prelude::*;

verus! {

/// One typed argument of a protocol message. Argument kinds that the engine
/// never reads (floats, blobs, times, ...) decode as `Other`, which fails
/// every shape check downstream.
pub enum OscArg {
    Int(i32),
    Str(String),
    Other,
}

/// The mathematical value of an `OscArg`.
pub enum ArgV {
    Int(i32),
    Str(Seq<char>),
    Other,
}

impl View for OscArg {
    type V = ArgV;

    open spec fn view(&self) -> ArgV {
        match self {
            OscArg::Int(i) => ArgV::Int(*i),
            OscArg::Str(s) => ArgV::Str(s@),
            OscArg::Other => ArgV::Other,
        }
    }
}

impl DeepView for OscArg {
    type V = ArgV;

    open spec fn deep_view(&self) -> ArgV {
        self.view()
    }
}

/// A single protocol message: a self-contained address and its arguments.
pub struct OscMsg {
    pub addr: String,
    pub args: Vec<OscArg>,
}

/// The mathematical value of an `OscMsg`.
#[verifier::ext_equal]
pub struct MsgV {
    pub addr: Seq<char>,
    pub args: Seq<ArgV>,
}

impl View for OscMsg {
    type V = MsgV;

    open spec fn view(&self) -> MsgV {
        MsgV { addr: self.addr@, args: self.args.deep_view() }
    }
}

/// What one datagram decodes to: a single message or a bundle. The engine
/// treats a bundle as a protocol violation and never looks inside one, so a
/// bundle's contents are not modelled.
pub enum Packet {
    Message(OscMsg),
    Bundle,
}

/// The mathematical value of a `Packet`.
#[verifier::ext_equal]
pub enum PacketV {
    Message(MsgV),
    Bundle,
}

impl View for Packet {
    type V = PacketV;

    open spec fn view(&self) -> PacketV {
        match self {
            Packet::Message(m) => PacketV::Message(m@),
            Packet::Bundle => PacketV::Bundle,
        }
    }
}

/// The bytes the outside codec produces for a message; a function of the
/// message alone.
pub uninterp spec fn osc_encoding(m: MsgV) -> Seq<u8>;

/// What the outside codec makes of a byte string: a packet, or nothing when
/// the bytes are malformed; a function of the bytes alone.
pub uninterp spec fn osc_decoded(b: Seq<u8>) -> Option<PacketV>;

/// Relies on rosc::encoder::encode: it encodes one message packet, the bytes
/// depend on the message alone, and per its source it cannot fail when
/// writing into a byte vector.
#[verifier::external_body]
pub(crate) fn encode_message(m: &OscMsg) -> (r: Vec<u8>)
    ensures
        r@ == osc_encoding(m@),
{
    let args = m.args.iter().map(|a| match a {
        OscArg::Int(i) => rosc::OscType::Int(*i),
        OscArg::Str(s) => rosc::OscType::String(s.clone()),
        OscArg::Other => rosc::OscType::Nil,
    }).collect();
    let packet = rosc::OscPacket::Message(rosc::OscMessage { addr: m.addr.clone(), args });
    rosc::encoder::encode(&packet).unwrap()
}

/// Relies on rosc::decoder::decode_udp: it parses one datagram into a packet
/// or reports malformed bytes, and the outcome depends on the bytes alone.
#[verifier::external_body]
pub(crate) fn decode_frame(b: &[u8]) -> (r: Option<Packet>)
    ensures
        r matches Some(p) ==> osc_decoded(b@) == Some(p@),
        r is None ==> osc_decoded(b@) is None,
{
    match rosc::decoder::decode_udp(b) {
        Ok((_, rosc::OscPacket::Message(m))) => {
            let args = m.args.into_iter().map(|a| match a {
                rosc::OscType::Int(i) => OscArg::Int(i),
                rosc::OscType::String(s) => OscArg::Str(s),
                _ => OscArg::Other,
            }).collect();
            Some(Packet::Message(OscMsg { addr: m.addr, args }))
        }
        Ok((_, rosc::OscPacket::Bundle(_))) => Some(Packet::Bundle),
        Err(_) => None,
    }
}

} // verus!
