//! The handshake engine: after the four set-up messages go out, the device
//! answers with six field messages in no particular order. This module
//! accumulates them into a session descriptor and says exactly when the
//! descriptor is complete.

use vstd::prelude::*;

verus! {

use crate::osc::decode_frame;
use crate::osc::encode_message;
use crate::osc::osc_decoded;
use crate::osc::osc_encoding;
use crate::osc::ArgV;
use crate::osc::MsgV;
use crate::osc::OscArg;
use crate::osc::OscMsg;
use crate::osc::Packet;
use crate::osc::PacketV;
use crate::text::starts_with;
use crate::text::str_starts_with;
use vstd::string::StringExecFns;

/// The six optional fields of a session descriptor, filled one message at a
/// time while the handshake runs.
#[derive(Debug)]
pub struct MonomeInfo {
    pub(crate) port: Option<i32>,
    pub(crate) host: Option<String>,
    pub(crate) prefix: Option<String>,
    pub(crate) id: Option<String>,
    pub(crate) size: Option<(i32, i32)>,
    pub(crate) rotation: Option<i32>,
}

/// The mathematical value of a `MonomeInfo`.
#[verifier::ext_equal]
pub struct InfoV {
    pub port: Option<i32>,
    pub host: Option<Seq<char>>,
    pub prefix: Option<Seq<char>>,
    pub id: Option<Seq<char>>,
    pub size: Option<(i32, i32)>,
    pub rotation: Option<i32>,
}

impl View for MonomeInfo {
    type V = InfoV;

    open(crate) spec fn view(&self) -> InfoV {
        InfoV {
            port: self.port,
            host: match self.host {
                Some(ref s) => Some(s@),
                None => None,
            },
            prefix: match self.prefix {
                Some(ref s) => Some(s@),
                None => None,
            },
            id: match self.id {
                Some(ref s) => Some(s@),
                None => None,
            },
            size: self.size,
            rotation: self.rotation,
        }
    }
}

/// The descriptor state before any field message has arrived.
pub open spec fn info_init() -> InfoV {
    InfoV { port: None, host: None, prefix: None, id: None, size: None, rotation: None }
}

/// Whether all six fields have been observed.
pub open spec fn info_complete(i: InfoV) -> bool {
    &&& i.port is Some
    &&& i.host is Some
    &&& i.prefix is Some
    &&& i.id is Some
    &&& i.size is Some
    &&& i.rotation is Some
}

/// Whether `p` is a field message that sets the device port.
pub open spec fn sets_port(p: PacketV) -> bool {
    &&& p matches PacketV::Message(m)
    &&& starts_with(m.addr, "/sys/port"@)
    &&& m.args.len() >= 1
    &&& m.args[0] is Int
}

/// Whether `p` is a field message that sets the host.
pub open spec fn sets_host(p: PacketV) -> bool {
    &&& p matches PacketV::Message(m)
    &&& !starts_with(m.addr, "/sys/port"@)
    &&& starts_with(m.addr, "/sys/host"@)
    &&& m.args.len() >= 1
    &&& m.args[0] is Str
}

/// Whether `p` is a field message that sets the device id.
pub open spec fn sets_id(p: PacketV) -> bool {
    &&& p matches PacketV::Message(m)
    &&& !starts_with(m.addr, "/sys/port"@)
    &&& !starts_with(m.addr, "/sys/host"@)
    &&& starts_with(m.addr, "/sys/id"@)
    &&& m.args.len() >= 1
    &&& m.args[0] is Str
}

/// Whether `p` is a field message that sets the prefix.
pub open spec fn sets_prefix(p: PacketV) -> bool {
    &&& p matches PacketV::Message(m)
    &&& !starts_with(m.addr, "/sys/port"@)
    &&& !starts_with(m.addr, "/sys/host"@)
    &&& !starts_with(m.addr, "/sys/id"@)
    &&& starts_with(m.addr, "/sys/prefix"@)
    &&& m.args.len() >= 1
    &&& m.args[0] is Str
}

/// Whether `p` is a field message that sets the rotation.
pub open spec fn sets_rotation(p: PacketV) -> bool {
    &&& p matches PacketV::Message(m)
    &&& !starts_with(m.addr, "/sys/port"@)
    &&& !starts_with(m.addr, "/sys/host"@)
    &&& !starts_with(m.addr, "/sys/id"@)
    &&& !starts_with(m.addr, "/sys/prefix"@)
    &&& starts_with(m.addr, "/sys/rotation"@)
    &&& m.args.len() >= 1
    &&& m.args[0] is Int
}

/// Whether `p` is a field message that sets the width and height.
pub open spec fn sets_size(p: PacketV) -> bool {
    &&& p matches PacketV::Message(m)
    &&& !starts_with(m.addr, "/sys/port"@)
    &&& !starts_with(m.addr, "/sys/host"@)
    &&& !starts_with(m.addr, "/sys/id"@)
    &&& !starts_with(m.addr, "/sys/prefix"@)
    &&& !starts_with(m.addr, "/sys/rotation"@)
    &&& starts_with(m.addr, "/sys/size"@)
    &&& m.args.len() >= 2
    &&& m.args[0] is Int
    &&& m.args[1] is Int
}

/// What one packet does to the descriptor: the recognised field message
/// fills its field with the carried value, everything else changes nothing.
pub open spec fn fill_model(info: InfoV, p: PacketV) -> InfoV {
    match p {
        PacketV::Bundle => info,
        PacketV::Message(m) => {
            if sets_port(p) {
                InfoV { port: Some(m.args[0]->Int_0), ..info }
            } else if sets_host(p) {
                InfoV { host: Some(m.args[0]->Str_0), ..info }
            } else if sets_id(p) {
                InfoV { id: Some(m.args[0]->Str_0), ..info }
            } else if sets_prefix(p) {
                InfoV { prefix: Some(m.args[0]->Str_0), ..info }
            } else if sets_rotation(p) {
                InfoV { rotation: Some(m.args[0]->Int_0), ..info }
            } else if sets_size(p) {
                InfoV { size: Some((m.args[0]->Int_0, m.args[1]->Int_0)), ..info }
            } else {
                info
            }
        }
    }
}

/// A violation seen while a handshake datagram was being read.
#[derive(Clone, Copy, PartialEq, Eq, Structural, Debug)]
pub enum HandshakeError {
    /// The datagram held a bundle, which the protocol forbids here.
    Bundle,
    /// The datagram could not be decoded at all.
    Malformed,
}

impl MonomeInfo {
    /// A descriptor with no field observed yet.
    pub fn new() -> (i: MonomeInfo)
        ensures
            i@ == info_init(),
    {
        let i = MonomeInfo {
            port: None,
            host: None,
            prefix: None,
            id: None,
            size: None,
            rotation: None,
        };
        assert(i@ =~= info_init());
        i
    }

    /// Whether all six fields have been observed.
    pub fn complete(&self) -> (r: bool)
        ensures
            r == info_complete(self@),
    {
        self.port.is_some() && self.host.is_some() && self.prefix.is_some() && self.id.is_some()
            && self.size.is_some() && self.rotation.is_some()
    }

    /// Routes one packet to the field it carries, exactly as `fill_model`
    /// says; unrecognised messages and bundles change nothing.
    pub fn fill(&mut self, packet: &Packet)
        ensures
            final(self)@ == fill_model(old(self)@, packet@),
    {
        let m = match packet {
            Packet::Message(m) => m,
            Packet::Bundle => {
                return;
            },
        };
        let addr = m.addr.as_str();
        if str_starts_with(addr, "/sys/port") {
            if m.args.len() >= 1 {
                if let OscArg::Int(port) = m.args[0] {
                    self.port = Some(port);
                }
            }
        } else if str_starts_with(addr, "/sys/host") {
            if m.args.len() >= 1 {
                if let OscArg::Str(ref host) = m.args[0] {
                    self.host = Some(host.clone());
                }
            }
        } else if str_starts_with(addr, "/sys/id") {
            if m.args.len() >= 1 {
                if let OscArg::Str(ref id) = m.args[0] {
                    self.id = Some(id.clone());
                }
            }
        } else if str_starts_with(addr, "/sys/prefix") {
            if m.args.len() >= 1 {
                if let OscArg::Str(ref prefix) = m.args[0] {
                    self.prefix = Some(prefix.clone());
                }
            }
        } else if str_starts_with(addr, "/sys/rotation") {
            if m.args.len() >= 1 {
                if let OscArg::Int(rotation) = m.args[0] {
                    self.rotation = Some(rotation);
                }
            }
        } else if str_starts_with(addr, "/sys/size") {
            if m.args.len() >= 2 {
                if let OscArg::Int(x) = m.args[0] {
                    if let OscArg::Int(y) = m.args[1] {
                        self.size = Some((x, y));
                    }
                }
            }
        }
        assert(final(self)@ =~= fill_model(old(self)@, packet@));
    }

    /// Decodes one received datagram and routes it to its field. A bundle is
    /// a protocol violation here and undecodable bytes are refused; either
    /// way the descriptor stays as it was.
    pub fn fill_frame(&mut self, frame: &[u8]) -> (r: Result<(), HandshakeError>)
        ensures
            match osc_decoded(frame@) {
                Some(p) => {
                    if p is Bundle {
                        r == Err::<(), HandshakeError>(HandshakeError::Bundle) && final(self)@
                            == old(self)@
                    } else {
                        r is Ok && final(self)@ == fill_model(old(self)@, p)
                    }
                },
                None => {
                    r == Err::<(), HandshakeError>(HandshakeError::Malformed) && final(self)@
                        == old(self)@
                },
            },
    {
        match decode_frame(frame) {
            Some(Packet::Bundle) => Err(HandshakeError::Bundle),
            Some(p) => {
                self.fill(&p);
                Ok(())
            },
            None => Err(HandshakeError::Malformed),
        }
    }
}

/// The four set-up frames of a handshake, in the order they must be sent:
/// set-port with the local socket's port, set-host with the local address,
/// set-prefix with the caller's prefix, then the request for the device's
/// six info fields.
pub fn setup_requests(server_port: i32, host: &str, prefix: &str) -> (r: Vec<Vec<u8>>)
    ensures
        r.deep_view() == seq![
            osc_encoding(MsgV { addr: "/sys/port"@, args: seq![ArgV::Int(server_port)] }),
            osc_encoding(MsgV { addr: "/sys/host"@, args: seq![ArgV::Str(host@)] }),
            osc_encoding(MsgV { addr: "/sys/prefix"@, args: seq![ArgV::Str(prefix@)] }),
            osc_encoding(MsgV { addr: "/sys/info"@, args: Seq::<ArgV>::empty() }),
        ],
{
    let mut r: Vec<Vec<u8>> = Vec::new();
    let mut port_args: Vec<OscArg> = Vec::new();
    port_args.push(OscArg::Int(server_port));
    let port_msg = OscMsg { addr: String::from_str("/sys/port"), args: port_args };
    assert(port_msg@ =~= (MsgV { addr: "/sys/port"@, args: seq![ArgV::Int(server_port)] }));
    r.push(encode_message(&port_msg));
    let mut host_args: Vec<OscArg> = Vec::new();
    host_args.push(OscArg::Str(String::from_str(host)));
    let host_msg = OscMsg { addr: String::from_str("/sys/host"), args: host_args };
    assert(host_msg@ =~= (MsgV { addr: "/sys/host"@, args: seq![ArgV::Str(host@)] }));
    r.push(encode_message(&host_msg));
    let mut prefix_args: Vec<OscArg> = Vec::new();
    prefix_args.push(OscArg::Str(String::from_str(prefix)));
    let prefix_msg = OscMsg { addr: String::from_str("/sys/prefix"), args: prefix_args };
    assert(prefix_msg@ =~= (MsgV { addr: "/sys/prefix"@, args: seq![ArgV::Str(prefix@)] }));
    r.push(encode_message(&prefix_msg));
    let info_msg = OscMsg { addr: String::from_str("/sys/info"), args: Vec::new() };
    assert(info_msg@ =~= (MsgV { addr: "/sys/info"@, args: Seq::<ArgV>::empty() }));
    r.push(encode_message(&info_msg));
    assert(r.deep_view() =~~= seq![
        osc_encoding(MsgV { addr: "/sys/port"@, args: seq![ArgV::Int(server_port)] }),
        osc_encoding(MsgV { addr: "/sys/host"@, args: seq![ArgV::Str(host@)] }),
        osc_encoding(MsgV { addr: "/sys/prefix"@, args: seq![ArgV::Str(prefix@)] }),
        osc_encoding(MsgV { addr: "/sys/info"@, args: Seq::<ArgV>::empty() }),
    ]);
    r
}

/// How a sequence of packets, applied oldest first, fills a descriptor.
pub open spec fn fill_all(info: InfoV, ps: Seq<PacketV>) -> InfoV
    decreases ps.len(),
{
    if ps.len() == 0 {
        info
    } else {
        fill_all(fill_model(info, ps[0]), ps.drop_first())
    }
}

/// One of the six descriptor fields.
pub enum InfoField {
    Port,
    Host,
    Prefix,
    Id,
    Rotation,
    Size,
}

/// Whether `p` is the field message for `f`.
pub open spec fn sets_field(f: InfoField, p: PacketV) -> bool {
    match f {
        InfoField::Port => sets_port(p),
        InfoField::Host => sets_host(p),
        InfoField::Prefix => sets_prefix(p),
        InfoField::Id => sets_id(p),
        InfoField::Rotation => sets_rotation(p),
        InfoField::Size => sets_size(p),
    }
}

/// Whether field `f` of the descriptor has been observed.
pub open spec fn field_present(info: InfoV, f: InfoField) -> bool {
    match f {
        InfoField::Port => info.port is Some,
        InfoField::Host => info.host is Some,
        InfoField::Prefix => info.prefix is Some,
        InfoField::Id => info.id is Some,
        InfoField::Rotation => info.rotation is Some,
        InfoField::Size => info.size is Some,
    }
}

/// A field is observed after a run of packets exactly when it was observed
/// before or some packet of the run is its field message: one message fills
/// one field, and no later message clears it.
pub proof fn lemma_fill_field_presence(info: InfoV, ps: Seq<PacketV>, f: InfoField)
    ensures
        field_present(fill_all(info, ps), f) <==> (field_present(info, f) || exists|j: int|
            0 <= j < ps.len() && sets_field(f, #[trigger] ps[j])),
    decreases ps.len(),
{
    if ps.len() == 0 {
    } else {
        let info1 = fill_model(info, ps[0]);
        let rest = ps.drop_first();
        lemma_fill_field_presence(info1, rest, f);
        assert(field_present(info1, f) == (field_present(info, f) || sets_field(f, ps[0])));
        if exists|j: int| 0 <= j < rest.len() && sets_field(f, #[trigger] rest[j]) {
            let j = choose|j: int| 0 <= j < rest.len() && sets_field(f, #[trigger] rest[j]);
            assert(sets_field(f, ps[j + 1]));
        }
        if exists|j: int| 0 <= j < ps.len() && sets_field(f, #[trigger] ps[j]) {
            let j = choose|j: int| 0 <= j < ps.len() && sets_field(f, #[trigger] ps[j]);
            if j > 0 {
                assert(sets_field(f, rest[j - 1]));
            }
        }
    }
}

/// Whether `x` and `y` agree on field `f`.
pub open spec fn same_field(f: InfoField, x: InfoV, y: InfoV) -> bool {
    match f {
        InfoField::Port => x.port == y.port,
        InfoField::Host => x.host == y.host,
        InfoField::Prefix => x.prefix == y.prefix,
        InfoField::Id => x.id == y.id,
        InfoField::Rotation => x.rotation == y.rotation,
        InfoField::Size => x.size == y.size,
    }
}

/// A run without a field message for `f` leaves that field as it was.
proof fn lemma_fill_no_setter(info: InfoV, ps: Seq<PacketV>, f: InfoField)
    requires
        forall|k: int| 0 <= k < ps.len() ==> !sets_field(f, #[trigger] ps[k]),
    ensures
        same_field(f, fill_all(info, ps), info),
    decreases ps.len(),
{
    if ps.len() > 0 {
        assert(!sets_field(f, ps[0]));
        assert forall|k: int| 0 <= k < ps.drop_first().len() implies !sets_field(
            f,
            #[trigger] ps.drop_first()[k],
        ) by {
            assert(ps.drop_first()[k] == ps[k + 1]);
        }
        lemma_fill_no_setter(fill_model(info, ps[0]), ps.drop_first(), f);
    }
}

/// Field messages for two distinct fields commute: filling with `p1` and
/// then `p2` leaves the descriptor exactly as filling with `p2` and then
/// `p1`, so the final descriptor does not depend on arrival order.
pub proof fn lemma_fill_commutes(info: InfoV, p1: PacketV, p2: PacketV, f1: InfoField, f2: InfoField)
    requires
        sets_field(f1, p1),
        sets_field(f2, p2),
        f1 != f2,
    ensures
        fill_model(fill_model(info, p1), p2) == fill_model(fill_model(info, p2), p1),
{
    assert(fill_model(fill_model(info, p1), p2) =~= fill_model(fill_model(info, p2), p1));
}

/// The last field message of each kind decides that field's final value,
/// whatever order the messages arrived in and whatever else arrived around
/// them.
pub proof fn lemma_fill_last_setter_wins(info: InfoV, ps: Seq<PacketV>, f: InfoField, j: int)
    requires
        0 <= j < ps.len(),
        sets_field(f, ps[j]),
        forall|k: int| j < k < ps.len() ==> !sets_field(f, #[trigger] ps[k]),
    ensures
        same_field(f, fill_all(info, ps), fill_model(info, ps[j])),
    decreases ps.len(),
{
    let info1 = fill_model(info, ps[0]);
    let rest = ps.drop_first();
    if j == 0 {
        assert forall|k: int| 0 <= k < rest.len() implies !sets_field(
            f,
            #[trigger] rest[k],
        ) by {
            assert(rest[k] == ps[k + 1]);
        }
        lemma_fill_no_setter(info1, rest, f);
    } else {
        assert(rest[j - 1] == ps[j]);
        assert forall|k: int| j - 1 < k < rest.len() implies !sets_field(
            f,
            #[trigger] rest[k],
        ) by {
            assert(rest[k] == ps[k + 1]);
        }
        lemma_fill_last_setter_wins(info1, rest, f, j - 1);
        assert(same_field(f, fill_model(info1, ps[j]), fill_model(info, ps[j])));
    }
}

/// The descriptor built from a fresh state by any run of packets is
/// complete exactly when every one of the six field messages occurs in the
/// run, in whatever order the messages arrived.
pub proof fn lemma_handshake_complete_any_order(ps: Seq<PacketV>)
    ensures
        info_complete(fill_all(info_init(), ps)) <==> {
            &&& exists|j: int| 0 <= j < ps.len() && sets_port(#[trigger] ps[j])
            &&& exists|j: int| 0 <= j < ps.len() && sets_host(#[trigger] ps[j])
            &&& exists|j: int| 0 <= j < ps.len() && sets_prefix(#[trigger] ps[j])
            &&& exists|j: int| 0 <= j < ps.len() && sets_id(#[trigger] ps[j])
            &&& exists|j: int| 0 <= j < ps.len() && sets_rotation(#[trigger] ps[j])
            &&& exists|j: int| 0 <= j < ps.len() && sets_size(#[trigger] ps[j])
        },
{
    lemma_fill_field_presence(info_init(), ps, InfoField::Port);
    lemma_fill_field_presence(info_init(), ps, InfoField::Host);
    lemma_fill_field_presence(info_init(), ps, InfoField::Prefix);
    lemma_fill_field_presence(info_init(), ps, InfoField::Id);
    lemma_fill_field_presence(info_init(), ps, InfoField::Rotation);
    lemma_fill_field_presence(info_init(), ps, InfoField::Size);
}

} // verus!
