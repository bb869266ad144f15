//! The discovery engine: one enumeration exchange with the daemon, driven
//! by an inactivity window, and the long-lived device-change watcher. The
//! caller supplies a millisecond clock and the received datagrams; this
//! module decides what each datagram means and when the enumeration is
//! over.

use vstd::prelude::*;

verus! {

use crate::devices::kind_of_description;
use crate::devices::DeviceChangeEvent;
use crate::devices::DeviceChangeV;
use crate::devices::DeviceV;
use crate::devices::MonomeDevice;
use crate::osc::decode_frame;
use crate::osc::encode_message;
use crate::osc::osc_decoded;
use crate::osc::osc_encoding;
use crate::osc::ArgV;
use crate::osc::MsgV;
use crate::osc::OscArg;
use crate::osc::OscMsg;
use crate::osc::Packet;
use crate::osc::PacketV;
use crate::text::starts_with;
use crate::text::str_eq;
use crate::text::str_starts_with;
use vstd::string::StringExecFns;

/// How long an enumeration waits without a matching answer before it
/// declares the device list complete, in milliseconds.
pub const DEVICE_ENUMERATION_TIMEOUT_MS: u64 = 500;

/// Whether `p` announces one device: the device address with the exact
/// name, type and port argument shape.
pub open spec fn announces_device(p: PacketV) -> bool {
    &&& p matches PacketV::Message(m)
    &&& m.addr == "/serialosc/device"@
    &&& m.args.len() == 3
    &&& m.args[0] is Str
    &&& m.args[1] is Str
    &&& m.args[2] is Int
}

/// The descriptor carried by a device announcement.
pub open spec fn announced_device(p: PacketV) -> DeviceV
    recommends
        announces_device(p),
{
    let m = p->Message_0;
    DeviceV {
        name: m.args[0]->Str_0,
        device_type: kind_of_description(m.args[1]->Str_0),
        port: m.args[2]->Int_0,
    }
}

/// The mathematical state of one enumeration: the devices announced so far
/// and the moment the inactivity window runs out.
#[verifier::ext_equal]
pub struct DiscV {
    pub devices: Seq<DeviceV>,
    pub deadline_ms: int,
}

/// What one packet received at `now_ms` does to an enumeration: a device
/// announcement inside the window adds its descriptor and restarts the
/// window; any other packet, and anything after the window, changes
/// nothing.
pub open spec fn disc_step(s: DiscV, now_ms: u64, p: PacketV) -> DiscV {
    if now_ms <= s.deadline_ms && announces_device(p) {
        DiscV {
            devices: s.devices.push(announced_device(p)),
            deadline_ms: now_ms + DEVICE_ENUMERATION_TIMEOUT_MS,
        }
    } else {
        s
    }
}

/// An error seen while an enumeration datagram was being read.
#[derive(Clone, Copy, PartialEq, Eq, Structural, Debug)]
pub enum DiscoveryError {
    /// The datagram could not be decoded at all.
    Malformed,
}

/// One enumeration in progress.
pub struct DiscoverySession {
    devices: Vec<MonomeDevice>,
    deadline_ms: u64,
}

impl View for DiscoverySession {
    type V = DiscV;

    closed spec fn view(&self) -> DiscV {
        DiscV { devices: self.devices.deep_view(), deadline_ms: self.deadline_ms as int }
    }
}

impl DiscoverySession {
    /// An enumeration started at `now_ms`, with no device seen yet and the
    /// first inactivity window open.
    pub fn begin(now_ms: u64) -> (s: DiscoverySession)
        requires
            now_ms + DEVICE_ENUMERATION_TIMEOUT_MS <= u64::MAX,
        ensures
            s@.devices == Seq::<DeviceV>::empty(),
            s@.deadline_ms == now_ms + DEVICE_ENUMERATION_TIMEOUT_MS,
    {
        let s = DiscoverySession {
            devices: Vec::new(),
            deadline_ms: now_ms + DEVICE_ENUMERATION_TIMEOUT_MS,
        };
        assert(s@.devices =~= Seq::<DeviceV>::empty());
        s
    }

    /// Whether the inactivity window has run out at `now_ms`.
    pub fn expired(&self, now_ms: u64) -> (r: bool)
        ensures
            r == (now_ms > self@.deadline_ms),
    {
        now_ms > self.deadline_ms
    }

    /// The moment the inactivity window runs out, in milliseconds.
    pub fn deadline_ms(&self) -> (d: u64)
        ensures
            d == self@.deadline_ms,
    {
        self.deadline_ms
    }

    /// Feeds one decoded packet received at `now_ms` into the enumeration,
    /// exactly as `disc_step` says. Returns whether the packet matched and
    /// so restarted the inactivity window.
    pub fn on_packet(&mut self, now_ms: u64, p: &Packet) -> (reset: bool)
        requires
            now_ms + DEVICE_ENUMERATION_TIMEOUT_MS <= u64::MAX,
        ensures
            final(self)@ == disc_step(old(self)@, now_ms, p@),
            reset == (now_ms <= old(self)@.deadline_ms && announces_device(p@)),
    {
        if now_ms > self.deadline_ms {
            return false;
        }
        let m = match p {
            Packet::Message(m) => m,
            Packet::Bundle => {
                return false;
            },
        };
        if !str_eq(m.addr.as_str(), "/serialosc/device") {
            return false;
        }
        if m.args.len() != 3 {
            return false;
        }
        let name = match &m.args[0] {
            OscArg::Str(s) => s,
            _ => {
                return false;
            },
        };
        let kind = match &m.args[1] {
            OscArg::Str(s) => s,
            _ => {
                return false;
            },
        };
        let port = match &m.args[2] {
            OscArg::Int(p) => *p,
            _ => {
                return false;
            },
        };
        let ghost prev = self@.devices;
        let d = MonomeDevice::new(name.as_str(), kind.as_str(), port);
        self.devices.push(d);
        self.deadline_ms = now_ms + DEVICE_ENUMERATION_TIMEOUT_MS;
        assert(self@.devices =~= prev.push(announced_device(p@)));
        true
    }

    /// Decodes one received datagram and feeds it in. Undecodable bytes are
    /// refused and leave the enumeration as it was; the daemon is expected
    /// to be well formed, so the caller treats that as fatal.
    pub fn on_frame(&mut self, now_ms: u64, frame: &[u8]) -> (r: Result<bool, DiscoveryError>)
        requires
            now_ms + DEVICE_ENUMERATION_TIMEOUT_MS <= u64::MAX,
        ensures
            match osc_decoded(frame@) {
                Some(p) => {
                    &&& r is Ok
                    &&& final(self)@ == disc_step(old(self)@, now_ms, p)
                    &&& r->Ok_0 == (now_ms <= old(self)@.deadline_ms && announces_device(p))
                },
                None => {
                    &&& r == Err::<bool, DiscoveryError>(DiscoveryError::Malformed)
                    &&& final(self)@ == old(self)@
                },
            },
    {
        match decode_frame(frame) {
            Some(p) => Ok(self.on_packet(now_ms, &p)),
            None => Err(DiscoveryError::Malformed),
        }
    }

    /// Ends the enumeration and hands over the devices seen, oldest first.
    /// An empty list is a valid outcome: no daemon answered in time.
    pub fn into_devices(self) -> (d: Vec<MonomeDevice>)
        ensures
            d.deep_view() == self@.devices,
    {
        self.devices
    }
}

/// The list request an enumeration opens with, carrying the address and
/// port the daemon should answer to.
pub fn list_request(host: &str, port: i32) -> (r: Vec<u8>)
    ensures
        r@ == osc_encoding(
            MsgV { addr: "/serialosc/list"@, args: seq![ArgV::Str(host@), ArgV::Int(port)] },
        ),
{
    let mut args: Vec<OscArg> = Vec::new();
    args.push(OscArg::Str(String::from_str(host)));
    args.push(OscArg::Int(port));
    let m = OscMsg { addr: String::from_str("/serialosc/list"), args };
    assert(m@ =~= (MsgV {
        addr: "/serialosc/list"@,
        args: seq![ArgV::Str(host@), ArgV::Int(port)],
    }));
    encode_message(&m)
}

/// The registration request the watcher sends so that the daemon notifies
/// it of the next device change.
pub fn notify_request(host: &str, port: i32) -> (r: Vec<u8>)
    ensures
        r@ == osc_encoding(
            MsgV { addr: "/serialosc/notify"@, args: seq![ArgV::Str(host@), ArgV::Int(port)] },
        ),
{
    let mut args: Vec<OscArg> = Vec::new();
    args.push(OscArg::Str(String::from_str(host)));
    args.push(OscArg::Int(port));
    let m = OscMsg { addr: String::from_str("/serialosc/notify"), args };
    assert(m@ =~= (MsgV {
        addr: "/serialosc/notify"@,
        args: seq![ArgV::Str(host@), ArgV::Int(port)],
    }));
    encode_message(&m)
}

/// What one packet on the notification socket means: the change to report,
/// and whether the daemon must be asked to notify again (it stops after
/// each notification it fires). Everything else is silently ignored.
pub open spec fn watch_model(p: PacketV) -> (Option<DeviceChangeV>, bool) {
    match p {
        PacketV::Message(m) => {
            if starts_with(m.addr, "/serialosc/add"@) && m.args.len() >= 1 && m.args[0] is Str {
                (Some(DeviceChangeV::Added(m.args[0]->Str_0)), true)
            } else if starts_with(m.addr, "/serialosc/remove"@) && m.args.len() >= 1
                && m.args[0] is Str {
                (Some(DeviceChangeV::Removed(m.args[0]->Str_0)), true)
            } else {
                (None, false)
            }
        },
        PacketV::Bundle => (None, false),
    }
}

/// Classifies one packet from the notification socket, exactly as
/// `watch_model` says.
pub fn watch_step(p: &Packet) -> (r: (Option<DeviceChangeEvent>, bool))
    ensures
        r.1 == watch_model(p@).1,
        match r.0 {
            Some(e) => watch_model(p@).0 == Some(e@),
            None => watch_model(p@).0 is None,
        },
{
    let m = match p {
        Packet::Message(m) => m,
        Packet::Bundle => {
            return (None, false);
        },
    };
    let addr = m.addr.as_str();
    if str_starts_with(addr, "/serialosc/add") {
        if m.args.len() >= 1 {
            if let OscArg::Str(ref id) = m.args[0] {
                return (Some(DeviceChangeEvent::Added(id.clone())), true);
            }
        }
        (None, false)
    } else if str_starts_with(addr, "/serialosc/remove") {
        if m.args.len() >= 1 {
            if let OscArg::Str(ref id) = m.args[0] {
                return (Some(DeviceChangeEvent::Removed(id.clone())), true);
            }
        }
        (None, false)
    } else {
        (None, false)
    }
}

/// Classifies one raw datagram from the notification socket; bytes that do
/// not decode are ignored like any unrecognised message.
pub fn watch_frame(frame: &[u8]) -> (r: (Option<DeviceChangeEvent>, bool))
    ensures
        match osc_decoded(frame@) {
            Some(p) => r.1 == watch_model(p).1 && (match r.0 {
                Some(e) => watch_model(p).0 == Some(e@),
                None => watch_model(p).0 is None,
            }),
            None => r.0 is None && r.1 == false,
        },
{
    match decode_frame(frame) {
        Some(p) => watch_step(&p),
        None => (None, false),
    }
}

/// How a run of timed packets, oldest first, drives one enumeration.
pub open spec fn disc_run(s: DiscV, events: Seq<(u64, PacketV)>) -> DiscV
    decreases events.len(),
{
    if events.len() == 0 {
        s
    } else {
        disc_run(disc_step(s, events[0].0, events[0].1), events.drop_first())
    }
}

/// A run that carries no device announcement leaves the enumeration exactly
/// as it was: stray traffic neither appears in the result nor moves the
/// inactivity window.
pub proof fn lemma_discovery_ignores_strays(s: DiscV, events: Seq<(u64, PacketV)>)
    requires
        forall|j: int| 0 <= j < events.len() ==> !announces_device((#[trigger] events[j]).1),
    ensures
        disc_run(s, events) == s,
    decreases events.len(),
{
    if events.len() > 0 {
        lemma_discovery_ignores_strays(s, events.drop_first());
    }
}

/// A run of device announcements, each arriving before the window left by
/// the one before it runs out, is accumulated in full and in arrival order.
pub proof fn lemma_discovery_counts_all(s: DiscV, events: Seq<(u64, PacketV)>)
    requires
        forall|j: int| 0 <= j < events.len() ==> announces_device((#[trigger] events[j]).1),
        forall|j: int|
            0 <= j < events.len() ==> (#[trigger] events[j]).0 <= (if j == 0 {
                s.deadline_ms
            } else {
                events[j - 1].0 + DEVICE_ENUMERATION_TIMEOUT_MS
            }),
    ensures
        disc_run(s, events).devices == s.devices + Seq::new(
            events.len(),
            |j: int| announced_device(events[j].1),
        ),
    decreases events.len(),
{
    if events.len() == 0 {
        assert(disc_run(s, events).devices =~= s.devices + Seq::new(
            events.len(),
            |j: int| announced_device(events[j].1),
        ));
    } else {
        let s1 = disc_step(s, events[0].0, events[0].1);
        let rest = events.drop_first();
        assert(s1.devices == s.devices.push(announced_device(events[0].1)));
        assert forall|j: int| 0 <= j < rest.len() implies (#[trigger] rest[j]).0 <= (if j == 0 {
            s1.deadline_ms
        } else {
            rest[j - 1].0 + DEVICE_ENUMERATION_TIMEOUT_MS
        }) by {
            assert(rest[j] == events[j + 1]);
            if j > 0 {
                assert(rest[j - 1] == events[j]);
            }
        }
        lemma_discovery_counts_all(s1, rest);
        assert(disc_run(s, events).devices =~= s.devices + Seq::new(
            events.len(),
            |j: int| announced_device(events[j].1),
        ));
    }
}

} // verus!
