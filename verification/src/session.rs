//! The session facade: the object a caller holds for one device. Command
//! methods encode a message and hand the frame to the bounded outbound
//! queue; `poll` takes one frame off the bounded inbound queue and decodes
//! it. The reactor drives the other end of both queues through
//! `next_outbound` and `push_inbound`. Display commands are best effort:
//! a full queue drops the frame, counts it, and never reaches the caller.

use vstd::prelude::*;

verus! {

use vstd::string::StringExecFns;

use vstd::arithmetic::div_mod::lemma_fundamental_div_mod;

use crate::devices::MonomeDevice;
use crate::devices::MonomeDeviceType;
use crate::devices::MonomeEvent;
use crate::encode::mask_rec;
use crate::encode::row_mask;
use crate::encode::IntoAddrAndArgs;
use crate::events::parse_message;
use crate::events::poll_model;
use crate::events::PollError;
use crate::handshake::info_complete;
use crate::handshake::MonomeInfo;
use crate::osc::decode_frame;
use crate::osc::encode_message;
use crate::osc::osc_encoding;
use crate::osc::ArgV;
use crate::osc::MsgV;
use crate::osc::OscArg;
use crate::osc::OscMsg;
use crate::osc::Packet;
use crate::queue::FrameQueue;
use crate::text::concat_str;

/// The default port at which the discovery daemon is running.
pub const SERIALOSC_PORT: i32 = 12002;

/// How many command frames may wait for the reactor before new ones are
/// dropped.
pub const OUTBOUND_CAPACITY: usize = 16;

/// How many received frames may wait for the caller before new ones are
/// dropped.
pub const INBOUND_CAPACITY: usize = 32;

/// The grid sizes this engine accepts: non-negative and at most 256 leds a
/// side. The size arrives from the network, so it is checked once here:
/// the largest grid made is 16×16, so 256 a side leaves generous headroom,
/// and the bound keeps every led index of a grid-wide update well inside
/// machine range.
pub open spec fn valid_size(size: (i32, i32)) -> bool {
    0 <= size.0 <= 256 && 0 <= size.1 <= 256
}

/// The mathematical value of a session.
#[verifier::ext_equal]
pub struct SessionV {
    pub name: Seq<char>,
    pub device_type: MonomeDeviceType,
    pub port: i32,
    pub host: Seq<char>,
    pub id: Seq<char>,
    pub prefix: Seq<char>,
    pub rotation: i32,
    pub size: (i32, i32),
    pub out_queue: Seq<Seq<u8>>,
    pub in_queue: Seq<Seq<u8>>,
    pub dropped_frames: u64,
}

/// `n` grown by one until it sticks at its ceiling.
pub open spec fn sat_inc(n: u64) -> u64 {
    if n == u64::MAX {
        n
    } else {
        (n + 1) as u64
    }
}

/// The effect of handing one message to the outbound queue: the encoded
/// frame is queued when there is room and counted as dropped when not;
/// nothing else of the session changes, and nothing reaches the caller.
pub open spec fn send_effect(s: SessionV, m: MsgV) -> SessionV {
    if s.out_queue.len() < OUTBOUND_CAPACITY {
        SessionV { out_queue: s.out_queue.push(osc_encoding(m)), ..s }
    } else {
        SessionV { dropped_frames: sat_inc(s.dropped_frames), ..s }
    }
}

/// The address of one grid led operation under the session prefix.
pub open spec fn grid_op_addr(prefix: Seq<char>, frag: Seq<char>, op: Seq<char>) -> Seq<char> {
    prefix + "/grid/led/"@ + frag + op
}

/// The effect of sending several messages, oldest first.
pub open spec fn send_all_effect(s: SessionV, ms: Seq<MsgV>) -> SessionV
    decreases ms.len(),
{
    if ms.len() == 0 {
        s
    } else {
        send_all_effect(send_effect(s, ms[0]), ms.drop_first())
    }
}

/// Sending the messages and then one more is sending them all.
proof fn lemma_send_all_snoc(s: SessionV, ms: Seq<MsgV>, m: MsgV)
    ensures
        send_all_effect(s, ms.push(m)) == send_effect(send_all_effect(s, ms), m),
    decreases ms.len(),
{
    if ms.len() == 0 {
        let s1 = send_effect(s, m);
        assert(ms.push(m)[0] == m);
        assert(ms.push(m).drop_first() =~= ms);
        assert(send_all_effect(s, ms.push(m)) == send_all_effect(s1, ms));
        assert(send_all_effect(s1, ms) == s1);
        assert(send_all_effect(s, ms) == s);
    } else {
        let s1 = send_effect(s, ms[0]);
        assert(ms.push(m)[0] == ms[0]);
        assert(ms.push(m).drop_first() =~= ms.drop_first().push(m));
        assert(send_all_effect(s, ms.push(m)) == send_all_effect(s1, ms.drop_first().push(m)));
        lemma_send_all_snoc(s1, ms.drop_first(), m);
        assert(send_all_effect(s, ms) == send_all_effect(s1, ms.drop_first()));
    }
}

/// The map message for the 8×8 quadrant of `leds` whose origin is column
/// `8·b`, row `8·a`, on a grid `w` leds wide, each row packed into one mask
/// byte.
pub open spec fn bool_quad_msg(prefix: Seq<char>, leds: Seq<bool>, w: int, a: int, b: int) -> MsgV {
    MsgV {
        addr: grid_op_addr(prefix, ""@, "map"@),
        args: seq![ArgV::Int((8 * b) as i32), ArgV::Int((8 * a) as i32)] + Seq::new(
            8,
            |i: int| ArgV::Int(row_mask(leds, (8 * a + i) * w + 8 * b) as i32),
        ),
    }
}

/// The quadrant messages of a grid-wide boolean update: one map command per
/// 8×8 quadrant, in row-major quadrant order.
pub open spec fn set_all_msgs(prefix: Seq<char>, leds: Seq<bool>, w: int, wq: int, hq: int) -> Seq<
    MsgV,
> {
    Seq::new((wq * hq) as nat, |q: int| bool_quad_msg(prefix, leds, w, q / wq, q % wq))
}

/// The level-map message for the 8×8 quadrant of `leds` whose origin is
/// column `8·b`, row `8·a`, carrying its sixty-four intensities row-major.
pub open spec fn intensity_quad_msg(
    prefix: Seq<char>,
    leds: Seq<u8>,
    w: int,
    a: int,
    b: int,
) -> MsgV {
    MsgV {
        addr: grid_op_addr(prefix, "level/"@, "map"@),
        args: seq![ArgV::Int((8 * b) as i32), ArgV::Int((8 * a) as i32)] + Seq::new(
            64,
            |n: int| ArgV::Int(leds[(8 * a + n / 8) * w + 8 * b + n % 8] as i32),
        ),
    }
}

/// The quadrant messages of a grid-wide intensity update: one level-map
/// command per 8×8 quadrant, in row-major quadrant order.
pub open spec fn set_all_intensity_msgs(
    prefix: Seq<char>,
    leds: Seq<u8>,
    w: int,
    wq: int,
    hq: int,
) -> Seq<MsgV> {
    Seq::new((wq * hq) as nat, |q: int| intensity_quad_msg(prefix, leds, w, q / wq, q % wq))
}

/// A grid-wide update of a grid `w` leds wide and `h` high, both multiples
/// of 8, issues exactly (w/8)·(h/8) map commands, one per quadrant in
/// row-major quadrant order, and the command for quadrant row `a`, column
/// `b` is addressed to its own origin `(8·b, 8·a)`: distinct quadrants get
/// distinct origins.
pub proof fn lemma_set_all_quadrants(prefix: Seq<char>, leds: Seq<bool>, w: int, h: int)
    requires
        0 <= w <= 256,
        0 <= h <= 256,
        w % 8 == 0,
        h % 8 == 0,
    ensures
        set_all_msgs(prefix, leds, w, w / 8, h / 8).len() == (w / 8) * (h / 8),
        forall|q: int|
            0 <= q < (w / 8) * (h / 8) ==> #[trigger] set_all_msgs(prefix, leds, w, w / 8, h / 8)[q]
                == bool_quad_msg(prefix, leds, w, q / (w / 8), q % (w / 8)),
        forall|q1: int, q2: int|
            #![trigger set_all_msgs(prefix, leds, w, w / 8, h / 8)[q1], set_all_msgs(prefix, leds, w, w / 8, h / 8)[q2]]
            0 <= q1 < q2 < (w / 8) * (h / 8) ==> {
                let ms = set_all_msgs(prefix, leds, w, w / 8, h / 8);
                ms[q1].args[0] != ms[q2].args[0] || ms[q1].args[1] != ms[q2].args[1]
            },
{
    let wq = w / 8;
    let hq = h / 8;
    assert(wq * hq >= 0) by (nonlinear_arith)
        requires
            wq >= 0,
            hq >= 0,
    ;
    let ms = set_all_msgs(prefix, leds, w, wq, hq);
    assert forall|q1: int, q2: int| 0 <= q1 < q2 < wq * hq implies {
        (#[trigger] ms[q1]).args[0] != (#[trigger] ms[q2]).args[0] || ms[q1].args[1]
            != ms[q2].args[1]
    } by {
        assert(wq > 0) by (nonlinear_arith)
            requires
                0 < q2 < wq * hq,
                wq >= 0,
                hq >= 0,
        ;
        lemma_fundamental_div_mod(q1, wq);
        lemma_fundamental_div_mod(q2, wq);
        assert(0 <= q1 % wq < wq && 0 <= q2 % wq < wq);
        assert(0 <= q1 / wq && 0 <= q2 / wq) by (nonlinear_arith)
            requires
                wq > 0,
                0 <= q1,
                0 <= q2,
                q1 == wq * (q1 / wq) + q1 % wq,
                q2 == wq * (q2 / wq) + q2 % wq,
                0 <= q1 % wq < wq,
                0 <= q2 % wq < wq,
        ;
        assert(q1 / wq < hq && q2 / wq < hq) by (nonlinear_arith)
            requires
                wq > 0,
                q1 < wq * hq,
                q2 < wq * hq,
                q1 == wq * (q1 / wq) + q1 % wq,
                q2 == wq * (q2 / wq) + q2 % wq,
                0 <= q1 % wq < wq,
                0 <= q2 % wq < wq,
                0 <= q1 / wq,
                0 <= q2 / wq,
        ;
        if q1 / wq == q2 / wq && q1 % wq == q2 % wq {
            assert(q1 == q2);
        }
        assert(ms[q1].args[0] == ArgV::Int((8 * (q1 % wq)) as i32));
        assert(ms[q1].args[1] == ArgV::Int((8 * (q1 / wq)) as i32));
        assert(ms[q2].args[0] == ArgV::Int((8 * (q2 % wq)) as i32));
        assert(ms[q2].args[1] == ArgV::Int((8 * (q2 / wq)) as i32));
    }
}

/// For every intensity, the single-led set command carries the `"level/"`
/// fragment in its address and the intensity argument unchanged in third
/// position.
pub proof fn lemma_set_intensity_carries_value(prefix: Seq<char>, x: i32, y: i32, intensity: i32)
    ensures
        grid_op_addr(prefix, <i32 as IntoAddrAndArgs<OscArg>>::frag_spec(&intensity), "set"@)
            == prefix + "/grid/led/"@ + "level/"@ + "set"@,
        seq![
            ArgV::Int(x),
            ArgV::Int(y),
            <i32 as IntoAddrAndArgs<OscArg>>::args_spec(&intensity),
        ][2] == ArgV::Int(intensity),
{
}

/// Why a session could not be assembled from a handshake descriptor.
#[derive(Clone, Copy, PartialEq, Eq, Structural, Debug)]
pub enum SetupError {
    /// Not all six descriptor fields have been observed.
    Incomplete,
    /// The device announced a size outside the supported range.
    SizeOutOfRange,
}

/// The client object for one device session.
pub struct Monome {
    name: String,
    device_type: MonomeDeviceType,
    port: i32,
    host: String,
    id: String,
    prefix: String,
    rotation: i32,
    size: (i32, i32),
    out_queue: FrameQueue,
    in_queue: FrameQueue,
    dropped_frames: u64,
}

impl View for Monome {
    type V = SessionV;

    closed spec fn view(&self) -> SessionV {
        SessionV {
            name: self.name@,
            device_type: self.device_type,
            port: self.port,
            host: self.host@,
            id: self.id@,
            prefix: self.prefix@,
            rotation: self.rotation,
            size: self.size,
            out_queue: self.out_queue@,
            in_queue: self.in_queue@,
            dropped_frames: self.dropped_frames,
        }
    }
}

impl Monome {
    /// A session's internal invariant: the queues carry the protocol's
    /// fixed capacities and the size is one the engine accepts.
    pub closed spec fn wf(&self) -> bool {
        &&& self.out_queue.capacity() == OUTBOUND_CAPACITY
        &&& self.in_queue.capacity() == INBOUND_CAPACITY
        &&& valid_size(self.size)
    }

    /// Assembles the live session for `device` once the handshake has
    /// observed all six descriptor fields. The session keeps the caller's
    /// `prefix`, the port the device was announced on, and the host, id,
    /// rotation and size the device reported; it starts with both queues
    /// empty and no frame dropped.
    pub fn from_info(device: &MonomeDevice, info: MonomeInfo, prefix: String) -> (r: Result<
        Monome,
        SetupError,
    >)
        ensures
            !info_complete(info@) ==> r == Err::<Monome, SetupError>(SetupError::Incomplete),
            info_complete(info@) && !valid_size(info@.size->Some_0) ==> r == Err::<
                Monome,
                SetupError,
            >(SetupError::SizeOutOfRange),
            info_complete(info@) && valid_size(info@.size->Some_0) ==> r is Ok,
            r matches Ok(m) ==> {
                &&& info_complete(info@)
                &&& valid_size(info@.size->Some_0)
                &&& m.wf()
                &&& m@.name == device@.name
                &&& m@.device_type == device@.device_type
                &&& m@.port == device@.port
                &&& m@.host == info@.host->Some_0
                &&& m@.id == info@.id->Some_0
                &&& m@.prefix == prefix@
                &&& m@.rotation == info@.rotation->Some_0
                &&& m@.size == info@.size->Some_0
                &&& m@.out_queue.len() == 0
                &&& m@.in_queue.len() == 0
                &&& m@.dropped_frames == 0
            },
    {
        if !info.complete() {
            return Err(SetupError::Incomplete);
        }
        let size = match info.size {
            Some(s) => s,
            None => {
                return Err(SetupError::Incomplete);
            },
        };
        if size.0 < 0 || size.0 > 256 || size.1 < 0 || size.1 > 256 {
            return Err(SetupError::SizeOutOfRange);
        }
        let host = match info.host {
            Some(h) => h,
            None => {
                return Err(SetupError::Incomplete);
            },
        };
        let id = match info.id {
            Some(i) => i,
            None => {
                return Err(SetupError::Incomplete);
            },
        };
        let rotation = match info.rotation {
            Some(r) => r,
            None => {
                return Err(SetupError::Incomplete);
            },
        };
        Ok(
            Monome {
                name: device.name(),
                device_type: device.device_type(),
                port: device.port(),
                host,
                id,
                prefix,
                rotation,
                size,
                out_queue: FrameQueue::new(OUTBOUND_CAPACITY),
                in_queue: FrameQueue::new(INBOUND_CAPACITY),
                dropped_frames: 0,
            },
        )
    }

    /// Packs the message and hands the frame to the outbound queue; a full
    /// queue drops the frame and counts it instead.
    fn send_no_prefix(&mut self, addr: String, args: Vec<OscArg>)
        requires
            old(self).wf(),
        ensures
            final(self).wf(),
            final(self)@ == send_effect(
                old(self)@,
                MsgV { addr: addr@, args: args.deep_view() },
            ),
    {
        let ghost m_spec = MsgV { addr: addr@, args: args.deep_view() };
        let message = OscMsg { addr, args };
        assert(message@ =~= m_spec);
        let bytes = encode_message(&message);
        let ok = self.out_queue.push(bytes);
        if !ok {
            if self.dropped_frames < u64::MAX {
                self.dropped_frames = self.dropped_frames + 1;
            }
        }
        assert(self@ =~= send_effect(old(self)@, m_spec));
    }

    /// Prepends the session prefix to the address and sends.
    fn send(&mut self, addr: &str, args: Vec<OscArg>)
        requires
            old(self).wf(),
        ensures
            final(self).wf(),
            final(self)@ == send_effect(
                old(self)@,
                MsgV { addr: old(self)@.prefix + addr@, args: args.deep_view() },
            ),
    {
        let with_prefix = concat_str(self.prefix.as_str(), addr);
        self.send_no_prefix(with_prefix, args);
    }

    /// Set a single led on a grid on or off, or to an intensity.
    ///
    /// The led at `(x, y)` is set from `arg`: a bool switches it on or off,
    /// an intensity in `[0, 16)` is carried unchanged under the `"level/"`
    /// fragment. On anything but a grid this is a no-op.
    pub fn set<A: IntoAddrAndArgs<OscArg>>(&mut self, x: i32, y: i32, arg: A)
        requires
            old(self).wf(),
        ensures
            final(self).wf(),
            old(self)@.device_type != MonomeDeviceType::Grid ==> final(self)@ == old(self)@,
            old(self)@.device_type == MonomeDeviceType::Grid ==> final(self)@ == send_effect(
                old(self)@,
                MsgV {
                    addr: grid_op_addr(old(self)@.prefix, arg.frag_spec(), "set"@),
                    args: seq![ArgV::Int(x), ArgV::Int(y), arg.args_spec()],
                },
            ),
    {
        if self.device_type != MonomeDeviceType::Grid {
            return;
        }
        let (frag, a) = arg.as_addr_frag_and_args();
        let mut addr = concat_str("/grid/led/", frag.as_str());
        addr.append("set");
        let ghost addr_v = addr@;
        let mut args: Vec<OscArg> = Vec::new();
        args.push(OscArg::Int(x));
        args.push(OscArg::Int(y));
        args.push(a);
        let ghost args_v = args.deep_view();
        assert(args_v =~= seq![ArgV::Int(x), ArgV::Int(y), arg.args_spec()]);
        self.send(addr.as_str(), args);
        assert((MsgV { addr: old(self)@.prefix + addr_v, args: args_v }) =~= (MsgV {
            addr: grid_op_addr(old(self)@.prefix, arg.frag_spec(), "set"@),
            args: seq![ArgV::Int(x), ArgV::Int(y), arg.args_spec()],
        }));
    }

    /// Set all leds of the grid at once, on/off or to an intensity.
    ///
    /// On anything but a grid this is a no-op.
    pub fn all<A: IntoAddrAndArgs<OscArg>>(&mut self, arg: A)
        requires
            old(self).wf(),
        ensures
            final(self).wf(),
            old(self)@.device_type != MonomeDeviceType::Grid ==> final(self)@ == old(self)@,
            old(self)@.device_type == MonomeDeviceType::Grid ==> final(self)@ == send_effect(
                old(self)@,
                MsgV {
                    addr: grid_op_addr(old(self)@.prefix, arg.frag_spec(), "all"@),
                    args: seq![arg.args_spec()],
                },
            ),
    {
        if self.device_type != MonomeDeviceType::Grid {
            return;
        }
        let (frag, a) = arg.as_addr_frag_and_args();
        let mut addr = concat_str("/grid/led/", frag.as_str());
        addr.append("all");
        let ghost addr_v = addr@;
        let mut args: Vec<OscArg> = Vec::new();
        args.push(a);
        let ghost args_v = args.deep_view();
        assert(args_v =~= seq![arg.args_spec()]);
        self.send(addr.as_str(), args);
        assert((MsgV { addr: old(self)@.prefix + addr_v, args: args_v }) =~= (MsgV {
            addr: grid_op_addr(old(self)@.prefix, arg.frag_spec(), "all"@),
            args: seq![arg.args_spec()],
        }));
    }

    /// Set one 8×8 quadrant of a grid in a single map command.
    ///
    /// `x_offset` and `y_offset` give the quadrant origin, each a multiple
    /// of 8; `masks` is either eight row mask bytes, sixty-four booleans, or
    /// sixty-four intensities, row-major. On anything but a grid this is a
    /// no-op.
    pub fn map<A: IntoAddrAndArgs<Vec<OscArg>>>(&mut self, x_offset: i32, y_offset: i32, masks: &A)
        requires
            old(self).wf(),
        ensures
            final(self).wf(),
            old(self)@.device_type != MonomeDeviceType::Grid ==> final(self)@ == old(self)@,
            old(self)@.device_type == MonomeDeviceType::Grid ==> final(self)@ == send_effect(
                old(self)@,
                MsgV {
                    addr: grid_op_addr(old(self)@.prefix, masks.frag_spec(), "map"@),
                    args: seq![ArgV::Int(x_offset), ArgV::Int(y_offset)] + masks.args_spec(),
                },
            ),
    {
        if self.device_type != MonomeDeviceType::Grid {
            return;
        }
        let (frag, mut rest) = masks.as_addr_frag_and_args();
        let mut addr = concat_str("/grid/led/", frag.as_str());
        addr.append("map");
        let ghost addr_v = addr@;
        let mut args: Vec<OscArg> = Vec::new();
        args.push(OscArg::Int(x_offset));
        args.push(OscArg::Int(y_offset));
        args.append(&mut rest);
        let ghost args_v = args.deep_view();
        assert(args_v =~= seq![ArgV::Int(x_offset), ArgV::Int(y_offset)] + masks.args_spec());
        self.send(addr.as_str(), args);
        assert((MsgV { addr: old(self)@.prefix + addr_v, args: args_v }) =~= (MsgV {
            addr: grid_op_addr(old(self)@.prefix, masks.frag_spec(), "map"@),
            args: seq![ArgV::Int(x_offset), ArgV::Int(y_offset)] + masks.args_spec(),
        }));
    }

    /// Set a full row of a grid from `x_offset` (a multiple of 8), using
    /// row mask bytes, booleans or intensities. On anything but a grid this
    /// is a no-op.
    pub fn row<A: IntoAddrAndArgs<Vec<OscArg>>>(&mut self, x_offset: i32, y: i32, leds: &A)
        requires
            old(self).wf(),
        ensures
            final(self).wf(),
            old(self)@.device_type != MonomeDeviceType::Grid ==> final(self)@ == old(self)@,
            old(self)@.device_type == MonomeDeviceType::Grid ==> final(self)@ == send_effect(
                old(self)@,
                MsgV {
                    addr: grid_op_addr(old(self)@.prefix, leds.frag_spec(), "row"@),
                    args: seq![ArgV::Int(x_offset), ArgV::Int(y)] + leds.args_spec(),
                },
            ),
    {
        if self.device_type != MonomeDeviceType::Grid {
            return;
        }
        let (frag, mut rest) = leds.as_addr_frag_and_args();
        let mut addr = concat_str("/grid/led/", frag.as_str());
        addr.append("row");
        let ghost addr_v = addr@;
        let mut args: Vec<OscArg> = Vec::new();
        args.push(OscArg::Int(x_offset));
        args.push(OscArg::Int(y));
        args.append(&mut rest);
        let ghost args_v = args.deep_view();
        assert(args_v =~= seq![ArgV::Int(x_offset), ArgV::Int(y)] + leds.args_spec());
        self.send(addr.as_str(), args);
        assert((MsgV { addr: old(self)@.prefix + addr_v, args: args_v }) =~= (MsgV {
            addr: grid_op_addr(old(self)@.prefix, leds.frag_spec(), "row"@),
            args: seq![ArgV::Int(x_offset), ArgV::Int(y)] + leds.args_spec(),
        }));
    }

    /// Set a full column of a grid from `y_offset` (a multiple of 8), using
    /// row mask bytes, booleans or intensities. On anything but a grid this
    /// is a no-op.
    pub fn col<A: IntoAddrAndArgs<Vec<OscArg>>>(&mut self, x: i32, y_offset: i32, leds: &A)
        requires
            old(self).wf(),
        ensures
            final(self).wf(),
            old(self)@.device_type != MonomeDeviceType::Grid ==> final(self)@ == old(self)@,
            old(self)@.device_type == MonomeDeviceType::Grid ==> final(self)@ == send_effect(
                old(self)@,
                MsgV {
                    addr: grid_op_addr(old(self)@.prefix, leds.frag_spec(), "col"@),
                    args: seq![ArgV::Int(x), ArgV::Int(y_offset)] + leds.args_spec(),
                },
            ),
    {
        if self.device_type != MonomeDeviceType::Grid {
            return;
        }
        let (frag, mut rest) = leds.as_addr_frag_and_args();
        let mut addr = concat_str("/grid/led/", frag.as_str());
        addr.append("col");
        let ghost addr_v = addr@;
        let mut args: Vec<OscArg> = Vec::new();
        args.push(OscArg::Int(x));
        args.push(OscArg::Int(y_offset));
        args.append(&mut rest);
        let ghost args_v = args.deep_view();
        assert(args_v =~= seq![ArgV::Int(x), ArgV::Int(y_offset)] + leds.args_spec());
        self.send(addr.as_str(), args);
        assert((MsgV { addr: old(self)@.prefix + addr_v, args: args_v }) =~= (MsgV {
            addr: grid_op_addr(old(self)@.prefix, leds.frag_spec(), "col"@),
            args: seq![ArgV::Int(x), ArgV::Int(y_offset)] + leds.args_spec(),
        }));
    }

    /// Set all leds of a grid in one call: one boolean per led, row-major
    /// over the whole grid, which must be a multiple of 8 on each side. The
    /// grid is cut into 8×8 quadrants in row-major quadrant order and one
    /// packed map command is issued per quadrant. On anything but a grid
    /// this is a no-op.
    pub fn set_all(&mut self, leds: &[bool])
        requires
            old(self).wf(),
            old(self)@.device_type == MonomeDeviceType::Grid ==> leds@.len() >= old(self)@.size.0
                * old(self)@.size.1,
        ensures
            final(self).wf(),
            old(self)@.device_type != MonomeDeviceType::Grid ==> final(self)@ == old(self)@,
            old(self)@.device_type == MonomeDeviceType::Grid ==> final(self)@ == send_all_effect(
                old(self)@,
                set_all_msgs(
                    old(self)@.prefix,
                    leds@,
                    old(self)@.size.0 as int,
                    old(self)@.size.0 as int / 8,
                    old(self)@.size.1 as int / 8,
                ),
            ),
    {
        if self.device_type != MonomeDeviceType::Grid {
            return;
        }
        let w = self.size.0 as usize;
        let h = self.size.1 as usize;
        let wq = w / 8;
        let hq = h / 8;
        let llen: usize = leds.len();
        let ghost msgs = set_all_msgs(
            old(self)@.prefix,
            leds@,
            old(self)@.size.0 as int,
            old(self)@.size.0 as int / 8,
            old(self)@.size.1 as int / 8,
        );
        proof {
            assert(msgs.len() == wq * hq) by (nonlinear_arith)
                requires
                    msgs.len() == ((wq as int) * (hq as int)) as nat,
                    wq >= 0,
                    hq >= 0,
            ;
        }
        let mut a: usize = 0;
        while a < hq
            invariant
                self.wf(),
                old(self)@.device_type == MonomeDeviceType::Grid,
                leds@.len() >= w * h,
                llen == leds@.len(),
                w == old(self)@.size.0,
                h == old(self)@.size.1,
                w <= 256,
                h <= 256,
                wq == w / 8,
                hq == h / 8,
                a <= hq,
                msgs == set_all_msgs(old(self)@.prefix, leds@, w as int, wq as int, hq as int),
                msgs.len() == wq * hq,
                self@.prefix == old(self)@.prefix,
                self@ == send_all_effect(old(self)@, msgs.take((a * wq) as int)),
            decreases hq - a,
        {
            let mut b: usize = 0;
            proof {
                assert(a * wq + wq <= hq * wq) by (nonlinear_arith)
                    requires
                        a < hq,
                        wq >= 0,
                ;
                assert(hq * wq == wq * hq) by (nonlinear_arith);
            }
            while b < wq
                invariant
                    self.wf(),
                    old(self)@.device_type == MonomeDeviceType::Grid,
                    leds@.len() >= w * h,
                    llen == leds@.len(),
                    w == old(self)@.size.0,
                    h == old(self)@.size.1,
                    w <= 256,
                    h <= 256,
                    wq == w / 8,
                    hq == h / 8,
                    a < hq,
                    b <= wq,
                    a * wq + wq <= wq * hq,
                    msgs == set_all_msgs(old(self)@.prefix, leds@, w as int, wq as int, hq as int),
                    msgs.len() == wq * hq,
                    self@.prefix == old(self)@.prefix,
                    self@ == send_all_effect(old(self)@, msgs.take((a * wq + b) as int)),
                decreases wq - b,
            {
                let ghost q = (a * wq + b) as int;
                let mut args: Vec<OscArg> = Vec::new();
                args.push(OscArg::Int((b * 8) as i32));
                args.push(OscArg::Int((a * 8) as i32));
                let mut i: usize = 0;
                while i < 8
                    invariant
                        leds@.len() >= w * h,
                        llen == leds@.len(),
                        w <= 256,
                        h <= 256,
                        wq == w / 8,
                        hq == h / 8,
                        a < hq,
                        b < wq,
                        i <= 8,
                        args@.len() == 2 + i,
                        args@[0] == OscArg::Int((b * 8) as i32),
                        args@[1] == OscArg::Int((a * 8) as i32),
                        forall|r: int|
                            0 <= r < i ==> args@[2 + r] == OscArg::Int(
                                #[trigger] row_mask(leds@, (8 * a + r) * w + 8 * b) as i32,
                            ),
                    decreases 8 - i,
                {
                    proof {
                        assert(8 * a + i < h && 8 * b + 8 <= w) by (nonlinear_arith)
                            requires
                                a < h / 8,
                                b < w / 8,
                                i < 8,
                                w >= 0,
                                h >= 0,
                        ;
                        assert((8 * a + i) * w + 8 * b + 8 <= w * h) by (nonlinear_arith)
                            requires
                                8 * a + i < h,
                                8 * b + 8 <= w,
                                w >= 0,
                        ;
                        assert(w * h <= 65536) by (nonlinear_arith)
                            requires
                                0 <= w <= 256,
                                0 <= h <= 256,
                        ;
                    }
                    let base = (a * 8 + i) * w + b * 8;
                    let mut mask: u8 = 0;
                    let mut j: usize = 0;
                    while j < 8
                        invariant
                            j <= 8,
                            llen == leds@.len(),
                            base + 8 <= llen,
                            mask == mask_rec(leds@, base as int, j as nat),
                        decreases 8 - j,
                    {
                        let lit = leds[base + j];
                        mask = mask | (if lit {
                            1u8 << (j as u8)
                        } else {
                            0u8
                        });
                        assert(mask == mask_rec(leds@, base as int, (j + 1) as nat));
                        j += 1;
                    }
                    args.push(OscArg::Int(mask as i32));
                    i += 1;
                }
                let frag = String::from_str("");
                let mut addr = concat_str("/grid/led/", frag.as_str());
                addr.append("map");
                let ghost addr_v = addr@;
                let ghost args_v = args.deep_view();
                let ghost mid = self@;
                self.send(addr.as_str(), args);
                proof {
                    vstd::arithmetic::div_mod::lemma_fundamental_div_mod_converse(
                        q,
                        wq as int,
                        a as int,
                        b as int,
                    );
                    assert(msgs[q] == bool_quad_msg(
                        old(self)@.prefix,
                        leds@,
                        w as int,
                        a as int,
                        b as int,
                    ));
                    assert(args_v =~= msgs[q].args);
                    assert((MsgV { addr: mid.prefix + addr_v, args: args_v }) =~= msgs[q]);
                    assert(msgs.take(q + 1) =~= msgs.take(q).push(msgs[q]));
                    lemma_send_all_snoc(old(self)@, msgs.take(q), msgs[q]);
                }
                b += 1;
            }
            proof {
                assert((a + 1) * wq == a * wq + wq) by (nonlinear_arith);
            }
            a += 1;
        }
        proof {
            assert(hq * wq == wq * hq) by (nonlinear_arith);
            assert(msgs.take((hq * wq) as int) =~= msgs);
        }
    }

    /// Set all leds of a grid to intensities in one call: one value in
    /// `[0, 16)` per led, row-major over the whole grid, which must be a
    /// multiple of 8 on each side. The grid is cut into 8×8 quadrants in
    /// row-major quadrant order and one level-map command is issued per
    /// quadrant. On anything but a grid this is a no-op.
    pub fn set_all_intensity(&mut self, leds: &[u8])
        requires
            old(self).wf(),
            old(self)@.device_type == MonomeDeviceType::Grid ==> leds@.len() >= old(self)@.size.0
                * old(self)@.size.1,
        ensures
            final(self).wf(),
            old(self)@.device_type != MonomeDeviceType::Grid ==> final(self)@ == old(self)@,
            old(self)@.device_type == MonomeDeviceType::Grid ==> final(self)@ == send_all_effect(
                old(self)@,
                set_all_intensity_msgs(
                    old(self)@.prefix,
                    leds@,
                    old(self)@.size.0 as int,
                    old(self)@.size.0 as int / 8,
                    old(self)@.size.1 as int / 8,
                ),
            ),
    {
        if self.device_type != MonomeDeviceType::Grid {
            return;
        }
        let w = self.size.0 as usize;
        let h = self.size.1 as usize;
        let wq = w / 8;
        let hq = h / 8;
        let llen: usize = leds.len();
        let ghost msgs = set_all_intensity_msgs(
            old(self)@.prefix,
            leds@,
            old(self)@.size.0 as int,
            old(self)@.size.0 as int / 8,
            old(self)@.size.1 as int / 8,
        );
        proof {
            assert(msgs.len() == wq * hq) by (nonlinear_arith)
                requires
                    msgs.len() == ((wq as int) * (hq as int)) as nat,
                    wq >= 0,
                    hq >= 0,
            ;
        }
        let mut a: usize = 0;
        while a < hq
            invariant
                self.wf(),
                old(self)@.device_type == MonomeDeviceType::Grid,
                leds@.len() >= w * h,
                llen == leds@.len(),
                w == old(self)@.size.0,
                h == old(self)@.size.1,
                w <= 256,
                h <= 256,
                wq == w / 8,
                hq == h / 8,
                a <= hq,
                msgs == set_all_intensity_msgs(
                    old(self)@.prefix,
                    leds@,
                    w as int,
                    wq as int,
                    hq as int,
                ),
                msgs.len() == wq * hq,
                self@.prefix == old(self)@.prefix,
                self@ == send_all_effect(old(self)@, msgs.take((a * wq) as int)),
            decreases hq - a,
        {
            let mut b: usize = 0;
            proof {
                assert(a * wq + wq <= hq * wq) by (nonlinear_arith)
                    requires
                        a < hq,
                        wq >= 0,
                ;
                assert(hq * wq == wq * hq) by (nonlinear_arith);
            }
            while b < wq
                invariant
                    self.wf(),
                    old(self)@.device_type == MonomeDeviceType::Grid,
                    leds@.len() >= w * h,
                    llen == leds@.len(),
                    w == old(self)@.size.0,
                    h == old(self)@.size.1,
                    w <= 256,
                    h <= 256,
                    wq == w / 8,
                    hq == h / 8,
                    a < hq,
                    b <= wq,
                    a * wq + wq <= wq * hq,
                    msgs == set_all_intensity_msgs(
                        old(self)@.prefix,
                        leds@,
                        w as int,
                        wq as int,
                        hq as int,
                    ),
                    msgs.len() == wq * hq,
                    self@.prefix == old(self)@.prefix,
                    self@ == send_all_effect(old(self)@, msgs.take((a * wq + b) as int)),
                decreases wq - b,
            {
                let ghost q = (a * wq + b) as int;
                let mut args: Vec<OscArg> = Vec::new();
                args.push(OscArg::Int((b * 8) as i32));
                args.push(OscArg::Int((a * 8) as i32));
                let mut n: usize = 0;
                while n < 64
                    invariant
                        leds@.len() >= w * h,
                        llen == leds@.len(),
                        w <= 256,
                        h <= 256,
                        wq == w / 8,
                        hq == h / 8,
                        a < hq,
                        b < wq,
                        n <= 64,
                        args@.len() == 2 + n,
                        args@[0] == OscArg::Int((b * 8) as i32),
                        args@[1] == OscArg::Int((a * 8) as i32),
                        forall|r: int|
                            0 <= r < n ==> args@[2 + r] == OscArg::Int(
                                #[trigger] leds@[(8 * a + r / 8) * w + 8 * b + r % 8] as i32,
                            ),
                    decreases 64 - n,
                {
                    let i = n / 8;
                    let j = n % 8;
                    proof {
                        assert(8 * a + i < h && 8 * b + j < w) by (nonlinear_arith)
                            requires
                                a < h / 8,
                                b < w / 8,
                                i == n / 8,
                                j == n % 8,
                                n < 64,
                                w >= 0,
                                h >= 0,
                        ;
                        assert((8 * a + i) * w + 8 * b + j < w * h) by (nonlinear_arith)
                            requires
                                8 * a + i < h,
                                8 * b + j < w,
                                0 <= j,
                                w >= 0,
                        ;
                        assert(w * h <= 65536) by (nonlinear_arith)
                            requires
                                0 <= w <= 256,
                                0 <= h <= 256,
                        ;
                    }
                    let idx = (a * 8 + i) * w + b * 8 + j;
                    args.push(OscArg::Int(leds[idx] as i32));
                    n += 1;
                }
                let frag = String::from_str("level/");
                let mut addr = concat_str("/grid/led/", frag.as_str());
                addr.append("map");
                let ghost addr_v = addr@;
                let ghost args_v = args.deep_view();
                let ghost mid = self@;
                self.send(addr.as_str(), args);
                proof {
                    vstd::arithmetic::div_mod::lemma_fundamental_div_mod_converse(
                        q,
                        wq as int,
                        a as int,
                        b as int,
                    );
                    assert(msgs[q] == intensity_quad_msg(
                        old(self)@.prefix,
                        leds@,
                        w as int,
                        a as int,
                        b as int,
                    ));
                    assert(args_v =~= msgs[q].args);
                    assert((MsgV { addr: mid.prefix + addr_v, args: args_v }) =~= msgs[q]);
                    assert(msgs.take(q + 1) =~= msgs.take(q).push(msgs[q]));
                    lemma_send_all_snoc(old(self)@, msgs.take(q), msgs[q]);
                }
                b += 1;
            }
            proof {
                assert((a + 1) * wq == a * wq + wq) by (nonlinear_arith);
            }
            a += 1;
        }
        proof {
            assert(hq * wq == wq * hq) by (nonlinear_arith);
            assert(msgs.take((hq * wq) as int) =~= msgs);
        }
    }

    /// Set a single led on an arc encoder to an intensity; the led index is
    /// taken modulo 64 by the device. On anything but an arc this is a
    /// no-op.
    pub fn ring_set(&mut self, n: usize, index: u32, intensity: u32)
        requires
            old(self).wf(),
            n <= 0x7fff_ffff,
            index <= 0x7fff_ffff,
            intensity <= 0x7fff_ffff,
        ensures
            final(self).wf(),
            old(self)@.device_type != MonomeDeviceType::Arc ==> final(self)@ == old(self)@,
            old(self)@.device_type == MonomeDeviceType::Arc ==> final(self)@ == send_effect(
                old(self)@,
                MsgV {
                    addr: old(self)@.prefix + "/ring/set"@,
                    args: seq![
                        ArgV::Int(n as i32),
                        ArgV::Int(index as i32),
                        ArgV::Int(intensity as i32),
                    ],
                },
            ),
    {
        if self.device_type != MonomeDeviceType::Arc {
            return;
        }
        let mut args: Vec<OscArg> = Vec::new();
        args.push(OscArg::Int(n as i32));
        args.push(OscArg::Int(index as i32));
        args.push(OscArg::Int(intensity as i32));
        assert(args.deep_view() =~= seq![
            ArgV::Int(n as i32),
            ArgV::Int(index as i32),
            ArgV::Int(intensity as i32),
        ]);
        self.send("/ring/set", args);
    }

    /// Set every led on one arc encoder to an intensity. On anything but an
    /// arc this is a no-op.
    pub fn ring_all(&mut self, n: usize, intensity: u32)
        requires
            old(self).wf(),
            n <= 0x7fff_ffff,
            intensity <= 0x7fff_ffff,
        ensures
            final(self).wf(),
            old(self)@.device_type != MonomeDeviceType::Arc ==> final(self)@ == old(self)@,
            old(self)@.device_type == MonomeDeviceType::Arc ==> final(self)@ == send_effect(
                old(self)@,
                MsgV {
                    addr: old(self)@.prefix + "/ring/all"@,
                    args: seq![ArgV::Int(n as i32), ArgV::Int(intensity as i32)],
                },
            ),
    {
        if self.device_type != MonomeDeviceType::Arc {
            return;
        }
        let mut args: Vec<OscArg> = Vec::new();
        args.push(OscArg::Int(n as i32));
        args.push(OscArg::Int(intensity as i32));
        assert(args.deep_view() =~= seq![ArgV::Int(n as i32), ArgV::Int(intensity as i32)]);
        self.send("/ring/all", args);
    }

    /// Set a range of leds on one arc encoder to an intensity; offsets are
    /// taken modulo 64 by the device, the end inclusive. On anything but an
    /// arc this is a no-op.
    pub fn ring_range(&mut self, n: usize, start_offset: usize, end_offset: usize, intensity: u32)
        requires
            old(self).wf(),
            n <= 0x7fff_ffff,
            start_offset <= 0x7fff_ffff,
            end_offset <= 0x7fff_ffff,
            intensity <= 0x7fff_ffff,
        ensures
            final(self).wf(),
            old(self)@.device_type != MonomeDeviceType::Arc ==> final(self)@ == old(self)@,
            old(self)@.device_type == MonomeDeviceType::Arc ==> final(self)@ == send_effect(
                old(self)@,
                MsgV {
                    addr: old(self)@.prefix + "/ring/range"@,
                    args: seq![
                        ArgV::Int(n as i32),
                        ArgV::Int(start_offset as i32),
                        ArgV::Int(end_offset as i32),
                        ArgV::Int(intensity as i32),
                    ],
                },
            ),
    {
        if self.device_type != MonomeDeviceType::Arc {
            return;
        }
        let mut args: Vec<OscArg> = Vec::new();
        args.push(OscArg::Int(n as i32));
        args.push(OscArg::Int(start_offset as i32));
        args.push(OscArg::Int(end_offset as i32));
        args.push(OscArg::Int(intensity as i32));
        assert(args.deep_view() =~= seq![
            ArgV::Int(n as i32),
            ArgV::Int(start_offset as i32),
            ArgV::Int(end_offset as i32),
            ArgV::Int(intensity as i32),
        ]);
        self.send("/ring/range", args);
    }

    /// Set all 64 leds of one arc encoder to the given intensities. On
    /// anything but an arc this is a no-op.
    pub fn ring_map(&mut self, n: usize, values: &[u8; 64])
        requires
            old(self).wf(),
            n <= 0x7fff_ffff,
        ensures
            final(self).wf(),
            old(self)@.device_type != MonomeDeviceType::Arc ==> final(self)@ == old(self)@,
            old(self)@.device_type == MonomeDeviceType::Arc ==> final(self)@ == send_effect(
                old(self)@,
                MsgV {
                    addr: old(self)@.prefix + "/ring/map"@,
                    args: seq![ArgV::Int(n as i32)] + Seq::new(
                        64,
                        |i: int| ArgV::Int(values@[i] as i32),
                    ),
                },
            ),
    {
        if self.device_type != MonomeDeviceType::Arc {
            return;
        }
        let mut args: Vec<OscArg> = Vec::new();
        args.push(OscArg::Int(n as i32));
        let mut i: usize = 0;
        while i < 64
            invariant
                i <= 64,
                args@.len() == i + 1,
                args@[0] == OscArg::Int(n as i32),
                forall|j: int| 1 <= j <= i ==> args@[j] == OscArg::Int(#[trigger] values@[j - 1] as i32),
            decreases 64 - i,
        {
            args.push(OscArg::Int(values[i] as i32));
            i += 1;
        }
        assert(args.deep_view() =~= seq![ArgV::Int(n as i32)] + Seq::new(
            64,
            |i: int| ArgV::Int(values@[i] as i32),
        ));
        self.send("/ring/map", args);
    }

    /// Enable or disable all tilt sensors; tilt updates then arrive as
    /// events under the session prefix. The request addresses the device
    /// directly, outside the prefix.
    pub fn tilt_all(&mut self, on: bool)
        requires
            old(self).wf(),
        ensures
            final(self).wf(),
            final(self)@ == send_effect(
                old(self)@,
                MsgV {
                    addr: "/tilt/set"@,
                    args: seq![
                        ArgV::Int(0),
                        ArgV::Int(
                            if on {
                                1
                            } else {
                                0
                            },
                        ),
                    ],
                },
            ),
    {
        let mut args: Vec<OscArg> = Vec::new();
        args.push(OscArg::Int(0));
        args.push(OscArg::Int(
            if on {
                1
            } else {
                0
            },
        ));
        assert(args.deep_view() =~= seq![
            ArgV::Int(0),
            ArgV::Int(
                if on {
                    1
                } else {
                    0
                },
            ),
        ]);
        self.send_no_prefix(String::from_str("/tilt/set"), args);
    }

    /// Set the rotation for this device: 0, 90, 180 or 270. The request
    /// goes to the device's system namespace, unprefixed, and the session
    /// records the new rotation right away.
    pub fn set_rotation(&mut self, rotation: i32)
        requires
            old(self).wf(),
        ensures
            final(self).wf(),
            final(self)@ == (SessionV {
                rotation,
                ..send_effect(
                    old(self)@,
                    MsgV { addr: "/sys/rotation"@, args: seq![ArgV::Int(rotation)] },
                )
            }),
    {
        let mut args: Vec<OscArg> = Vec::new();
        args.push(OscArg::Int(rotation));
        assert(args.deep_view() =~= seq![ArgV::Int(rotation)]);
        self.send_no_prefix(String::from_str("/sys/rotation"), args);
        self.rotation = rotation;
    }

    /// Set the prefix for this device. The request goes to the device's
    /// system namespace, unprefixed, and the session records the new prefix
    /// right away.
    pub fn set_prefix(&mut self, prefix: String)
        requires
            old(self).wf(),
        ensures
            final(self).wf(),
            final(self)@ == (SessionV {
                prefix: prefix@,
                ..send_effect(
                    old(self)@,
                    MsgV { addr: "/sys/prefix"@, args: seq![ArgV::Str(prefix@)] },
                )
            }),
    {
        let mut args: Vec<OscArg> = Vec::new();
        args.push(OscArg::Str(prefix.clone()));
        assert(args.deep_view() =~= seq![ArgV::Str(prefix@)]);
        self.send_no_prefix(String::from_str("/sys/prefix"), args);
        self.prefix = prefix;
    }

    /// Receives the next input event from the device, if one is waiting:
    /// pops at most one frame off the inbound queue and decodes it, never
    /// waiting. Malformed frames and messages outside the prefix are
    /// absorbed as `Ok(None)`; a frame that decodes to a bundle is a
    /// protocol-invariant violation and is surfaced as an error, never as
    /// ordinary silence.
    pub fn poll(&mut self) -> (r: Result<Option<MonomeEvent>, PollError>)
        requires
            old(self).wf(),
        ensures
            final(self).wf(),
            old(self)@.in_queue.len() == 0 ==> r == Ok::<Option<MonomeEvent>, PollError>(None)
                && final(self)@ == old(self)@,
            old(self)@.in_queue.len() > 0 ==> {
                &&& final(self)@ == (SessionV { in_queue: old(self)@.in_queue.drop_first(), ..old(
                    self,
                )@ })
                &&& r == poll_model(
                    crate::osc::osc_decoded(old(self)@.in_queue[0]),
                    old(self)@.prefix,
                )
            },
    {
        let frame = match self.in_queue.pop() {
            Some(f) => f,
            None => {
                return Ok(None);
            },
        };
        assert(self@ =~= (SessionV { in_queue: old(self)@.in_queue.drop_first(), ..old(self)@ }));
        let packet = match decode_frame(frame.as_slice()) {
            Some(p) => p,
            None => {
                return Ok(None);
            },
        };
        match packet {
            Packet::Message(m) => Ok(parse_message(&m, self.prefix.as_str())),
            Packet::Bundle => Err(PollError::Bundle),
        }
    }

    /// Hands the reactor the oldest queued command frame, if any, to send
    /// to the device; never waits.
    pub fn next_outbound(&mut self) -> (r: Option<Vec<u8>>)
        requires
            old(self).wf(),
        ensures
            final(self).wf(),
            old(self)@.out_queue.len() == 0 ==> r is None && final(self)@ == old(self)@,
            old(self)@.out_queue.len() > 0 ==> (r matches Some(f) && f@ == old(
                self,
            )@.out_queue[0] && final(self)@ == (SessionV {
                out_queue: old(self)@.out_queue.drop_first(),
                ..old(self)@
            })),
    {
        let r = self.out_queue.pop();
        assert(final(self)@ =~= if old(self)@.out_queue.len() == 0 {
            old(self)@
        } else {
            SessionV { out_queue: old(self)@.out_queue.drop_first(), ..old(self)@ }
        });
        r
    }

    /// Hands the session one datagram the reactor received. A full inbound
    /// queue drops the frame, which the reactor may log; the frames already
    /// queued stay exactly as they were.
    pub fn push_inbound(&mut self, frame: Vec<u8>) -> (ok: bool)
        requires
            old(self).wf(),
        ensures
            final(self).wf(),
            ok == (old(self)@.in_queue.len() < INBOUND_CAPACITY),
            ok ==> final(self)@ == (SessionV {
                in_queue: old(self)@.in_queue.push(frame@),
                ..old(self)@
            }),
            !ok ==> final(self)@ == old(self)@,
    {
        let ghost pre = self@;
        let ok = self.in_queue.push(frame);
        proof {
            if ok {
                assert(self@ =~= (SessionV { in_queue: pre.in_queue.push(frame@), ..pre }));
            } else {
                assert(self@ =~= pre);
            }
        }
        ok
    }

    /// Get the name of this device.
    pub fn name(&self) -> (r: String)
        ensures
            r@ == self@.name,
    {
        self.name.clone()
    }

    /// Get the kind of this device.
    pub fn device_type(&self) -> (r: MonomeDeviceType)
        ensures
            r == self@.device_type,
    {
        self.device_type
    }

    /// Get the port this device is reached at.
    pub fn port(&self) -> (r: i32)
        ensures
            r == self@.port,
    {
        self.port
    }

    /// Get the host this device is at.
    pub fn host(&self) -> (r: String)
        ensures
            r@ == self@.host,
    {
        self.host.clone()
    }

    /// Get the id of this device.
    pub fn id(&self) -> (r: String)
        ensures
            r@ == self@.id,
    {
        self.id.clone()
    }

    /// Get the current prefix of this device.
    pub fn prefix(&self) -> (r: String)
        ensures
            r@ == self@.prefix,
    {
        self.prefix.clone()
    }

    /// Get the current rotation of this device.
    pub fn rotation(&self) -> (r: i32)
        ensures
            r == self@.rotation,
    {
        self.rotation
    }

    /// Get the size of this device, as `(width, height)`.
    pub fn size(&self) -> (r: (i32, i32))
        ensures
            r == self@.size,
    {
        self.size
    }

    /// Get the width of this device.
    pub fn width(&self) -> (r: usize)
        requires
            self.wf(),
        ensures
            r == self@.size.0,
    {
        self.size.0 as usize
    }

    /// Get the height of this device.
    pub fn height(&self) -> (r: usize)
        requires
            self.wf(),
        ensures
            r == self@.size.1,
    {
        self.size.1 as usize
    }

    /// How many outbound frames backpressure has dropped so far.
    pub fn dropped_frames(&self) -> (r: u64)
        ensures
            r == self@.dropped_frames,
    {
        self.dropped_frames
    }
}

} // verus!

