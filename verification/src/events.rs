//! The inbound event decoder: one received message either becomes a typed
//! input event under the session's own prefix, or is absorbed. Daemon and
//! system traffic is informational here, and a recognised suffix whose
//! arguments have the wrong shape never fails the caller.

use vstd::prelude::*;

verus! {

use crate::devices::KeyDirection;
use crate::devices::MonomeEvent;
use crate::osc::MsgV;
use crate::osc::OscArg;
use crate::osc::OscMsg;
use crate::osc::PacketV;
use crate::text::concat_str;
use crate::text::starts_with;
use crate::text::str_starts_with;

/// The key direction an integer argument encodes: 1 is a press, anything
/// else a release.
pub open spec fn direction_of(v: i32) -> KeyDirection {
    if v == 1 {
        KeyDirection::Down
    } else {
        KeyDirection::Up
    }
}

/// The event one message means under `prefix`, if any. Daemon echoes,
/// system messages, unhandled suffixes and badly shaped arguments all mean
/// no event. An encoder index must be non-negative to make sense; a
/// negative one is a shape violation like any other.
pub open spec fn parse_model(m: MsgV, prefix: Seq<char>) -> Option<MonomeEvent> {
    if starts_with(m.addr, "/serialosc"@) {
        None
    } else if starts_with(m.addr, "/sys"@) {
        None
    } else if starts_with(m.addr, prefix) {
        if starts_with(m.addr, prefix + "/grid/key"@) {
            if m.args.len() == 3 && m.args[0] is Int && m.args[1] is Int && m.args[2] is Int {
                Some(
                    MonomeEvent::GridKey {
                        x: m.args[0]->Int_0,
                        y: m.args[1]->Int_0,
                        direction: direction_of(m.args[2]->Int_0),
                    },
                )
            } else {
                None
            }
        } else if starts_with(m.addr, prefix + "/tilt"@) {
            if m.args.len() == 4 && m.args[0] is Int && m.args[1] is Int && m.args[2] is Int
                && m.args[3] is Int {
                Some(
                    MonomeEvent::Tilt {
                        n: m.args[0]->Int_0,
                        x: m.args[1]->Int_0,
                        y: m.args[2]->Int_0,
                        z: m.args[3]->Int_0,
                    },
                )
            } else {
                None
            }
        } else if starts_with(m.addr, prefix + "/enc/delta"@) {
            if m.args.len() == 2 && m.args[0] is Int && m.args[1] is Int && m.args[0]->Int_0 >= 0 {
                Some(
                    MonomeEvent::EncoderDelta {
                        n: m.args[0]->Int_0 as usize,
                        delta: m.args[1]->Int_0,
                    },
                )
            } else {
                None
            }
        } else if starts_with(m.addr, prefix + "/enc/key"@) {
            if m.args.len() == 2 && m.args[0] is Int && m.args[1] is Int && m.args[0]->Int_0 >= 0 {
                Some(
                    MonomeEvent::EncoderKey {
                        n: m.args[0]->Int_0 as usize,
                        direction: direction_of(m.args[1]->Int_0),
                    },
                )
            } else {
                None
            }
        } else {
            None
        }
    } else {
        None
    }
}

/// A protocol-invariant violation seen on the inbound path.
#[derive(Clone, Copy, PartialEq, Eq, Structural, Debug)]
pub enum PollError {
    /// The frame decoded to a bundle, which the protocol forbids after the
    /// handshake.
    Bundle,
}

/// What the caller receives for one inbound frame: the event of a decoded
/// message (or none), nothing for malformed bytes — a logged skip, since
/// they come from the network — and an error for a bundle, which is a
/// protocol-invariant violation here, never absorbed as ordinary noise.
pub open spec fn poll_model(d: Option<PacketV>, prefix: Seq<char>) -> Result<
    Option<MonomeEvent>,
    PollError,
> {
    match d {
        Some(PacketV::Message(m)) => Ok(parse_model(m, prefix)),
        Some(PacketV::Bundle) => Err(PollError::Bundle),
        None => Ok(None),
    }
}

/// Decodes one message into the input event it means under `prefix`,
/// exactly as `parse_model` says.
pub fn parse_message(m: &OscMsg, prefix: &str) -> (r: Option<MonomeEvent>)
    ensures
        r == parse_model(m@, prefix@),
{
    let addr = m.addr.as_str();
    if str_starts_with(addr, "/serialosc") {
        return None;
    }
    if str_starts_with(addr, "/sys") {
        return None;
    }
    if !str_starts_with(addr, prefix) {
        return None;
    }
    let grid_key = concat_str(prefix, "/grid/key");
    if str_starts_with(addr, grid_key.as_str()) {
        if m.args.len() == 3 {
            if let OscArg::Int(x) = m.args[0] {
                if let OscArg::Int(y) = m.args[1] {
                    if let OscArg::Int(v) = m.args[2] {
                        let direction = if v == 1 {
                            KeyDirection::Down
                        } else {
                            KeyDirection::Up
                        };
                        return Some(MonomeEvent::GridKey { x, y, direction });
                    }
                }
            }
        }
        return None;
    }
    let tilt = concat_str(prefix, "/tilt");
    if str_starts_with(addr, tilt.as_str()) {
        if m.args.len() == 4 {
            if let OscArg::Int(n) = m.args[0] {
                if let OscArg::Int(x) = m.args[1] {
                    if let OscArg::Int(y) = m.args[2] {
                        if let OscArg::Int(z) = m.args[3] {
                            return Some(MonomeEvent::Tilt { n, x, y, z });
                        }
                    }
                }
            }
        }
        return None;
    }
    let enc_delta = concat_str(prefix, "/enc/delta");
    if str_starts_with(addr, enc_delta.as_str()) {
        if m.args.len() == 2 {
            if let OscArg::Int(n) = m.args[0] {
                if let OscArg::Int(delta) = m.args[1] {
                    if n >= 0 {
                        return Some(MonomeEvent::EncoderDelta { n: n as usize, delta });
                    }
                }
            }
        }
        return None;
    }
    let enc_key = concat_str(prefix, "/enc/key");
    if str_starts_with(addr, enc_key.as_str()) {
        if m.args.len() == 2 {
            if let OscArg::Int(n) = m.args[0] {
                if let OscArg::Int(v) = m.args[1] {
                    if n >= 0 {
                        let direction = if v == 1 {
                            KeyDirection::Down
                        } else {
                            KeyDirection::Up
                        };
                        return Some(MonomeEvent::EncoderKey { n: n as usize, direction });
                    }
                }
            }
        }
        return None;
    }
    None
}

} // verus!
