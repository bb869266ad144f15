//! Shared data types of the engine: device kinds, the descriptor that
//! discovery produces, input events, and device-change notifications.

use vstd::prelude::*;

verus! {

use crate::text::contains_seq;
use crate::text::str_contains;

/// A kind of control surface, as the daemon advertises it.
#[derive(Clone, Copy, PartialEq, Eq, Structural, Debug)]
pub enum MonomeDeviceType {
    /// A grid of lit keys.
    Grid,
    /// An arc of encoders ringed with leds.
    Arc,
    /// A device this engine does not recognise.
    Unknown,
}

/// The kind a device advertises through its type string: a string that
/// names an arc is an arc, anything else is taken for a grid.
pub open spec fn kind_of_description(s: Seq<char>) -> MonomeDeviceType {
    if contains_seq(s, "arc"@) {
        MonomeDeviceType::Arc
    } else {
        MonomeDeviceType::Grid
    }
}

impl From<&str> for MonomeDeviceType {
    fn from(string: &str) -> (r: MonomeDeviceType) {
        if str_contains(string, "arc") {
            MonomeDeviceType::Arc
        } else {
            MonomeDeviceType::Grid
        }
    }
}

impl vstd::std_specs::convert::FromSpecImpl<&str> for MonomeDeviceType {
    open spec fn obeys_from_spec() -> bool {
        true
    }

    open spec fn from_spec(v: &str) -> MonomeDeviceType {
        kind_of_description(v@)
    }
}

/// Whether a key or an encoder press is going up or down.
#[derive(Clone, Copy, PartialEq, Eq, Structural, Debug)]
pub enum KeyDirection {
    /// The key has been released.
    Up,
    /// The key has been pressed.
    Down,
}

/// An event received from a device: a key press or release, a tilt update,
/// an encoder rotation, or an encoder press or release.
#[derive(Clone, Copy, PartialEq, Eq, Structural, Debug)]
pub enum MonomeEvent {
    /// A key press or release on a grid.
    GridKey {
        /// The horizontal offset at which the key has been pressed.
        x: i32,
        /// The vertical offset at which the key has been pressed.
        y: i32,
        /// Whether the key has been pressed (`Down`) or released (`Up`).
        direction: KeyDirection,
    },
    /// An update about the tilt of the device.
    Tilt {
        /// Which sensor sent this tilt update.
        n: i32,
        /// The pitch of the device.
        x: i32,
        /// The roll of the device.
        y: i32,
        /// The yaw of the device.
        z: i32,
    },
    /// A rotation on an encoder.
    EncoderDelta {
        /// Which encoder is sending the event.
        n: usize,
        /// The size and direction of the movement.
        delta: i32,
    },
    /// A key press on an encoder (only on some older devices).
    EncoderKey {
        /// Which encoder is sending the event.
        n: usize,
        /// Whether the encoder has been pressed (`Down`) or released (`Up`).
        direction: KeyDirection,
    },
}

/// A device appearing on or disappearing from the host, with its id.
#[derive(Debug)]
pub enum DeviceChangeEvent {
    /// A device has been recognised by the daemon and can now be used.
    Added(String),
    /// A device has been removed and is no longer available.
    Removed(String),
}

/// The mathematical value of a `DeviceChangeEvent`.
pub enum DeviceChangeV {
    Added(Seq<char>),
    Removed(Seq<char>),
}

impl View for DeviceChangeEvent {
    type V = DeviceChangeV;

    open spec fn view(&self) -> DeviceChangeV {
        match self {
            DeviceChangeEvent::Added(id) => DeviceChangeV::Added(id@),
            DeviceChangeEvent::Removed(id) => DeviceChangeV::Removed(id@),
        }
    }
}

/// What discovery learns about one attached device before any handshake:
/// its name, its kind, and the port the daemon reserved for it.
#[derive(Debug)]
pub struct MonomeDevice {
    name: String,
    device_type: MonomeDeviceType,
    port: i32,
}

/// The mathematical value of a `MonomeDevice`.
pub struct DeviceV {
    pub name: Seq<char>,
    pub device_type: MonomeDeviceType,
    pub port: i32,
}

impl View for MonomeDevice {
    type V = DeviceV;

    closed spec fn view(&self) -> DeviceV {
        DeviceV { name: self.name@, device_type: self.device_type, port: self.port }
    }
}

impl DeepView for MonomeDevice {
    type V = DeviceV;

    open spec fn deep_view(&self) -> DeviceV {
        self.view()
    }
}

impl MonomeDevice {
    /// A descriptor for a device announced under `name`, advertising the
    /// type string `device_type`, reachable at `port`.
    pub(crate) fn new(name: &str, device_type: &str, port: i32) -> (d: MonomeDevice)
        ensures
            d@.name == name@,
            d@.device_type == kind_of_description(device_type@),
            d@.port == port,
    {
        MonomeDevice {
            name: name.to_owned(),
            device_type: MonomeDeviceType::from(device_type),
            port,
        }
    }

    /// Return the device type.
    pub fn device_type(&self) -> (t: MonomeDeviceType)
        ensures
            t == self@.device_type,
    {
        self.device_type
    }

    /// Return the device name.
    pub fn name(&self) -> (n: String)
        ensures
            n@ == self@.name,
    {
        self.name.clone()
    }

    /// Return the port on which this device is.
    pub fn port(&self) -> (p: i32)
        ensures
            p == self@.port,
    {
        self.port
    }
}

} // verus!
