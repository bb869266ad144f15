//! A verified protocol engine for monome grid and arc control surfaces.
//!
//! The engine talks to a local discovery daemon and to one device per
//! session over a datagram protocol. This crate holds the verified core:
//! device discovery with an inactivity window, the per-device handshake
//! state machine, the command encoder with its led bitmask packing, the
//! inbound event decoder, and the bounded queues that connect the caller to
//! a reactor. Binding sockets, running the reactor loop and threading are
//! left to the embedding program, which drives the engine through plain
//! byte frames.

pub mod devices;
pub mod discovery;
pub mod encode;
pub mod events;
pub mod handshake;
pub mod osc;
pub mod queue;
pub mod session;
pub mod text;

pub use devices::DeviceChangeEvent;
pub use devices::KeyDirection;
pub use devices::MonomeDevice;
pub use devices::MonomeDeviceType;
pub use devices::MonomeEvent;
pub use discovery::DiscoveryError;
pub use discovery::DiscoverySession;
pub use discovery::DEVICE_ENUMERATION_TIMEOUT_MS;
pub use encode::IntoAddrAndArgs;
pub use events::PollError;
pub use handshake::HandshakeError;
pub use handshake::MonomeInfo;
pub use osc::OscArg;
pub use osc::OscMsg;
pub use osc::Packet;
pub use queue::FrameQueue;
pub use session::Monome;
pub use session::SetupError;
pub use session::INBOUND_CAPACITY;
pub use session::OUTBOUND_CAPACITY;
pub use session::SERIALOSC_PORT;
