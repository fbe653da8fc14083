//! Low-level message types and structures for the LIFX LAN protocol.
//!
//! The crate converts between raw byte buffers exchanged over UDP and a
//! strongly typed representation of every documented message kind.  It does
//! not talk to the network itself: callers hand it bytes read from a socket
//! and send the bytes it produces.
//!
//! Every encoder and decoder carries a contract that pins the bytes it
//! produces or the value it returns, and the round-trip laws in [`laws`]
//! are proved from those contracts: what is built, packed and sent comes
//! back as the same message, and no inbound byte sequence can make a
//! decoder panic or read out of bounds.

pub mod enums;
pub mod error;
pub mod header;
pub mod laws;
pub mod message;
pub mod products;
pub mod raw;
pub mod types;
pub mod wire;

pub use enums::ApplicationRequest;
pub use enums::LastHevCycleResult;
pub use enums::MultiZoneEffectType;
pub use enums::PowerLevel;
pub use enums::Service;
pub use enums::Waveform;
pub use error::Error;
pub use header::Frame;
pub use header::FrameAddress;
pub use header::ProtocolHeader;
pub use message::Message;
pub use products::get_product_info;
pub use products::ProductInfo;
pub use products::TemperatureRange;
pub use raw::BuildOptions;
pub use raw::RawMessage;
pub use types::describe_kelvin;
pub use types::EchoPayload;
pub use types::LifxIdent;
pub use types::LifxString;
pub use types::HSBK;
