//! Message encoding/decoding errors.

use vstd::prelude::*;

verus! {

/// Why a byte buffer could not be decoded.
///
/// Every decode path returns one of these rather than panicking: inbound
/// bytes come from the network and may be malformed, foreign, or produced by
/// firmware speaking an undocumented dialect.
#[derive(Debug)]
pub enum Error {
    /// The type id of a raw message has no known payload layout.
    ///
    /// LIFX devices are known to send messages that are not officially
    /// documented, so this error does not necessarily represent a bug;
    /// callers should skip the message, not abort.
    UnknownMessageType(u16),
    /// A field decoded to a value the protocol does not permit, such as an
    /// out-of-range enumeration value or a protocol number other than 1024.
    /// The description names the offending field.
    ProtocolError(String),
    /// Fewer bytes remained than the message kind requires (a truncated
    /// datagram, or a payload shorter than its fixed layout).
    Io,
}

} // verus!
