//! The raw message envelope: three header sections plus payload bytes.
//!
//! A [`RawMessage`] is what travels in a UDP datagram.  [`RawMessage::build`]
//! wraps a typed [`Message`] with routing options into an envelope,
//! [`RawMessage::pack`] lays the envelope out as bytes, and
//! [`RawMessage::unpack`] parses bytes received from the network, failing
//! with a recoverable error — never a panic — on anything malformed.

use vstd::prelude::*;

verus! {

use crate::error::Error;
use crate::header::Frame;
use crate::header::FrameAddress;
use crate::header::ProtocolHeader;
use crate::header::frame_valid;
use crate::header::spec_frame_addr_pack;
use crate::header::spec_frame_addr_unpack;
use crate::header::spec_frame_pack;
use crate::header::spec_frame_unpack;
use crate::header::spec_protocol_header_pack;
use crate::header::spec_protocol_header_unpack;
use crate::message::Message;
use crate::message::lemma_payload_len;
use crate::message::spec_decode_payload;
use crate::message::spec_fields_valid;
use crate::message::spec_known;
use crate::message::spec_min_len;
use crate::types::lemma_seq_to_array;
use crate::types::seq_to_array;
use crate::wire::put_slice;
use vstd::slice::slice_subrange;
use vstd::slice::slice_to_vec;

/// The raw message structure: low-level protocol framing around an opaque
/// payload.  This is what is sent and received via UDP packets.  To parse
/// the payload, use [`Message::from_raw`].
#[derive(Debug, Clone, PartialEq)]
pub struct RawMessage {
    pub frame: Frame,
    pub frame_addr: FrameAddress,
    pub protocol_header: ProtocolHeader,
    pub payload: Vec<u8>,
}

/// Options used to construct a [`RawMessage`]; consumed once by
/// [`RawMessage::build`] and not persisted.
#[derive(Debug, Clone)]
pub struct BuildOptions {
    /// If not `None`, the id of the device to address; the id of a device
    /// can be taken from the frame address of a `StateService` answer.
    /// `None` addresses all devices.
    pub target: Option<u64>,
    /// Ask the device to send an `Acknowledgement` message.
    pub ack_required: bool,
    /// Ask the device to send a response message; messages that query
    /// state should set this.
    pub res_required: bool,
    /// A wrap-around sequence number, echoed by the response, letting a
    /// client tell messages sent with the same `source` apart.  Optional
    /// (can be zero).
    pub sequence: u8,
    /// A unique client identifier, echoed by responses.  Optional (can be
    /// zero); zero lets the device answer with broadcasts instead of
    /// unicast.
    pub source: u32,
}

impl Default for BuildOptions {
    /// Options that broadcast to all devices, ask for nothing back, and
    /// carry zero correlation ids.
    fn default() -> (r: BuildOptions)
        ensures
            r.target is None,
            !r.ack_required,
            !r.res_required,
            r.sequence == 0,
            r.source == 0,
    {
        BuildOptions {
            target: None,
            ack_required: false,
            res_required: false,
            sequence: 0,
            source: 0,
        }
    }
}

/// The frame that `build` puts on a message: its size counts the 36 header
/// bytes plus the payload, broadcast framing is used exactly when no
/// target device is named, and the protocol fields take their one
/// permitted shape.
pub open spec fn spec_built_frame(options: BuildOptions, m: Message) -> Frame {
    Frame {
        size: (36 + m.spec_payload().len()) as u16,
        origin: 0,
        tagged: options.target is None,
        addressable: true,
        protocol: 1024,
        source: options.source,
    }
}

/// The frame address that `build` puts on a message: the requested target
/// (zero for all devices), zeroed reserved fields, and the caller's flags
/// and sequence number.
pub open spec fn spec_built_addr(options: BuildOptions) -> FrameAddress {
    FrameAddress {
        target: match options.target {
            Some(t) => t,
            None => 0,
        },
        reserved: seq_to_array(Seq::new(6, |i: int| 0u8)),
        reserved2: 0,
        ack_required: options.ack_required,
        res_required: options.res_required,
        sequence: options.sequence,
    }
}

/// The protocol header that `build` puts on a message: the message kind
/// between zeroed reserved fields.
pub open spec fn spec_built_header(m: Message) -> ProtocolHeader {
    ProtocolHeader { reserved: 0, typ: m.spec_num(), reserved2: 0 }
}

/// The exact bytes that building a message with given options and then
/// packing it puts on the wire.
pub open spec fn spec_built_bytes(options: BuildOptions, m: Message) -> Seq<u8> {
    spec_frame_pack(spec_built_frame(options, m)) + spec_frame_addr_pack(
        spec_built_addr(options),
    ) + spec_protocol_header_pack(spec_built_header(m)) + m.spec_payload()
}

/// Packed image of a raw message: the three header sections followed by
/// the payload.
pub open spec fn spec_raw_pack(r: RawMessage) -> Seq<u8> {
    spec_frame_pack(r.frame) + spec_frame_addr_pack(r.frame_addr) + spec_protocol_header_pack(
        r.protocol_header,
    ) + r.payload@
}

impl RawMessage {
    /// Builds a raw message, suitable for packing and sending on the
    /// network, from a typed message and routing options.
    ///
    /// Every known message kind fits a datagram with room to spare, so
    /// this cannot in fact fail; the `Result` keeps the seam where a
    /// future kind whose payload overflows the 16-bit size field would be
    /// rejected.
    pub fn build(options: &BuildOptions, typ: Message) -> (r: Result<RawMessage, Error>)
        ensures
            r matches Ok(rm) && rm.frame == spec_built_frame(*options, typ)
                && rm.frame_addr == spec_built_addr(*options) && rm.protocol_header
                == spec_built_header(typ) && rm.payload@ == typ.spec_payload(),
    {
        proof {
            lemma_payload_len(typ);
        }
        let (num, payload) = typ.encode();
        let frame = Frame {
            size: (36 + payload.len()) as u16,
            origin: 0,
            tagged: options.target.is_none(),
            addressable: true,
            protocol: 1024,
            source: options.source,
        };
        let target = match options.target {
            Some(t) => t,
            None => 0,
        };
        let reserved = [0u8; 6];
        proof {
            assert(reserved@ =~= Seq::new(6, |i: int| 0u8));
            lemma_seq_to_array(reserved);
        }
        let addr = FrameAddress {
            target,
            reserved,
            reserved2: 0,
            ack_required: options.ack_required,
            res_required: options.res_required,
            sequence: options.sequence,
        };
        let phead = ProtocolHeader { reserved: 0, typ: num, reserved2: 0 };
        Ok(RawMessage { frame, frame_addr: addr, protocol_header: phead, payload })
    }

    /// The total size in bytes of the packed form of this message.
    pub fn packed_size(&self) -> (r: usize)
        requires
            36 + self.payload@.len() <= usize::MAX,
        ensures
            r == 36 + self.payload@.len(),
    {
        Frame::packed_size() + FrameAddress::packed_size() + ProtocolHeader::packed_size()
            + self.payload.len()
    }

    /// Statically checks that this message was constructed correctly: its
    /// frame must carry values a client may send.
    pub fn validate(&self)
        requires
            frame_valid(self.frame),
    {
        self.frame.validate();
        self.frame_addr.validate();
        self.protocol_header.validate();
    }

    /// Packs this raw message into bytes that can be sent over the
    /// network.  The result holds the three header sections followed by
    /// the payload; its length is 36 plus the payload length.
    pub fn pack(&self) -> (r: Result<Vec<u8>, Error>)
        ensures
            r matches Ok(v) && v@ == spec_raw_pack(*self) && v@.len() == 36 + self.payload@.len(),
    {
        proof {
            crate::wire::lemma_scalar_round_trips();
        }
        let mut v = match self.frame.pack() {
            Ok(x) => x,
            Err(e) => {
                return Err(e);
            },
        };
        let mut a = match self.frame_addr.pack() {
            Ok(x) => x,
            Err(e) => {
                return Err(e);
            },
        };
        let mut p = match self.protocol_header.pack() {
            Ok(x) => x,
            Err(e) => {
                return Err(e);
            },
        };
        v.append(&mut a);
        v.append(&mut p);
        put_slice(&mut v, self.payload.as_slice());
        proof {
            assert(v@ =~= spec_raw_pack(*self));
        }
        Ok(v)
    }

    /// Unpacks bytes read from the network into a raw message.
    ///
    /// The 36-byte header is parsed, the protocol number and the
    /// addressable flag are checked, and the payload is taken as the bytes
    /// between the header and the size the frame declares.  Bytes beyond
    /// that size are ignored.  A buffer shorter than the declared size is
    /// a truncated datagram and gives a recoverable error; nothing here
    /// reads out of bounds or panics.
    pub fn unpack(v: &[u8]) -> (r: Result<RawMessage, Error>)
        ensures
            match r {
                Ok(rm) => {
                    &&& v@.len() >= 36
                    &&& spec_frame_unpack(v@) == Some(rm.frame)
                    &&& rm.frame.addressable
                    &&& rm.frame_addr == spec_frame_addr_unpack(v@.skip(8))
                    &&& rm.protocol_header == spec_protocol_header_unpack(v@.skip(24))
                    &&& 36 <= rm.frame.size <= v@.len()
                    &&& rm.payload@ == v@.subrange(36, rm.frame.size as int)
                },
                Err(e) => match e {
                    Error::Io => v@.len() < 8 || (spec_frame_unpack(v@) matches Some(f)
                        && f.addressable && (v@.len() < 36 || (f.size >= 36 && v@.len()
                        < f.size))),
                    Error::ProtocolError(_) => v@.len() >= 8 && (spec_frame_unpack(v@) is None
                        || (spec_frame_unpack(v@) matches Some(f) && (!f.addressable || (
                        v@.len() >= 36 && f.size < 36)))),
                    Error::UnknownMessageType(_) => false,
                },
            },
    {
        let n: usize = v.len();
        let frame = match Frame::unpack(v) {
            Ok(f) => f,
            Err(e) => {
                return Err(e);
            },
        };
        if !frame.addressable {
            return Err(
                Error::ProtocolError("unpacked frame was not marked addressable".to_owned()),
            );
        }
        let addr = match FrameAddress::unpack(slice_subrange(v, 8, n)) {
            Ok(a) => a,
            Err(_) => {
                return Err(Error::Io);
            },
        };
        let proto = match ProtocolHeader::unpack(slice_subrange(v, 24, n)) {
            Ok(p) => p,
            Err(_) => {
                return Err(Error::Io);
            },
        };
        let size = frame.size as usize;
        if size < 36 {
            return Err(
                Error::ProtocolError("frame size smaller than the fixed header".to_owned()),
            );
        }
        if n < size {
            return Err(Error::Io);
        }
        let payload = slice_to_vec(slice_subrange(v, 36, size));
        Ok(RawMessage { frame, frame_addr: addr, protocol_header: proto, payload })
    }
}

impl Message {
    /// Parses the payload of a raw message, based on its message type.
    /// The acknowledgement kind takes its sequence number from the frame
    /// address, since its wire format carries no payload.
    pub fn from_raw(msg: &RawMessage) -> (r: Result<Message, Error>)
        ensures
            match r {
                Ok(m) => spec_known(msg.protocol_header.typ) && msg.payload@.len()
                    >= spec_min_len(msg.protocol_header.typ) && spec_fields_valid(
                    msg.protocol_header.typ,
                    msg.payload@,
                ) && m == spec_decode_payload(
                    msg.protocol_header.typ,
                    msg.payload@,
                    msg.frame_addr.sequence,
                ),
                Err(e) => match e {
                    Error::UnknownMessageType(t) => t == msg.protocol_header.typ && !spec_known(
                        msg.protocol_header.typ,
                    ),
                    Error::Io => spec_known(msg.protocol_header.typ) && msg.payload@.len()
                        < spec_min_len(msg.protocol_header.typ),
                    Error::ProtocolError(_) => spec_known(msg.protocol_header.typ)
                        && msg.payload@.len() >= spec_min_len(msg.protocol_header.typ)
                        && !spec_fields_valid(msg.protocol_header.typ, msg.payload@),
                },
            },
    {
        Message::decode(msg.protocol_header.typ, msg.payload.as_slice(), msg.frame_addr.sequence)
    }
}

} // verus!
