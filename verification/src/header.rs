//! The three fixed-size header sections of a LIFX message.
//!
//! Every message starts with 36 bytes of header: an 8-byte [`Frame`], a
//! 16-byte [`FrameAddress`] and a 12-byte [`ProtocolHeader`].  Two of the
//! sections contain bit-packed fields; the spec functions here define the
//! exact packed images, and round-trip lemmas show that unpacking recovers
//! every valid section.

use vstd::prelude::*;

verus! {

use crate::error::Error;
use crate::types::seq_to_array;
use crate::wire::dec_u16;
use crate::wire::dec_u32;
use crate::wire::dec_u64;
use crate::wire::dec_u8;
use crate::wire::enc_u16;
use crate::wire::enc_u32;
use crate::wire::enc_u64;
use crate::wire::enc_u8;
use crate::wire::put_u16;
use crate::wire::put_u32;
use crate::wire::put_u64;
use crate::wire::put_u8;
use crate::wire::read_u16;
use crate::wire::read_u32;
use crate::wire::read_u64;
use crate::wire::read_u8;
use crate::types::put_bytes;
use crate::types::read_bytes;

/// The Frame section: total message size, protocol number, addressing
/// flags and the client's source identifier.
///
/// `tagged` indicates whether the Frame Address target field addresses an
/// individual device or all devices; when it is true, `target` should be
/// all zeros.
#[derive(Debug, Clone, Copy, PartialEq, Eq, Structural)]
pub struct Frame {
    /// 16 bits: size of the entire message in bytes, this field included.
    pub size: u16,
    /// 2 bits: message origin indicator; must be zero when sending.
    pub origin: u8,
    /// 1 bit: determines usage of the Frame Address target field.
    pub tagged: bool,
    /// 1 bit: message includes a target address; must be one.
    pub addressable: bool,
    /// 12 bits: protocol number; must be 1024.
    pub protocol: u16,
    /// 32 bits: source identifier, a unique value set by the client and
    /// echoed by responses.  Zero lets the device answer with broadcasts.
    pub source: u32,
}

/// The Frame Address section: target device, acknowledgement flags and the
/// message sequence number.
#[derive(Debug, Clone, Copy, PartialEq)]
pub struct FrameAddress {
    /// 64 bits: 6-byte device address (MAC address), or zero for all
    /// devices.
    pub target: u64,
    /// 48 bits: must all be zero when sending.
    pub reserved: [u8; 6],
    /// 6 bits: reserved.
    pub reserved2: u8,
    /// 1 bit: an acknowledgement message is required.
    pub ack_required: bool,
    /// 1 bit: a response message is required.
    pub res_required: bool,
    /// 8 bits: wrap-around message sequence number.
    pub sequence: u8,
}

/// The Protocol Header section: the message kind discriminant between two
/// reserved fields.
#[derive(Debug, Clone, Copy, PartialEq, Eq, Structural)]
pub struct ProtocolHeader {
    /// 64 bits: reserved.
    pub reserved: u64,
    /// 16 bits: message kind; determines the payload layout.
    pub typ: u16,
    /// 16 bits: reserved.
    pub reserved2: u16,
}

/// A frame a client may send: zero origin bits beyond two, the mandatory
/// addressable flag, and the one supported protocol number.
pub open spec fn frame_valid(f: Frame) -> bool {
    &&& f.origin < 4
    &&& f.addressable
    &&& f.protocol == 1024
}

/// The 16-bit word holding origin, tagged, addressable and protocol.
pub open spec fn spec_flags_word(f: Frame) -> u16 {
    (((f.origin & 3) as u16) << 14 | (if f.tagged {
        1u16
    } else {
        0u16
    }) << 13 | (if f.addressable {
        1u16
    } else {
        0u16
    }) << 12 | (f.protocol & 0xfff))
}

/// Packed image of a frame: 8 bytes.
pub open spec fn spec_frame_pack(f: Frame) -> Seq<u8> {
    enc_u16(f.size) + enc_u16(spec_flags_word(f)) + enc_u32(f.source)
}

/// The frame stored in the first 8 bytes of `s`, or `None` when its
/// protocol number is not 1024.
pub open spec fn spec_frame_unpack(s: Seq<u8>) -> Option<Frame> {
    let w = dec_u16(s, 2);
    if w & 0x0fff == 1024 {
        Some(
            Frame {
                size: dec_u16(s, 0),
                origin: ((w & 0xc000) >> 14) as u8,
                tagged: w & 0x2000 != 0,
                addressable: w & 0x1000 != 0,
                protocol: w & 0x0fff,
                source: dec_u32(s, 4),
            },
        )
    } else {
        None
    }
}

impl Frame {
    /// Packed size of this section, in bytes.
    pub fn packed_size() -> (r: usize)
        ensures
            r == 8,
    {
        8
    }

    /// Statically checks that this frame may be sent; violating these
    /// bounds on a frame one is building is a programming error, so they
    /// are demanded up front rather than tested at run time.
    pub fn validate(&self)
        requires
            frame_valid(*self),
    {
    }

    /// Packs this frame into its 8-byte image.
    pub fn pack(&self) -> (r: Result<Vec<u8>, Error>)
        ensures
            r matches Ok(v) && v@ == spec_frame_pack(*self),
    {
        let mut v: Vec<u8> = Vec::new();
        put_u16(&mut v, self.size);
        let d: u16 = ((self.origin & 3) as u16) << 14 | (if self.tagged {
            1u16
        } else {
            0u16
        }) << 13 | (if self.addressable {
            1u16
        } else {
            0u16
        }) << 12 | (self.protocol & 0xfff);
        put_u16(&mut v, d);
        put_u32(&mut v, self.source);
        proof {
            assert(v@ =~= spec_frame_pack(*self));
        }
        Ok(v)
    }

    /// Unpacks a frame from the first 8 bytes of `v`.  Fails with a
    /// recoverable error on short input or a foreign protocol number; no
    /// inbound bytes can make it panic.
    pub fn unpack(v: &[u8]) -> (r: Result<Frame, Error>)
        ensures
            match r {
                Ok(f) => v@.len() >= 8 && spec_frame_unpack(v@) == Some(f),
                Err(e) => match e {
                    Error::Io => v@.len() < 8,
                    Error::ProtocolError(_) => v@.len() >= 8 && spec_frame_unpack(v@) is None,
                    Error::UnknownMessageType(_) => false,
                },
            },
    {
        if v.len() < 8 {
            return Err(Error::Io);
        }
        let size = read_u16(v, 0);
        let w = read_u16(v, 2);
        let protocol = w & 0x0fff;
        if protocol != 1024 {
            return Err(
                Error::ProtocolError("unpacked frame had an unsupported protocol version".to_owned()),
            );
        }
        let origin: u8 = ((w & 0xc000) >> 14) as u8;
        let tagged = w & 0x2000 != 0;
        let addressable = w & 0x1000 != 0;
        let source = read_u32(v, 4);
        Ok(Frame { size, origin, tagged, addressable, protocol, source })
    }
}

/// Packing and then unpacking a valid frame gives the frame back.
pub proof fn lemma_frame_round_trip(f: Frame)
    requires
        frame_valid(f),
    ensures
        spec_frame_unpack(spec_frame_pack(f)) == Some(f),
{
    crate::wire::lemma_scalar_round_trips();
    let p = spec_frame_pack(f);
    assert(p.subrange(0, 2) =~= enc_u16(f.size));
    assert(p.subrange(2, 4) =~= enc_u16(spec_flags_word(f)));
    assert(p.subrange(4, 8) =~= enc_u32(f.source));
    let o = f.origin;
    let pr = f.protocol;
    let t = f.tagged;
    let a = f.addressable;
    let tb: u16 = if t { 1 } else { 0 };
    let ab: u16 = if a { 1 } else { 0 };
    let w = spec_flags_word(f);
    assert(w == ((o & 3) as u16) << 14 | tb << 13 | ab << 12 | (pr & 0xfff));
    assert(w & 0x0fff == pr && (w & 0xc000) >> 14 == o as u16 && (w & 0x2000 != 0) == (tb == 1)
        && (w & 0x1000 != 0) == (ab == 1)) by (bit_vector)
        requires
            w == ((o & 3) as u16) << 14 | tb << 13 | ab << 12 | (pr & 0xfff),
            o < 4,
            pr == 1024,
            tb == 0 || tb == 1,
            ab == 1,
    ;
    assert(((w & 0xc000) >> 14) as u8 == o);
}

/// The byte holding the reserved bits and the two acknowledgement flags.
pub open spec fn spec_addr_flags_byte(a: FrameAddress) -> u8 {
    (a.reserved2 << 2) | (if a.ack_required {
        2u8
    } else {
        0u8
    }) | (if a.res_required {
        1u8
    } else {
        0u8
    })
}

/// Packed image of a frame address: 16 bytes.
pub open spec fn spec_frame_addr_pack(a: FrameAddress) -> Seq<u8> {
    enc_u64(a.target) + a.reserved@ + enc_u8(spec_addr_flags_byte(a)) + enc_u8(a.sequence)
}

/// The frame address stored in the first 16 bytes of `s`.
pub open spec fn spec_frame_addr_unpack(s: Seq<u8>) -> FrameAddress {
    let b = dec_u8(s, 14);
    FrameAddress {
        target: dec_u64(s, 0),
        reserved: seq_to_array(s.subrange(8, 14)),
        reserved2: (b & 0xfc) >> 2,
        ack_required: b & 2 != 0,
        res_required: b & 1 != 0,
        sequence: dec_u8(s, 15),
    }
}

impl FrameAddress {
    /// Packed size of this section, in bytes.
    pub fn packed_size() -> (r: usize)
        ensures
            r == 16,
    {
        16
    }

    /// Statically checks that this frame address may be sent.  The section
    /// has no bounds of its own beyond its field widths, so nothing is
    /// demanded.
    pub fn validate(&self) {
    }

    /// Packs this frame address into its 16-byte image.
    pub fn pack(&self) -> (r: Result<Vec<u8>, Error>)
        ensures
            r matches Ok(v) && v@ == spec_frame_addr_pack(*self),
    {
        let mut v: Vec<u8> = Vec::new();
        put_u64(&mut v, self.target);
        put_bytes(&mut v, &self.reserved);
        let b: u8 = (self.reserved2 << 2) | (if self.ack_required {
            2u8
        } else {
            0u8
        }) | (if self.res_required {
            1u8
        } else {
            0u8
        });
        put_u8(&mut v, b);
        put_u8(&mut v, self.sequence);
        proof {
            assert(v@ =~= spec_frame_addr_pack(*self));
        }
        Ok(v)
    }

    /// Unpacks a frame address from the first 16 bytes of `v`.
    pub fn unpack(v: &[u8]) -> (r: Result<FrameAddress, Error>)
        ensures
            match r {
                Ok(a) => v@.len() >= 16 && a == spec_frame_addr_unpack(v@),
                Err(e) => v@.len() < 16 && e matches Error::Io,
            },
    {
        if v.len() < 16 {
            return Err(Error::Io);
        }
        let target = read_u64(v, 0);
        let reserved: [u8; 6] = read_bytes(v, 8);
        let b = read_u8(v, 14);
        let reserved2: u8 = (b & 0xfc) >> 2;
        let ack_required = b & 2 != 0;
        let res_required = b & 1 != 0;
        let sequence = read_u8(v, 15);
        proof {
            crate::types::lemma_seq_to_array(reserved);
        }
        Ok(FrameAddress { target, reserved, reserved2, ack_required, res_required, sequence })
    }
}

/// Packing and then unpacking a frame address gives it back, provided the
/// reserved bits fit their six-bit field.
pub proof fn lemma_frame_addr_round_trip(a: FrameAddress)
    requires
        a.reserved2 < 64,
    ensures
        spec_frame_addr_unpack(spec_frame_addr_pack(a)) == a,
{
    crate::wire::lemma_scalar_round_trips();
    let p = spec_frame_addr_pack(a);
    assert(p.subrange(0, 8) =~= enc_u64(a.target));
    assert(p.subrange(8, 14) =~= a.reserved@);
    let r2 = a.reserved2;
    let kb: u8 = if a.ack_required { 2 } else { 0 };
    let rb: u8 = if a.res_required { 1 } else { 0 };
    let b = spec_addr_flags_byte(a);
    assert(b == (r2 << 2) | kb | rb);
    assert((b & 0xfc) >> 2 == r2 && (b & 2 != 0) == (kb == 2) && (b & 1 != 0) == (rb == 1))
        by (bit_vector)
        requires
            b == (r2 << 2) | kb | rb,
            r2 < 64,
            kb == 0 || kb == 2,
            rb == 0 || rb == 1,
    ;
    assert(p.subrange(14, 15) =~= enc_u8(b));
    assert(p.subrange(15, 16) =~= enc_u8(a.sequence));
    assert(dec_u8(p, 14) == b);
    assert(dec_u8(p, 15) == a.sequence);
    crate::types::lemma_seq_to_array(a.reserved);
    assert(spec_frame_addr_unpack(p).reserved == a.reserved);
    assert(spec_frame_addr_unpack(p) == a);
}

/// Packed image of a protocol header: 12 bytes.
pub open spec fn spec_protocol_header_pack(h: ProtocolHeader) -> Seq<u8> {
    enc_u64(h.reserved) + enc_u16(h.typ) + enc_u16(h.reserved2)
}

/// The protocol header stored in the first 12 bytes of `s`.
pub open spec fn spec_protocol_header_unpack(s: Seq<u8>) -> ProtocolHeader {
    ProtocolHeader { reserved: dec_u64(s, 0), typ: dec_u16(s, 8), reserved2: dec_u16(s, 10) }
}

impl ProtocolHeader {
    /// Packed size of this section, in bytes.
    pub fn packed_size() -> (r: usize)
        ensures
            r == 12,
    {
        12
    }

    /// Statically checks that this protocol header may be sent.  The
    /// section has no bounds of its own, so nothing is demanded.
    pub fn validate(&self) {
    }

    /// Packs this protocol header into its 12-byte image.
    pub fn pack(&self) -> (r: Result<Vec<u8>, Error>)
        ensures
            r matches Ok(v) && v@ == spec_protocol_header_pack(*self),
    {
        let mut v: Vec<u8> = Vec::new();
        put_u64(&mut v, self.reserved);
        put_u16(&mut v, self.typ);
        put_u16(&mut v, self.reserved2);
        proof {
            assert(v@ =~= spec_protocol_header_pack(*self));
        }
        Ok(v)
    }

    /// Unpacks a protocol header from the first 12 bytes of `v`.
    pub fn unpack(v: &[u8]) -> (r: Result<ProtocolHeader, Error>)
        ensures
            match r {
                Ok(h) => v@.len() >= 12 && h == spec_protocol_header_unpack(v@),
                Err(e) => v@.len() < 12 && e matches Error::Io,
            },
    {
        if v.len() < 12 {
            return Err(Error::Io);
        }
        let reserved = read_u64(v, 0);
        let typ = read_u16(v, 8);
        let reserved2 = read_u16(v, 10);
        Ok(ProtocolHeader { reserved, typ, reserved2 })
    }
}

/// Packing and then unpacking a protocol header gives it back.
pub proof fn lemma_protocol_header_round_trip(h: ProtocolHeader)
    ensures
        spec_protocol_header_unpack(spec_protocol_header_pack(h)) == h,
{
    crate::wire::lemma_scalar_round_trips();
    let p = spec_protocol_header_pack(h);
    assert(p.subrange(0, 8) =~= enc_u64(h.reserved));
    assert(p.subrange(8, 10) =~= enc_u16(h.typ));
    assert(p.subrange(10, 12) =~= enc_u16(h.reserved2));
}

} // verus!
