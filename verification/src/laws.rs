//! Round-trip laws of the codec.
//!
//! These lemmas state, purely over the spec functions that the exec
//! contracts are written in, that what the library sends is read back
//! unchanged: building any constructible message, packing it, unpacking
//! the bytes and decoding the payload reproduces the message, up to the
//! documented power-level and acknowledgement normalisations.

use vstd::prelude::*;

verus! {

use crate::header::frame_valid;
use crate::header::lemma_frame_addr_round_trip;
use crate::header::lemma_frame_round_trip;
use crate::header::lemma_protocol_header_round_trip;
use crate::header::spec_frame_addr_pack;
use crate::header::spec_frame_addr_unpack;
use crate::header::spec_frame_pack;
use crate::header::spec_frame_unpack;
use crate::header::spec_protocol_header_pack;
use crate::header::spec_protocol_header_unpack;
use crate::message::Message;
use crate::message::lemma_message_round_trip;
use crate::message::lemma_payload_len;
use crate::message::spec_decode_payload;
use crate::message::spec_fields_valid;
use crate::message::spec_known;
use crate::message::spec_min_len;
use crate::raw::BuildOptions;
use crate::raw::spec_built_addr;
use crate::raw::spec_built_bytes;
use crate::raw::spec_built_frame;
use crate::raw::spec_built_header;
use crate::types::LifxString;
use crate::types::dec_string;
use crate::types::enc_string;
use crate::types::lemma_nonzero_of_padded;
use crate::types::lemma_string_of;
use crate::types::zero_pad;

/// A label string round-trips exactly through its 32-byte wire image.
pub proof fn lemma_string_round_trip(ls: LifxString)
    requires
        ls.wf(),
    ensures
        dec_string(enc_string(ls), 0) == ls,
{
    ls.lemma_content();
    let p = enc_string(ls);
    assert(p.subrange(0, 31) =~= zero_pad(ls@, 31));
    lemma_nonzero_of_padded(zero_pad(ls@, 31), ls@.len() as int);
    assert(zero_pad(ls@, 31).take(ls@.len() as int) =~= ls@);
    lemma_string_of(ls);
}

/// The full send/receive round trip.
///
/// For any constructible message and any build options: the bytes that
/// building and packing produce carry the declared total length; the
/// frame, frame address and protocol header unpack to exactly what was
/// built; the payload sits at bytes 36 up to the declared size; and
/// decoding it under the enclosed type id and sequence number gives the
/// message back, normalised as documented (a nonzero light power level
/// reads back as full power, and an acknowledgement takes the sequence
/// number of the frame address).
pub proof fn lemma_build_pack_unpack_decode(options: BuildOptions, m: Message)
    requires
        m.wf(),
    ensures
        ({
            let b = spec_built_bytes(options, m);
            let f = spec_built_frame(options, m);
            &&& b.len() == 36 + m.spec_payload().len()
            &&& f.size == b.len()
            &&& spec_frame_unpack(b) == Some(f)
            &&& spec_frame_addr_unpack(b.skip(8)) == spec_built_addr(options)
            &&& spec_protocol_header_unpack(b.skip(24)) == spec_built_header(m)
            &&& b.subrange(36, f.size as int) == m.spec_payload()
            &&& spec_known(spec_built_header(m).typ)
            &&& m.spec_payload().len() >= spec_min_len(spec_built_header(m).typ)
            &&& spec_fields_valid(spec_built_header(m).typ, b.subrange(36, f.size as int))
            &&& spec_decode_payload(
                spec_built_header(m).typ,
                b.subrange(36, f.size as int),
                spec_built_addr(options).sequence,
            ) == m.spec_normalized(options.sequence)
        }),
{
    crate::wire::lemma_scalar_round_trips();
    lemma_payload_len(m);
    let f = spec_built_frame(options, m);
    let a = spec_built_addr(options);
    let h = spec_built_header(m);
    let fp = spec_frame_pack(f);
    let ap = spec_frame_addr_pack(a);
    let hp = spec_protocol_header_pack(h);
    let pl = m.spec_payload();
    let b = spec_built_bytes(options, m);
    assert(a.reserved@.len() == 6);
    assert(fp.len() == 8 && ap.len() == 16 && hp.len() == 12);
    assert(frame_valid(f));
    lemma_frame_round_trip(f);
    assert(b.subrange(0, 2) =~= fp.subrange(0, 2));
    assert(b.subrange(2, 4) =~= fp.subrange(2, 4));
    assert(b.subrange(4, 8) =~= fp.subrange(4, 8));
    assert(spec_frame_unpack(b) == spec_frame_unpack(fp));
    let s8 = b.skip(8);
    assert(s8.subrange(0, 8) =~= ap.subrange(0, 8));
    assert(s8.subrange(8, 14) =~= ap.subrange(8, 14));
    assert(s8[14] == ap[14]);
    assert(s8[15] == ap[15]);
    lemma_frame_addr_round_trip(a);
    assert(spec_frame_addr_unpack(s8) == spec_frame_addr_unpack(ap));
    let s24 = b.skip(24);
    assert(s24.subrange(0, 8) =~= hp.subrange(0, 8));
    assert(s24.subrange(8, 10) =~= hp.subrange(8, 10));
    assert(s24.subrange(10, 12) =~= hp.subrange(10, 12));
    lemma_protocol_header_round_trip(h);
    assert(spec_protocol_header_unpack(s24) == spec_protocol_header_unpack(hp));
    assert(b.subrange(36, f.size as int) =~= pl);
    lemma_message_round_trip(m, options.sequence);
}

} // verus!
