//! Fixed-size compound values carried inside payloads.
//!
//! Besides the scalar primitives of [`crate::wire`], payloads carry a few
//! compound values with fixed wire widths: a colour (8 bytes), an opaque
//! identifier (16 bytes), an echo blob (64 bytes), and a label string
//! (32 bytes).  Each has a spec-level byte image and a decoder, plus exec
//! writers and readers proved against them.

use vstd::prelude::*;

verus! {

use vstd::seq_lib::group_filter_ensures;
use crate::wire::dec_u16;
use crate::wire::enc_u16;
use crate::wire::put_u16;
use crate::wire::read_u16;

/// The array whose view is `s` (there is exactly one when `s.len() == N`).
pub open spec fn seq_to_array<T, const N: usize>(s: Seq<T>) -> [T; N] {
    choose|a: [T; N]| a@ == s
}

/// `seq_to_array` inverts taking the view of an array.
pub proof fn lemma_seq_to_array<T, const N: usize>(a: [T; N])
    ensures
        seq_to_array::<T, N>(a@) == a,
{
    assert(exists|x: [T; N]| x@ == a@) by {
        assert(a@ == a@);
    }
    let b = seq_to_array::<T, N>(a@);
    assert(b@ == a@);
    assert(b =~= a);
}

/// `s` extended (or cut) to exactly `n` bytes with trailing zeros.
pub open spec fn zero_pad(s: Seq<u8>, n: nat) -> Seq<u8> {
    Seq::new(n, |i: int| if i < s.len() { s[i] } else { 0u8 })
}

/// `s` holds `k` nonzero bytes and then only zeros.
pub open spec fn padded_shape(s: Seq<u8>, k: int) -> bool {
    &&& 0 <= k <= 31
    &&& forall|i: int| 0 <= i < k ==> s[i] != 0
    &&& forall|i: int| #![trigger s[i]] k <= i < s.len() ==> s[i] == 0
}

/// The nonzero bytes of `s`, in order.
pub open spec fn nonzero_bytes(s: Seq<u8>) -> Seq<u8> {
    s.filter(|b: u8| b != 0)
}

/// In a 32-byte buffer whose zeros are closed under moving right and whose
/// last byte is zero, the content sits at the front: some `k` splits the
/// buffer into nonzero bytes and then zeros.
pub proof fn lemma_split_at_content(s: Seq<u8>, j: int)
    requires
        s.len() == 32,
        s[31] == 0,
        forall|i1: int, i2: int|
            #![trigger s[i1], s[i2]]
            0 <= i1 <= i2 < 32 && s[i1] == 0 ==> s[i2] == 0,
        0 <= j <= 31,
        forall|i: int| 0 <= i < j ==> s[i] != 0,
    ensures
        exists|k: int| padded_shape(s, k),
    decreases 31 - j,
{
    if s[j] == 0 {
        assert(padded_shape(s, j));
    } else {
        lemma_split_at_content(s, j + 1);
    }
}

/// When all of `s` before `j` is nonzero and all of it from `j` on is zero,
/// filtering out the zeros keeps exactly the first `j` bytes.
pub proof fn lemma_nonzero_of_padded(s: Seq<u8>, j: int)
    requires
        0 <= j <= s.len(),
        forall|i: int| 0 <= i < j ==> s[i] != 0,
        forall|i: int| j <= i < s.len() ==> s[i] == 0,
    ensures
        nonzero_bytes(s) == s.take(j),
    decreases s.len(),
{
    reveal(Seq::filter);
    if s.len() == 0 {
        assert(nonzero_bytes(s) =~= s.take(j));
    } else {
        let d = s.drop_last();
        if j == s.len() {
            lemma_nonzero_of_padded(d, j - 1);
            assert(nonzero_bytes(s) =~= s.take(j));
        } else {
            lemma_nonzero_of_padded(d, j);
            assert(nonzero_bytes(s) =~= s.take(j));
        }
    }
}

/// Reads the `[u8; N]` block stored at offset `i`.
pub fn read_bytes<const N: usize>(s: &[u8], i: usize) -> (r: [u8; N])
    requires
        i + N <= s@.len(),
    ensures
        r@ == s@.subrange(i as int, i + N),
{
    let mut a = [0u8; N];
    let n: usize = s.len();
    let mut j: usize = 0;
    while j < N
        invariant
            j <= N,
            n == s@.len(),
            i + N <= s@.len(),
            a@.len() == N,
            forall|k: int| 0 <= k < j ==> a@[k] == s@[i + k],
        decreases N - j,
    {
        a[j] = s[i + j];
        j += 1;
    }
    proof {
        assert(a@ =~= s@.subrange(i as int, i + N));
    }
    a
}

/// Appends a `[u8; N]` block as raw bytes.
pub fn put_bytes<const N: usize>(out: &mut Vec<u8>, v: &[u8; N])
    ensures
        final(out)@ == old(out)@ + v@,
{
    let mut j: usize = 0;
    while j < N
        invariant
            j <= N,
            out@ == old(out)@ + v@.take(j as int),
        decreases N - j,
    {
        out.push(v[j]);
        proof {
            assert(out@ =~= old(out)@ + v@.take(j + 1));
        }
        j += 1;
    }
    proof {
        assert(old(out)@ + v@.take(N as int) =~= old(out)@ + v@);
    }
}

/// Bulb colour: hue, saturation, brightness and colour temperature.
///
/// When a light displays whites, `saturation` is zero, `hue` is ignored, and
/// only `brightness` and `kelvin` matter; usual `kelvin` values run from
/// 2500 (warm) to 9000 (cool).  When a light displays colours, `kelvin` is
/// ignored.
#[derive(Debug, Copy, Clone, PartialEq, Eq, Structural)]
pub struct HSBK {
    pub hue: u16,
    pub saturation: u16,
    pub brightness: u16,
    pub kelvin: u16,
}

/// Byte image of a colour: its four words, little-endian, 8 bytes.
pub open spec fn enc_hsbk(c: HSBK) -> Seq<u8> {
    enc_u16(c.hue) + enc_u16(c.saturation) + enc_u16(c.brightness) + enc_u16(c.kelvin)
}

/// The colour stored at offset `i` of `s`.
pub open spec fn dec_hsbk(s: Seq<u8>, i: int) -> HSBK {
    HSBK {
        hue: dec_u16(s, i),
        saturation: dec_u16(s, i + 2),
        brightness: dec_u16(s, i + 4),
        kelvin: dec_u16(s, i + 6),
    }
}

/// Appends the byte image of a colour.
pub fn put_hsbk(out: &mut Vec<u8>, c: HSBK)
    ensures
        final(out)@ == old(out)@ + enc_hsbk(c),
{
    put_u16(out, c.hue);
    put_u16(out, c.saturation);
    put_u16(out, c.brightness);
    put_u16(out, c.kelvin);
    proof {
        assert(out@ =~= old(out)@ + enc_hsbk(c));
    }
}

/// Reads the colour stored at offset `i`.
pub fn read_hsbk(s: &[u8], i: usize) -> (r: HSBK)
    requires
        i + 8 <= s@.len(),
    ensures
        r == dec_hsbk(s@, i as int),
{
    let n: usize = s.len();
    let hue = read_u16(s, i);
    let saturation = read_u16(s, i + 2);
    let brightness = read_u16(s, i + 4);
    let kelvin = read_u16(s, i + 6);
    HSBK { hue, saturation, brightness, kelvin }
}

/// Opaque 16-byte identifier (GUID-like) naming a location or group.
#[derive(Debug, Clone, PartialEq)]
pub struct LifxIdent(pub [u8; 16]);

/// Byte image of an identifier: its 16 bytes as they stand.
pub open spec fn enc_ident(v: LifxIdent) -> Seq<u8> {
    v.0@
}

/// The identifier stored at offset `i` of `s`.
pub open spec fn dec_ident(s: Seq<u8>, i: int) -> LifxIdent {
    LifxIdent(seq_to_array(s.subrange(i, i + 16)))
}

/// Appends the byte image of an identifier.
pub fn put_ident(out: &mut Vec<u8>, v: &LifxIdent)
    ensures
        final(out)@ == old(out)@ + enc_ident(*v),
{
    put_bytes(out, &v.0);
}

/// Reads the identifier stored at offset `i`.
pub fn read_ident(s: &[u8], i: usize) -> (r: LifxIdent)
    requires
        i + 16 <= s@.len(),
    ensures
        r == dec_ident(s@, i as int),
{
    let a: [u8; 16] = read_bytes(s, i);
    proof {
        lemma_seq_to_array(a);
    }
    LifxIdent(a)
}

/// Opaque 64-byte blob echoed back by a device.
#[derive(Debug, Copy, Clone, PartialEq)]
pub struct EchoPayload(pub [u8; 64]);

/// Byte image of an echo blob: its 64 bytes as they stand.
pub open spec fn enc_echo(v: EchoPayload) -> Seq<u8> {
    v.0@
}

/// The echo blob stored at offset `i` of `s`.
pub open spec fn dec_echo(s: Seq<u8>, i: int) -> EchoPayload {
    EchoPayload(seq_to_array(s.subrange(i, i + 64)))
}

/// Appends the byte image of an echo blob.
pub fn put_echo(out: &mut Vec<u8>, v: &EchoPayload)
    ensures
        final(out)@ == old(out)@ + enc_echo(*v),
{
    put_bytes(out, &v.0);
}

/// Reads the echo blob stored at offset `i`.
pub fn read_echo(s: &[u8], i: usize) -> (r: EchoPayload)
    requires
        i + 64 <= s@.len(),
    ensures
        r == dec_echo(s@, i as int),
{
    let a: [u8; 64] = read_bytes(s, i);
    proof {
        lemma_seq_to_array(a);
    }
    EchoPayload(a)
}

/// A label string as devices store it: at most 31 bytes of content, none of
/// them zero, padded with zeros to 32 bytes on the wire so that the final
/// byte is always a zero terminator.
///
/// The stored buffer is kept canonical — content first, then only zeros —
/// so two labels with the same content are equal as values.  Its view is
/// the content byte sequence.
#[derive(Debug, PartialEq)]
pub struct LifxString {
    buf: [u8; 32],
}

impl Clone for LifxString {
    /// A clone is the same label.
    fn clone(&self) -> (r: Self)
        ensures
            r == *self,
    {
        proof {
            use_type_invariant(self);
        }
        LifxString { buf: self.buf }
    }
}

impl View for LifxString {
    type V = Seq<u8>;

    /// The content bytes of the label.
    closed spec fn view(&self) -> Seq<u8> {
        nonzero_bytes(self.buf@)
    }
}

impl LifxString {
    /// The stored buffer holds the content bytes and then only zeros: its
    /// last byte is zero, and a zero byte is never followed by a nonzero
    /// one.  In particular the content is at most 31 bytes.
    #[verifier::type_invariant]
    pub closed spec fn wf(self) -> bool {
        &&& self.buf@[31] == 0
        &&& forall|i1: int, i2: int|
            #![trigger self.buf@[i1], self.buf@[i2]]
            0 <= i1 <= i2 < 32 && self.buf@[i1] == 0 ==> self.buf@[i2] == 0
    }

    /// The content of a well-formed label: at most 31 bytes, all nonzero.
    pub proof fn lemma_content(self)
        requires
            self.wf(),
        ensures
            self@.len() <= 31,
            forall|i: int| 0 <= i < self@.len() ==> self@[i] != 0,
    {
        self.lemma_canonical();
    }

    /// A well-formed label is its content padded with zeros, so content
    /// determines the label.
    proof fn lemma_canonical(self)
        requires
            self.wf(),
        ensures
            self@.len() <= 31,
            forall|i: int| 0 <= i < self@.len() ==> self@[i] != 0,
            self.buf@ == zero_pad(self@, 32),
    {
        lemma_split_at_content(self.buf@, 0);
        let k = choose|k: int| padded_shape(self.buf@, k);
        assert(padded_shape(self.buf@, k));
        lemma_nonzero_of_padded(self.buf@, k);
        assert(self@ =~= self.buf@.take(k));
        assert(self.buf@ =~= zero_pad(self@, 32));
    }

    /// Two well-formed labels with the same content are the same label.
    pub proof fn lemma_unique(self, other: LifxString)
        requires
            self.wf(),
            other.wf(),
            self@ == other@,
        ensures
            self == other,
    {
        self.lemma_canonical();
        other.lemma_canonical();
        assert(self.buf =~= other.buf);
    }

    /// Constructs a label from raw bytes: input is cut to its first 31
    /// bytes, and zero bytes are dropped.
    pub fn new(s: &[u8]) -> (r: LifxString)
        ensures
            r@ == spec_new_string(s@),
    {
        let len = s.len();
        let n = if len > 31 {
            31
        } else {
            len
        };
        collect_nonzero(s, 0, n)
    }

    /// The content bytes, as a fresh vector.
    pub fn bytes(&self) -> (r: Vec<u8>)
        ensures
            r@ == self@,
    {
        proof {
            use_type_invariant(self);
            self.lemma_canonical();
        }
        let mut r: Vec<u8> = Vec::new();
        let mut j: usize = 0;
        while j < 32
            invariant
                j <= 32,
                self.wf(),
                self.buf@ == zero_pad(self@, 32),
                r@ == self@.take(if j <= self@.len() {
                    j as int
                } else {
                    self@.len() as int
                }),
            decreases 32 - j,
        {
            let b = self.buf[j];
            if b != 0 {
                proof {
                    self.lemma_canonical();
                }
                r.push(b);
                proof {
                    assert(r@ =~= self@.take(if j + 1 <= self@.len() {
                        j + 1
                    } else {
                        self@.len() as int
                    }));
                }
            } else {
                proof {
                    self.lemma_canonical();
                    assert(self@.len() <= j);
                    assert(r@ =~= self@.take(if j + 1 <= self@.len() {
                        j + 1
                    } else {
                        self@.len() as int
                    }));
                }
            }
            j += 1;
        }
        proof {
            assert(r@ =~= self@);
        }
        r
    }
}

/// Content of a label built from `s`: the first 31 bytes, zeros dropped.
pub open spec fn spec_new_string(s: Seq<u8>) -> Seq<u8> {
    nonzero_bytes(s.take(if s.len() <= 31 {
        s.len() as int
    } else {
        31
    }))
}

/// The label whose content is `c` (unique when `c` is valid content).
pub open spec fn string_of(c: Seq<u8>) -> LifxString {
    choose|ls: LifxString| ls.wf() && ls@ == c
}

/// `string_of` inverts taking the content of a well-formed label.
pub proof fn lemma_string_of(ls: LifxString)
    requires
        ls.wf(),
    ensures
        string_of(ls@) == ls,
{
    assert(exists|x: LifxString| x.wf() && x@ == ls@) by {
        assert(ls.wf() && ls@ == ls@);
    }
    let w = string_of(ls@);
    assert(w.wf() && w@ == ls@);
    w.lemma_unique(ls);
}

/// Byte image of a label: its content padded with zeros to 32 bytes.
pub open spec fn enc_string(ls: LifxString) -> Seq<u8> {
    zero_pad(ls@, 32)
}

/// The label stored at offset `i` of `s`: 31 content bytes with zeros
/// dropped, followed by one terminator byte that is skipped.
pub open spec fn dec_string(s: Seq<u8>, i: int) -> LifxString {
    string_of(nonzero_bytes(s.subrange(i, i + 31)))
}

/// Appends the byte image of a label.
pub fn put_string(out: &mut Vec<u8>, ls: &LifxString)
    ensures
        final(out)@ == old(out)@ + enc_string(*ls),
{
    proof {
        use_type_invariant(ls);
        ls.lemma_canonical();
    }
    put_bytes(out, &ls.buf);
}

/// Reads the label stored at offset `i` (32 bytes on the wire).
pub fn read_string(s: &[u8], i: usize) -> (r: LifxString)
    requires
        i + 32 <= s@.len(),
    ensures
        r == dec_string(s@, i as int),
{
    collect_nonzero(s, i, 31)
}

/// Gathers the nonzero bytes of `s[start .. start + n]` into a canonical
/// label buffer.
fn collect_nonzero(s: &[u8], start: usize, n: usize) -> (r: LifxString)
    requires
        start + n <= s@.len(),
        n <= 31,
    ensures
        r == string_of(nonzero_bytes(s@.subrange(start as int, start + n))),
        r@ == nonzero_bytes(s@.subrange(start as int, start + n)),
{
    broadcast use group_filter_ensures;

    let mut buf = [0u8; 32];
    let mut cl: usize = 0;
    let mut j: usize = 0;
    let slen: usize = s.len();
    while j < n
        invariant
            j <= n,
            cl <= j,
            n <= 31,
            slen == s@.len(),
            start + n <= s@.len(),
            buf@.subrange(0, cl as int) == nonzero_bytes(
                s@.subrange(start as int, start + j),
            ),
            forall|k: int| 0 <= k < cl ==> buf@[k] != 0,
            forall|k: int| #![trigger buf@[k]] cl <= k < 32 ==> buf@[k] == 0,
        decreases n - j,
    {
        let b = s[start + j];
        proof {
            reveal(Seq::filter);
            let sub = s@.subrange(start as int, start + j);
            assert(s@.subrange(start as int, start + j + 1) =~= sub.push(s@[start + j]));
            assert(sub.push(s@[start + j]).drop_last() =~= sub);
        }
        if b != 0 {
            buf[cl] = b;
            proof {
                assert(buf@.subrange(0, cl + 1) =~= nonzero_bytes(
                    s@.subrange(start as int, start + j + 1),
                ));
            }
            cl += 1;
        } else {
            proof {
                assert(buf@.subrange(0, cl as int) =~= nonzero_bytes(
                    s@.subrange(start as int, start + j + 1),
                ));
            }
        }
        j += 1;
    }
    proof {
        assert(padded_shape(buf@, cl as int));
        lemma_nonzero_of_padded(buf@, cl as int);
    }
    let r = LifxString { buf };
    proof {
        let target = nonzero_bytes(s@.subrange(start as int, start + n));
        assert(r@ =~= buf@.subrange(0, cl as int));
        assert(r@ == target);
        lemma_string_of(r);
    }
    r
}

/// A colour read out of its own byte image anywhere in a buffer is the
/// colour itself.
pub proof fn lemma_dec_hsbk_of_enc(s: Seq<u8>, i: int, c: HSBK)
    requires
        0 <= i,
        i + 8 <= s.len(),
        s.subrange(i, i + 8) == enc_hsbk(c),
    ensures
        dec_hsbk(s, i) == c,
{
    crate::wire::lemma_scalar_round_trips();
    let w = s.subrange(i, i + 8);
    assert(s.subrange(i, i + 2) =~= w.subrange(0, 2));
    assert(s.subrange(i + 2, i + 4) =~= w.subrange(2, 4));
    assert(s.subrange(i + 4, i + 6) =~= w.subrange(4, 6));
    assert(s.subrange(i + 6, i + 8) =~= w.subrange(6, 8));
    assert(enc_hsbk(c).subrange(0, 2) =~= enc_u16(c.hue));
    assert(enc_hsbk(c).subrange(2, 4) =~= enc_u16(c.saturation));
    assert(enc_hsbk(c).subrange(4, 6) =~= enc_u16(c.brightness));
    assert(enc_hsbk(c).subrange(6, 8) =~= enc_u16(c.kelvin));
}

/// Byte image of a colour sequence: each colour's 8 bytes, in order.
pub open spec fn enc_hsbk_seq(s: Seq<HSBK>) -> Seq<u8>
    decreases s.len(),
{
    if s.len() == 0 {
        Seq::empty()
    } else {
        enc_hsbk_seq(s.drop_last()) + enc_hsbk(s.last())
    }
}

/// The `n` colours stored at offset `i` of `s`, 8 bytes apart.
pub open spec fn dec_hsbk_seq(s: Seq<u8>, i: int, n: nat) -> Seq<HSBK> {
    Seq::new(n, |k: int| dec_hsbk(s, i + 8 * k))
}

/// A colour sequence occupies 8 bytes per colour.
pub proof fn lemma_enc_hsbk_seq_len(s: Seq<HSBK>)
    ensures
        enc_hsbk_seq(s).len() == 8 * s.len(),
    decreases s.len(),
{
    crate::wire::lemma_scalar_round_trips();
    if s.len() > 0 {
        lemma_enc_hsbk_seq_len(s.drop_last());
    }
}

/// The bytes of the `k`-th colour sit 8 `k` bytes into the sequence image.
pub proof fn lemma_enc_hsbk_seq_index(s: Seq<HSBK>, k: int)
    requires
        0 <= k < s.len(),
    ensures
        enc_hsbk_seq(s).subrange(8 * k, 8 * k + 8) == enc_hsbk(s[k]),
    decreases s.len(),
{
    crate::wire::lemma_scalar_round_trips();
    lemma_enc_hsbk_seq_len(s);
    lemma_enc_hsbk_seq_len(s.drop_last());
    if k == s.len() - 1 {
        assert(enc_hsbk_seq(s).subrange(8 * k, 8 * k + 8) =~= enc_hsbk(s[k]));
    } else {
        lemma_enc_hsbk_seq_index(s.drop_last(), k);
        assert(enc_hsbk_seq(s).subrange(8 * k, 8 * k + 8) =~= enc_hsbk_seq(
            s.drop_last(),
        ).subrange(8 * k, 8 * k + 8));
    }
}

/// Appends the byte images of 82 colours in order.
pub fn put_hsbk_array(out: &mut Vec<u8>, v: &[HSBK; 82])
    ensures
        final(out)@ == old(out)@ + enc_hsbk_seq(v@),
{
    let mut j: usize = 0;
    while j < 82
        invariant
            j <= 82,
            out@ == old(out)@ + enc_hsbk_seq(v@.take(j as int)),
        decreases 82 - j,
    {
        put_hsbk(out, v[j]);
        proof {
            assert(v@.take(j + 1).drop_last() =~= v@.take(j as int));
            assert(v@.take(j + 1).last() == v@[j as int]);
            assert(out@ =~= old(out)@ + enc_hsbk_seq(v@.take(j + 1)));
        }
        j += 1;
    }
    proof {
        assert(v@.take(82) =~= v@);
    }
}

/// Reads the 82 colours stored at offset `i` (656 bytes on the wire).
pub fn read_hsbk_array(s: &[u8], i: usize) -> (r: [HSBK; 82])
    requires
        i + 656 <= s@.len(),
    ensures
        r@ == dec_hsbk_seq(s@, i as int, 82),
{
    let n: usize = s.len();
    let mut a = [HSBK { hue: 0, saturation: 0, brightness: 0, kelvin: 0 };82];
    let mut j: usize = 0;
    while j < 82
        invariant
            j <= 82,
            n == s@.len(),
            i + 656 <= s@.len(),
            a@.len() == 82,
            forall|k: int| 0 <= k < j ==> a@[k] == dec_hsbk(s@, i + 8 * k),
        decreases 82 - j,
    {
        a[j] = read_hsbk(s, i + 8 * j);
        j += 1;
    }
    proof {
        assert(a@ =~= dec_hsbk_seq(s@, i as int, 82));
    }
    a
}

/// The English name of a colour temperature given in kelvin, as shown in
/// the vendor's mobile app.
pub open spec fn spec_describe_kelvin(k: u16) -> Seq<char> {
    if k <= 2500 {
        ("Ultra Warm")@
    } else if k <= 2700 {
        ("Incandescent")@
    } else if k <= 3000 {
        ("Warm")@
    } else if k <= 3200 {
        ("Neutral Warm")@
    } else if k <= 3500 {
        ("Neutral")@
    } else if k <= 4000 {
        ("Cool")@
    } else if k <= 4500 {
        ("Cool Daylight")@
    } else if k <= 5000 {
        ("Soft Daylight")@
    } else if k <= 5500 {
        ("Daylight")@
    } else if k <= 6000 {
        ("Noon Daylight")@
    } else if k <= 6500 {
        ("Bright Daylight")@
    } else if k <= 7000 {
        ("Cloudy Daylight")@
    } else if k <= 7500 {
        ("Blue Daylight")@
    } else if k <= 8000 {
        ("Blue Overcast")@
    } else if k <= 8500 {
        ("Blue Water")@
    } else {
        ("Blue Ice")@
    }
}

/// Describes (in English words) the colour temperature given in kelvin.
///
/// These descriptions match the values shown in the LIFX mobile app.
pub fn describe_kelvin(k: u16) -> (r: &'static str)
    ensures
        r@ == spec_describe_kelvin(k),
{
    if k <= 2500 {
        "Ultra Warm"
    } else if k <= 2700 {
        "Incandescent"
    } else if k <= 3000 {
        "Warm"
    } else if k <= 3200 {
        "Neutral Warm"
    } else if k <= 3500 {
        "Neutral"
    } else if k <= 4000 {
        "Cool"
    } else if k <= 4500 {
        "Cool Daylight"
    } else if k <= 5000 {
        "Soft Daylight"
    } else if k <= 5500 {
        "Daylight"
    } else if k <= 6000 {
        "Noon Daylight"
    } else if k <= 6500 {
        "Bright Daylight"
    } else if k <= 7000 {
        "Cloudy Daylight"
    } else if k <= 7500 {
        "Blue Daylight"
    } else if k <= 8000 {
        "Blue Overcast"
    } else if k <= 8500 {
        "Blue Water"
    } else {
        "Blue Ice"
    }
}

} // verus!
