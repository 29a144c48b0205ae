//! Inline payload packing: up to 32 bytes of a path or of data carried in
//! `payload[2..6]`, four little-endian words, and the NUL-terminated length
//! of such a buffer.

use vstd::prelude::*;
use vstd::bytes::{
    spec_u64_from_le_bytes, spec_u64_to_le_bytes, u64_from_le_bytes, u64_to_le_bytes,
    lemma_auto_spec_u64_to_from_le_bytes,
};
use vstd::slice::slice_subrange;

verus! {

/// Number of bytes that `payload[2..6]` carries.
pub const INLINE_BYTES: usize = 32;

/// The number of bytes of `len` that fit inline.
pub open spec fn inline_len(len: nat) -> nat {
    if len < INLINE_BYTES {
        len
    } else {
        INLINE_BYTES as nat
    }
}

/// The 32-byte buffer that `bytes` is packed from: its first bytes, at most
/// 32 of them, then zeros.
pub open spec fn inline_image(bytes: Seq<u8>) -> Seq<u8> {
    Seq::new(INLINE_BYTES as nat, |i: int| if i < bytes.len() { bytes[i] } else { 0u8 })
}

/// The 32 bytes that a payload carries inline: words 2, 3, 4 and 5, each
/// little-endian.
pub open spec fn inline_of(payload: Seq<u64>) -> Seq<u8> {
    spec_u64_to_le_bytes(payload[2]) + spec_u64_to_le_bytes(payload[3])
        + spec_u64_to_le_bytes(payload[4]) + spec_u64_to_le_bytes(payload[5])
}

/// `payload` with words 2..6 replaced by the 32-byte buffer `buf`, read as
/// four little-endian words; words 0 and 1 are kept.
pub open spec fn with_inline(payload: Seq<u64>, buf: Seq<u8>) -> Seq<u64> {
    seq![
        payload[0],
        payload[1],
        spec_u64_from_le_bytes(buf.subrange(0, 8)),
        spec_u64_from_le_bytes(buf.subrange(8, 16)),
        spec_u64_from_le_bytes(buf.subrange(16, 24)),
        spec_u64_from_le_bytes(buf.subrange(24, 32)),
    ]
}

/// `n` is the index of the first NUL byte of `s`, or its length when it
/// holds none.
pub open spec fn is_first_nul(s: Seq<u8>, n: nat) -> bool {
    &&& n <= s.len()
    &&& forall|i: int| 0 <= i < n ==> s[i] != 0
    &&& n < s.len() ==> s[n as int] == 0
}

/// Pack a path/data slice into `payload[2..6]`. Returns the number of bytes
/// actually packed (truncated to `INLINE_BYTES`) so callers can detect
/// over-long paths and surface E_NAMETOOLONG locally.
pub fn pack_inline(payload: &mut [u64; 6], bytes: &[u8]) -> (n: usize)
    ensures
        n == inline_len(bytes@.len()),
        bytes@.len() <= INLINE_BYTES ==> n == bytes@.len(),
        bytes@.len() > INLINE_BYTES ==> n == INLINE_BYTES,
        final(payload)@ == with_inline(old(payload)@, inline_image(bytes@)),
        final(payload)@[0] == old(payload)@[0],
        final(payload)@[1] == old(payload)@[1],
        forall|i: int|
            0 <= i < INLINE_BYTES ==> #[trigger] (spec_u64_to_le_bytes(final(payload)@[2])
                + spec_u64_to_le_bytes(final(payload)@[3]) + spec_u64_to_le_bytes(
                final(payload)@[4],
            ) + spec_u64_to_le_bytes(final(payload)@[5]))[i] == (if i < bytes@.len() {
                bytes@[i]
            } else {
                0u8
            }),
{
    let n: usize = if bytes.len() < INLINE_BYTES {
        bytes.len()
    } else {
        INLINE_BYTES
    };
    let mut buf: [u8; 32] = [0u8; 32];
    let mut i: usize = 0;
    while i < n
        invariant
            n == inline_len(bytes@.len()),
            i <= n,
            buf@ == Seq::new(32, |k: int| if k < i { bytes@[k] } else { 0u8 }),
        decreases n - i,
    {
        buf.set(i, bytes[i]);
        i += 1;
        assert(buf@ =~= Seq::new(32, |k: int| if k < i { bytes@[k] } else { 0u8 }));
    }
    assert(buf@ =~= inline_image(bytes@));
    let s: &[u8] = buf.as_slice();
    payload.set(2, u64_from_le_bytes(slice_subrange(s, 0, 8)));
    payload.set(3, u64_from_le_bytes(slice_subrange(s, 8, 16)));
    payload.set(4, u64_from_le_bytes(slice_subrange(s, 16, 24)));
    payload.set(5, u64_from_le_bytes(slice_subrange(s, 24, 32)));
    assert(payload@ =~= with_inline(old(payload)@, inline_image(bytes@)));
    proof {
        lemma_inline_of_with_inline(old(payload)@, inline_image(bytes@));
    }
    n
}

/// Write the little-endian bytes of `word` into `buf[at..at + 8]`.
fn put_word(buf: &mut [u8; 32], at: usize, word: u64)
    requires
        at + 8 <= 32,
    ensures
        final(buf)@ == old(buf)@.subrange(0, at as int) + spec_u64_to_le_bytes(word)
            + old(buf)@.subrange(at + 8, 32),
{
    proof {
        lemma_auto_spec_u64_to_from_le_bytes();
    }
    let bytes = u64_to_le_bytes(word);
    let mut j: usize = 0;
    while j < 8
        invariant
            at + 8 <= 32,
            bytes@ == spec_u64_to_le_bytes(word),
            bytes@.len() == 8,
            j <= 8,
            buf@.len() == 32,
            buf@ == old(buf)@.subrange(0, at as int) + bytes@.subrange(0, j as int)
                + old(buf)@.subrange(at + j, 32),
        decreases 8 - j,
    {
        buf.set(at + j, bytes[j]);
        j += 1;
        assert(buf@ =~= old(buf)@.subrange(0, at as int) + bytes@.subrange(0, j as int)
            + old(buf)@.subrange(at + j, 32));
    }
    assert(bytes@.subrange(0, 8) =~= bytes@);
}

/// Unpack `payload[2..6]` into a 32-byte buffer. Callers detect the
/// effective end via the first NUL byte (for paths) or use an explicit
/// length carried elsewhere (for inline reads).
pub fn unpack_inline(payload: &[u64; 6]) -> (buf: [u8; INLINE_BYTES])
    ensures
        buf@ == inline_of(payload@),
        buf@ == spec_u64_to_le_bytes(payload@[2]) + spec_u64_to_le_bytes(payload@[3])
            + spec_u64_to_le_bytes(payload@[4]) + spec_u64_to_le_bytes(payload@[5]),
{
    proof {
        lemma_auto_spec_u64_to_from_le_bytes();
    }
    let mut buf: [u8; 32] = [0u8; 32];
    put_word(&mut buf, 0, payload[2]);
    put_word(&mut buf, 8, payload[3]);
    put_word(&mut buf, 16, payload[4]);
    put_word(&mut buf, 24, payload[5]);
    assert(buf@ =~= inline_of(payload@));
    buf
}

/// Return the index of the first NUL byte in `buf`, or `buf.len()` if
/// none exists. Used to compute path length from unpacked inline.
pub fn cstr_len(buf: &[u8]) -> (n: usize)
    ensures
        is_first_nul(buf@, n as nat),
        n <= buf@.len(),
        forall|i: int| 0 <= i < n ==> buf@[i] != 0,
        n < buf@.len() ==> buf@[n as int] == 0,
{
    let mut i: usize = 0;
    while i < buf.len() && buf[i] != 0
        invariant
            i <= buf@.len(),
            forall|j: int| 0 <= j < i ==> buf@[j] != 0,
        decreases buf@.len() - i,
    {
        i += 1;
    }
    i
}

/// Reading back a payload whose inline words were set from a 32-byte buffer
/// gives that buffer.
proof fn lemma_inline_of_with_inline(payload: Seq<u64>, buf: Seq<u8>)
    requires
        payload.len() == 6,
        buf.len() == INLINE_BYTES,
    ensures
        inline_of(with_inline(payload, buf)) == buf,
{
    lemma_auto_spec_u64_to_from_le_bytes();
    let p = with_inline(payload, buf);
    assert(spec_u64_to_le_bytes(p[2]) == buf.subrange(0, 8));
    assert(spec_u64_to_le_bytes(p[3]) == buf.subrange(8, 16));
    assert(spec_u64_to_le_bytes(p[4]) == buf.subrange(16, 24));
    assert(spec_u64_to_le_bytes(p[5]) == buf.subrange(24, 32));
    assert(inline_of(p) =~= buf);
}

/// Law: what `unpack_inline` reads from a payload that `pack_inline` filled
/// is the packed bytes, at most 32 of them, followed by zeros.
pub proof fn lemma_unpack_after_pack(payload: Seq<u64>, bytes: Seq<u8>)
    requires
        payload.len() == 6,
    ensures
        inline_of(with_inline(payload, inline_image(bytes))) == inline_image(bytes),
        inline_image(bytes).subrange(0, inline_len(bytes.len()) as int) == bytes.subrange(
            0,
            inline_len(bytes.len()) as int,
        ),
{
    lemma_inline_of_with_inline(payload, inline_image(bytes));
    assert(inline_image(bytes).subrange(0, inline_len(bytes.len()) as int) =~= bytes.subrange(
        0,
        inline_len(bytes.len()) as int,
    ));
}

/// Law: packing the 32 bytes that `unpack_inline` read from a payload packs
/// all of them and leaves the payload as it was.
pub proof fn lemma_pack_after_unpack(payload: Seq<u64>)
    requires
        payload.len() == 6,
    ensures
        inline_len(inline_of(payload).len()) == INLINE_BYTES,
        with_inline(payload, inline_image(inline_of(payload))) == payload,
{
    lemma_auto_spec_u64_to_from_le_bytes();
    let buf = inline_of(payload);
    assert(inline_image(buf) =~= buf);
    assert(buf.subrange(0, 8) =~= spec_u64_to_le_bytes(payload[2]));
    assert(buf.subrange(8, 16) =~= spec_u64_to_le_bytes(payload[3]));
    assert(buf.subrange(16, 24) =~= spec_u64_to_le_bytes(payload[4]));
    assert(buf.subrange(24, 32) =~= spec_u64_to_le_bytes(payload[5]));
    assert(with_inline(payload, buf) =~= payload);
}

/// Law: a path of at most 32 bytes that holds no NUL, once packed and
/// unpacked, is found again whole: its length is the NUL-terminated length
/// of the buffer read back, and its bytes begin that buffer.
pub proof fn lemma_path_roundtrip(payload: Seq<u64>, path: Seq<u8>)
    requires
        payload.len() == 6,
        path.len() <= INLINE_BYTES,
        forall|i: int| 0 <= i < path.len() ==> path[i] != 0,
    ensures
        is_first_nul(inline_of(with_inline(payload, inline_image(path))), path.len()),
        inline_of(with_inline(payload, inline_image(path))).subrange(0, path.len() as int)
            == path,
{
    lemma_unpack_after_pack(payload, path);
    assert(path.subrange(0, path.len() as int) =~= path);
}

/// Law: the NUL-terminated length of a buffer is unique, so `cstr_len` has
/// one result for each buffer.
pub proof fn lemma_first_nul_unique(s: Seq<u8>, a: nat, b: nat)
    requires
        is_first_nul(s, a),
        is_first_nul(s, b),
    ensures
        a == b,
{
    if a < b {
        assert(s[a as int] != 0);
    } else if b < a {
        assert(s[b as int] != 0);
    }
}

/// Law: `pack_inline` packs the whole input when it fits in 32 bytes, and
/// exactly 32 bytes of a longer one.
pub proof fn lemma_inline_len(len: nat)
    ensures
        len <= INLINE_BYTES ==> inline_len(len) == len,
        len > INLINE_BYTES ==> inline_len(len) == INLINE_BYTES,
        inline_len(len) <= len,
{
}

/// Law: after packing, byte `j` of payload word `2 + k` (little-endian) is
/// byte `8k + j` of the input, or 0 past its end; words 0 and 1 are kept.
pub proof fn lemma_pack_byte(payload: Seq<u64>, bytes: Seq<u8>, k: int, j: int)
    requires
        payload.len() == 6,
        0 <= k < 4,
        0 <= j < 8,
    ensures
        with_inline(payload, inline_image(bytes)).len() == 6,
        with_inline(payload, inline_image(bytes))[0] == payload[0],
        with_inline(payload, inline_image(bytes))[1] == payload[1],
        spec_u64_to_le_bytes(with_inline(payload, inline_image(bytes))[2 + k])[j] == (if 8 * k
            + j < bytes.len() {
            bytes[8 * k + j]
        } else {
            0u8
        }),
{
    lemma_auto_spec_u64_to_from_le_bytes();
    let img = inline_image(bytes);
    let sub = img.subrange(8 * k, 8 * k + 8);
    let p = with_inline(payload, img);
    if k == 0 {
        assert(p[2 + k] == spec_u64_from_le_bytes(sub));
    } else if k == 1 {
        assert(p[2 + k] == spec_u64_from_le_bytes(sub));
    } else if k == 2 {
        assert(p[2 + k] == spec_u64_from_le_bytes(sub));
    } else {
        assert(p[2 + k] == spec_u64_from_le_bytes(sub));
    }
    assert(spec_u64_to_le_bytes(spec_u64_from_le_bytes(sub)) == sub);
    assert(sub[j] == img[8 * k + j]);
}

/// Law: byte `8k + j` of what `unpack_inline` reads is byte `j` of payload
/// word `2 + k`, little-endian, and the buffer holds 32 bytes.
pub proof fn lemma_unpack_byte(payload: Seq<u64>, k: int, j: int)
    requires
        payload.len() == 6,
        0 <= k < 4,
        0 <= j < 8,
    ensures
        inline_of(payload).len() == INLINE_BYTES,
        inline_of(payload)[8 * k + j] == spec_u64_to_le_bytes(payload[2 + k])[j],
{
    lemma_auto_spec_u64_to_from_le_bytes();
    let a = spec_u64_to_le_bytes(payload[2]);
    let b = spec_u64_to_le_bytes(payload[3]);
    let c = spec_u64_to_le_bytes(payload[4]);
    let d = spec_u64_to_le_bytes(payload[5]);
    assert(a.len() == 8 && b.len() == 8 && c.len() == 8 && d.len() == 8);
    assert(inline_of(payload) == a + b + c + d);
    if k == 0 {
        assert((a + b + c + d)[j] == a[j]);
    } else if k == 1 {
        assert((a + b + c + d)[8 + j] == b[j]);
    } else if k == 2 {
        assert((a + b + c + d)[16 + j] == c[j]);
    } else {
        assert((a + b + c + d)[24 + j] == d[j]);
    }
}

/// Law: `is_first_nul(s, n)`, the relation `cstr_len` meets, holds exactly
/// when `n` is at most the length, every byte before `n` is nonzero, and
/// `n` is the length or the byte at `n` is NUL, for buffers of any length.
pub proof fn lemma_is_first_nul(s: Seq<u8>, n: nat)
    ensures
        is_first_nul(s, n) <==> (n <= s.len() && (forall|i: int| 0 <= i < n ==> s[i] != 0) && (n
            < s.len() ==> s[n as int] == 0)),
{
}

} // verus!
