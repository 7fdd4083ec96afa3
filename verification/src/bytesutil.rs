//! Byte-buffer helpers shared by the record and instruction codecs.
//!
//! All multi-byte integers are little-endian. Optional fields use a 4-byte
//! presence tag (`[1,0,0,0]` = present, `[0,0,0,0]` = absent, anything else is
//! invalid) followed by the fixed-width payload; an absent payload keeps
//! whatever bytes were already in the buffer and is never read back.

use vstd::prelude::*;
use vstd::bytes::{spec_u16_from_le_bytes, spec_u16_to_le_bytes, spec_u64_from_le_bytes,
    spec_u64_to_le_bytes, u16_from_le_bytes, u16_to_le_bytes, u64_from_le_bytes, u64_to_le_bytes};
use vstd::slice::{slice_subrange, slice_to_vec};
use crate::error::TokenError;
use crate::key::Pubkey;

verus! {

/// The buffer `whole` with the segment starting at `off` replaced by `seg`.
pub open spec fn spliced(whole: Seq<u8>, off: int, seg: Seq<u8>) -> Seq<u8> {
    whole.take(off) + seg + whole.skip(off + seg.len())
}

/// The key carried by an optional-key value, as bytes.
pub open spec fn opt_key_view(o: Option<Pubkey>) -> Option<Seq<u8>> {
    match o {
        Some(k) => Some(k@),
        None => None,
    }
}

/// Encoding of a 36-byte optional-key segment; an absent key keeps the
/// payload bytes the segment held before (`prev` is the previous segment).
pub open spec fn spec_copt_key_enc(o: Option<Seq<u8>>, prev: Seq<u8>) -> Seq<u8> {
    match o {
        Some(k) => seq![1u8, 0u8, 0u8, 0u8] + k,
        None => seq![0u8, 0u8, 0u8, 0u8] + prev.subrange(4, 36),
    }
}

/// Decoding of a 36-byte optional-key segment; `None` means the tag is invalid.
pub open spec fn spec_copt_key_dec(s: Seq<u8>) -> Option<Option<Seq<u8>>> {
    if s[0] == 0u8 && s[1] == 0u8 && s[2] == 0u8 && s[3] == 0u8 {
        Some(None)
    } else if s[0] == 1u8 && s[1] == 0u8 && s[2] == 0u8 && s[3] == 0u8 {
        Some(Some(s.subrange(4, 36)))
    } else {
        None
    }
}

/// Encoding of a 12-byte optional-u64 segment; an absent value keeps the
/// payload bytes the segment held before.
pub open spec fn spec_copt_u64_enc(o: Option<u64>, prev: Seq<u8>) -> Seq<u8> {
    match o {
        Some(v) => seq![1u8, 0u8, 0u8, 0u8] + spec_u64_to_le_bytes(v),
        None => seq![0u8, 0u8, 0u8, 0u8] + prev.subrange(4, 12),
    }
}

/// Decoding of a 12-byte optional-u64 segment; `None` means the tag is invalid.
pub open spec fn spec_copt_u64_dec(s: Seq<u8>) -> Option<Option<u64>> {
    if s[0] == 0u8 && s[1] == 0u8 && s[2] == 0u8 && s[3] == 0u8 {
        Some(None)
    } else if s[0] == 1u8 && s[1] == 0u8 && s[2] == 0u8 && s[3] == 0u8 {
        Some(Some(spec_u64_from_le_bytes(s.subrange(4, 12))))
    } else {
        None
    }
}

/// A little-endian `u64` segment is 8 bytes.
pub broadcast proof fn lemma_u64_le_len(v: u64)
    ensures
        (#[trigger] spec_u64_to_le_bytes(v)).len() == 8,
{
    vstd::bytes::lemma_auto_spec_u64_to_from_le_bytes();
    assert(spec_u64_to_le_bytes(v).len() == 8);
}

/// A little-endian `u16` segment is 2 bytes.
pub broadcast proof fn lemma_u16_le_len(v: u16)
    ensures
        (#[trigger] spec_u16_to_le_bytes(v)).len() == 2,
{
    vstd::bytes::lemma_auto_spec_u16_to_from_le_bytes();
    assert(spec_u16_to_le_bytes(v).len() == 2);
}

/// An optional-key segment is 36 bytes when the key it carries is 32 bytes.
pub broadcast proof fn lemma_copt_key_enc_len(o: Option<Seq<u8>>, prev: Seq<u8>)
    ensures
        (prev.len() == 36 && (o is Some ==> o->0.len() == 32)) ==> (#[trigger] spec_copt_key_enc(
            o,
            prev,
        )).len() == 36,
{
}

/// An optional-u64 segment is 12 bytes.
pub broadcast proof fn lemma_copt_u64_enc_len(o: Option<u64>, prev: Seq<u8>)
    ensures
        prev.len() == 12 ==> (#[trigger] spec_copt_u64_enc(o, prev)).len() == 12,
{
    match o {
        Some(v) => {
            lemma_u64_le_len(v);
        }
        None => {}
    }
}

/// The segment lengths of every codec building block.
pub broadcast group group_codec_lens {
    lemma_u64_le_len,
    lemma_u16_le_len,
    lemma_copt_key_enc_len,
    lemma_copt_u64_enc_len,
}

/// Round trip for little-endian `u64` segments.
pub proof fn lemma_u64_le_round_trip(v: u64)
    ensures
        spec_u64_to_le_bytes(v).len() == 8,
        spec_u64_from_le_bytes(spec_u64_to_le_bytes(v)) == v,
{
    vstd::bytes::lemma_auto_spec_u64_to_from_le_bytes();
    assert(spec_u64_to_le_bytes(v).len() == 8);
}

/// Round trip for little-endian `u16` segments.
pub proof fn lemma_u16_le_round_trip(v: u16)
    ensures
        spec_u16_to_le_bytes(v).len() == 2,
        spec_u16_from_le_bytes(spec_u16_to_le_bytes(v)) == v,
{
    vstd::bytes::lemma_auto_spec_u16_to_from_le_bytes();
    assert(spec_u16_to_le_bytes(v).len() == 2);
}

/// Round trip for an optional-key segment: decoding what was encoded over any
/// previous segment of 36 bytes yields the key back.
pub proof fn lemma_copt_key_round_trip(o: Option<Seq<u8>>, prev: Seq<u8>)
    requires
        prev.len() == 36,
        o is Some ==> o->0.len() == 32,
    ensures
        spec_copt_key_enc(o, prev).len() == 36,
        spec_copt_key_dec(spec_copt_key_enc(o, prev)) == Some(o),
{
    let e = spec_copt_key_enc(o, prev);
    match o {
        Some(k) => {
            assert(e.subrange(4, 36) =~= k);
        }
        None => {}
    }
}

/// Round trip for an optional-u64 segment.
pub proof fn lemma_copt_u64_round_trip(o: Option<u64>, prev: Seq<u8>)
    requires
        prev.len() == 12,
    ensures
        spec_copt_u64_enc(o, prev).len() == 12,
        spec_copt_u64_dec(spec_copt_u64_enc(o, prev)) == Some(o),
{
    let e = spec_copt_u64_enc(o, prev);
    match o {
        Some(v) => {
            vstd::bytes::lemma_auto_spec_u64_to_from_le_bytes();
            assert(e.subrange(4, 12) =~= spec_u64_to_le_bytes(v));
        }
        None => {}
    }
}

/// Reads the byte at `off`.
pub fn read_u8_at(src: &Vec<u8>, off: usize) -> (b: u8)
    requires
        off < src.len(),
    ensures
        b == src@[off as int],
{
    src[off]
}

/// Reads 8 bytes at `off` as a little-endian `u64`.
pub fn read_u64_le(src: &Vec<u8>, off: usize) -> (v: u64)
    requires
        off + 8 <= src.len(),
    ensures
        v == spec_u64_from_le_bytes(src@.subrange(off as int, off + 8)),
{
    u64_from_le_bytes(slice_subrange(src.as_slice(), off, off + 8))
}

/// Reads 2 bytes at `off` as a little-endian `u16`.
pub fn read_u16_le(src: &Vec<u8>, off: usize) -> (v: u16)
    requires
        off + 2 <= src.len(),
    ensures
        v == spec_u16_from_le_bytes(src@.subrange(off as int, off + 2)),
{
    u16_from_le_bytes(slice_subrange(src.as_slice(), off, off + 2))
}

/// Reads the 32-byte key at `off`.
pub fn read_key_at(src: &Vec<u8>, off: usize) -> (k: Pubkey)
    requires
        off + 32 <= src.len(),
    ensures
        k@ == src@.subrange(off as int, off + 32),
{
    let mut k: Pubkey = [0u8; 32];
    let mut i: usize = 0;
    while i < 32
        invariant
            0 <= i <= 32,
            off + 32 <= src.len(),
            k@.len() == 32,
            forall|j: int| 0 <= j < i ==> k@[j] == src@[off + j],
        decreases 32 - i,
    {
        k[i] = src[off + i];
        i = i + 1;
    }
    assert(k@ =~= src@.subrange(off as int, off + 32));
    k
}

/// Copies `n` bytes starting at `off` into a fresh vector.
pub fn read_bytes_at(src: &Vec<u8>, off: usize, n: usize) -> (v: Vec<u8>)
    requires
        off + n <= src.len(),
    ensures
        v@ == src@.subrange(off as int, off + n),
{
    slice_to_vec(slice_subrange(src.as_slice(), off, off + n))
}

/// Reads the 36-byte optional-key segment at `off`.
pub fn read_copt_key(src: &Vec<u8>, off: usize) -> (r: Result<Option<Pubkey>, TokenError>)
    requires
        off + 36 <= src.len(),
    ensures
        match r {
            Ok(o) => spec_copt_key_dec(src@.subrange(off as int, off + 36)) == Some(
                opt_key_view(o),
            ),
            Err(e) => spec_copt_key_dec(src@.subrange(off as int, off + 36)) is None && e
                == TokenError::InvalidAccountData,
        },
{
    let seg = Ghost(src@.subrange(off as int, off + 36));
    if src[off] == 0 && src[off + 1] == 0 && src[off + 2] == 0 && src[off + 3] == 0 {
        Ok(None)
    } else if src[off] == 1 && src[off + 1] == 0 && src[off + 2] == 0 && src[off + 3] == 0 {
        let k = read_key_at(src, off + 4);
        assert(k@ =~= seg@.subrange(4, 36));
        Ok(Some(k))
    } else {
        Err(TokenError::InvalidAccountData)
    }
}

/// Reads the 12-byte optional-u64 segment at `off`.
pub fn read_copt_u64(src: &Vec<u8>, off: usize) -> (r: Result<Option<u64>, TokenError>)
    requires
        off + 12 <= src.len(),
    ensures
        match r {
            Ok(o) => spec_copt_u64_dec(src@.subrange(off as int, off + 12)) == Some(o),
            Err(e) => spec_copt_u64_dec(src@.subrange(off as int, off + 12)) is None && e
                == TokenError::InvalidAccountData,
        },
{
    let seg = Ghost(src@.subrange(off as int, off + 12));
    if src[off] == 0 && src[off + 1] == 0 && src[off + 2] == 0 && src[off + 3] == 0 {
        Ok(None)
    } else if src[off] == 1 && src[off + 1] == 0 && src[off + 2] == 0 && src[off + 3] == 0 {
        let v = read_u64_le(src, off + 4);
        assert(src@.subrange(off + 4, off + 12) =~= seg@.subrange(4, 12));
        Ok(Some(v))
    } else {
        Err(TokenError::InvalidAccountData)
    }
}

/// Overwrites the bytes at `off..off + src.len()` with `src`.
pub fn write_bytes_at(dst: &mut Vec<u8>, off: usize, src: &[u8])
    requires
        off + src@.len() <= old(dst).len(),
    ensures
        final(dst)@.len() == old(dst)@.len(),
        final(dst)@ == spliced(old(dst)@, off as int, src@),
{
    let n = src.len();
    let mut i: usize = 0;
    while i < n
        invariant
            0 <= i <= n,
            n == src@.len(),
            off + n <= dst.len(),
            dst.len() == old(dst).len(),
            forall|j: int| 0 <= j < i ==> dst@[off + j] == src@[j],
            forall|j: int|
                0 <= j < dst@.len() && !(off <= j < off + i) ==> dst@[j] == old(dst)@[j],
        decreases n - i,
    {
        let b = *vstd::slice::slice_index_get(src, i);
        dst[off + i] = b;
        i = i + 1;
    }
    assert(dst@ =~= spliced(old(dst)@, off as int, src@));
}

/// Writes one byte at `off`.
pub fn write_u8_at(dst: &mut Vec<u8>, off: usize, b: u8)
    requires
        off < old(dst).len(),
    ensures
        final(dst)@.len() == old(dst)@.len(),
        final(dst)@ == old(dst)@.update(off as int, b),
{
    dst[off] = b;
}

/// Writes `v` at `off` as 8 little-endian bytes.
pub fn write_u64_le(dst: &mut Vec<u8>, off: usize, v: u64)
    requires
        off + 8 <= old(dst).len(),
    ensures
        final(dst)@.len() == old(dst)@.len(),
        final(dst)@ == spliced(old(dst)@, off as int, spec_u64_to_le_bytes(v)),
{
    let bytes = u64_to_le_bytes(v);
    write_bytes_at(dst, off, bytes.as_slice());
}

/// Writes `v` at `off` as 2 little-endian bytes.
pub fn write_u16_le(dst: &mut Vec<u8>, off: usize, v: u16)
    requires
        off + 2 <= old(dst).len(),
    ensures
        final(dst)@.len() == old(dst)@.len(),
        final(dst)@ == spliced(old(dst)@, off as int, spec_u16_to_le_bytes(v)),
{
    let bytes = u16_to_le_bytes(v);
    write_bytes_at(dst, off, bytes.as_slice());
}

/// Writes the 32 bytes of `k` at `off`.
pub fn write_key_at(dst: &mut Vec<u8>, off: usize, k: &Pubkey)
    requires
        off + 32 <= old(dst).len(),
    ensures
        final(dst)@.len() == old(dst)@.len(),
        final(dst)@ == spliced(old(dst)@, off as int, k@),
{
    write_bytes_at(dst, off, vstd::array::array_as_slice(k));
}

/// Writes the 36-byte optional-key segment at `off`; an absent key writes
/// only the tag, keeping the payload bytes already present.
pub fn write_copt_key(dst: &mut Vec<u8>, off: usize, o: &Option<Pubkey>)
    requires
        off + 36 <= old(dst).len(),
    ensures
        final(dst)@.len() == old(dst)@.len(),
        final(dst)@ == spliced(
            old(dst)@,
            off as int,
            spec_copt_key_enc(opt_key_view(*o), old(dst)@.subrange(off as int, off + 36)),
        ),
{
    match o {
        Some(k) => {
            write_u8_at(dst, off, 1);
            write_u8_at(dst, off + 1, 0);
            write_u8_at(dst, off + 2, 0);
            write_u8_at(dst, off + 3, 0);
            write_key_at(dst, off + 4, k);
            assert(dst@ =~= spliced(
                old(dst)@,
                off as int,
                spec_copt_key_enc(opt_key_view(*o), old(dst)@.subrange(off as int, off + 36)),
            ));
        }
        None => {
            write_u8_at(dst, off, 0);
            write_u8_at(dst, off + 1, 0);
            write_u8_at(dst, off + 2, 0);
            write_u8_at(dst, off + 3, 0);
            assert(dst@ =~= spliced(
                old(dst)@,
                off as int,
                spec_copt_key_enc(opt_key_view(*o), old(dst)@.subrange(off as int, off + 36)),
            ));
        }
    }
}

/// Writes the 12-byte optional-u64 segment at `off`; an absent value writes
/// only the tag, keeping the payload bytes already present.
pub fn write_copt_u64(dst: &mut Vec<u8>, off: usize, o: &Option<u64>)
    requires
        off + 12 <= old(dst).len(),
    ensures
        final(dst)@.len() == old(dst)@.len(),
        final(dst)@ == spliced(
            old(dst)@,
            off as int,
            spec_copt_u64_enc(*o, old(dst)@.subrange(off as int, off + 12)),
        ),
{
    match o {
        Some(v) => {
            write_u8_at(dst, off, 1);
            write_u8_at(dst, off + 1, 0);
            write_u8_at(dst, off + 2, 0);
            write_u8_at(dst, off + 3, 0);
            write_u64_le(dst, off + 4, *v);
            assert(dst@ =~= spliced(
                old(dst)@,
                off as int,
                spec_copt_u64_enc(*o, old(dst)@.subrange(off as int, off + 12)),
            ));
        }
        None => {
            write_u8_at(dst, off, 0);
            write_u8_at(dst, off + 1, 0);
            write_u8_at(dst, off + 2, 0);
            write_u8_at(dst, off + 3, 0);
            assert(dst@ =~= spliced(
                old(dst)@,
                off as int,
                spec_copt_u64_enc(*o, old(dst)@.subrange(off as int, off + 12)),
            ));
        }
    }
}

/// Appends all of `src` to `buf`.
pub fn push_bytes(buf: &mut Vec<u8>, src: &[u8])
    ensures
        final(buf)@ == old(buf)@ + src@,
{
    let n = src.len();
    let mut i: usize = 0;
    while i < n
        invariant
            0 <= i <= n,
            n == src@.len(),
            buf@ == old(buf)@ + src@.take(i as int),
        decreases n - i,
    {
        let b = *vstd::slice::slice_index_get(src, i);
        buf.push(b);
        assert(buf@ =~= old(buf)@ + src@.take(i + 1));
        i = i + 1;
    }
    assert(src@.take(n as int) =~= src@);
}

/// Appends `v` as 8 little-endian bytes.
pub fn push_u64_le(buf: &mut Vec<u8>, v: u64)
    ensures
        final(buf)@ == old(buf)@ + spec_u64_to_le_bytes(v),
{
    let bytes = u64_to_le_bytes(v);
    push_bytes(buf, bytes.as_slice());
}

/// Appends `v` as 2 little-endian bytes.
pub fn push_u16_le(buf: &mut Vec<u8>, v: u16)
    ensures
        final(buf)@ == old(buf)@ + spec_u16_to_le_bytes(v),
{
    let bytes = u16_to_le_bytes(v);
    push_bytes(buf, bytes.as_slice());
}

/// Appends the 32 bytes of `k`.
pub fn push_key(buf: &mut Vec<u8>, k: &Pubkey)
    ensures
        final(buf)@ == old(buf)@ + k@,
{
    push_bytes(buf, vstd::array::array_as_slice(k));
}

} // verus!
