//! What the caches hold, and how a metadata entry is laid out in bytes.

use crate::processing::metadata::le32;
use crate::processing::options::error::utf8_bytes;
use vstd::prelude::*;
use vstd::slice::slice_subrange;
use vstd::utf8::{decode_utf8, encode_utf8, encode_utf8_decode_utf8, encode_utf8_valid_utf8, valid_utf8};

verus! {

/// Default block size of the disk cache: 16 MiB.
pub const DEFAULT_BLOCK_SIZE: usize = 16777216;

/// Smallest block the disk cache is given: 4 KiB.
pub const MIN_BLOCK_SIZE: usize = 4096;

/// The disk cache's block size for a capacity: the capacity, at most the
/// default block size, rounded down to whole 4 KiB blocks, and never less
/// than one block.
pub open spec fn block_size(capacity: nat) -> nat {
    let target = if capacity < DEFAULT_BLOCK_SIZE {
        capacity
    } else {
        DEFAULT_BLOCK_SIZE as nat
    };
    let aligned = (target - target % (MIN_BLOCK_SIZE as nat)) as nat;
    if aligned == 0 {
        MIN_BLOCK_SIZE as nat
    } else {
        aligned
    }
}

/// The disk cache's block size for a capacity.
pub fn block_size_for_capacity(capacity: usize) -> (r: usize)
    ensures
        r == block_size(capacity as nat),
        r % MIN_BLOCK_SIZE == 0,
        MIN_BLOCK_SIZE <= r <= DEFAULT_BLOCK_SIZE,
{
    let target = if capacity < DEFAULT_BLOCK_SIZE {
        capacity
    } else {
        DEFAULT_BLOCK_SIZE
    };
    let aligned = target - target % MIN_BLOCK_SIZE;
    assert((target - target % 4096) % 4096 == 0) by (nonlinear_arith)
        requires
            target >= 0,
    ;
    if aligned == 0 {
        MIN_BLOCK_SIZE
    } else {
        aligned
    }
}

/// Image information kept for lightweight info requests.
#[derive(Debug, Clone, PartialEq, Eq)]
pub struct CachedMetadata {
    pub width: u32,
    pub height: u32,
    pub format: String,
    pub content_type: String,
    pub size_bytes: usize,
    pub channels: u32,
    pub has_alpha: bool,
    pub orientation: u32,
}

/// `x` as four little-endian bytes.
#[verifier::opaque]
pub open spec fn bytes32(x: nat) -> Seq<u8> {
    le32(x)
}

/// `x` as eight little-endian bytes.
#[verifier::opaque]
pub open spec fn bytes64(x: nat) -> Seq<u8> {
    le32(x % 4294967296) + le32(x / 4294967296)
}

proof fn lemma_byte_lengths(x: nat)
    ensures
        bytes32(x).len() == 4,
        bytes64(x).len() == 8,
{
    reveal(bytes32);
    reveal(bytes64);
}

/// The number four little-endian bytes at `i` spell.
pub open spec fn read32(b: Seq<u8>, i: int) -> nat {
    (b[i] + 256 * b[i + 1] + 65536 * b[i + 2] + 16777216 * b[i + 3]) as nat
}

/// The number eight little-endian bytes at `i` spell.
pub open spec fn read64(b: Seq<u8>, i: int) -> nat {
    read32(b, i) + 4294967296 * read32(b, i + 4)
}

/// The fixed-size head of an encoded entry: width, height and the format's
/// length.
pub open spec fn entry_head(m: CachedMetadata) -> Seq<u8> {
    bytes32(m.width as nat) + bytes32(m.height as nat) + bytes64(utf8_bytes(m.format@).len())
}

/// The fixed-size tail of an encoded entry: size, channels, alpha flag and
/// orientation.
pub open spec fn entry_tail(m: CachedMetadata) -> Seq<u8> {
    bytes64(m.size_bytes as nat) + bytes32(m.channels as nat) + seq![
        if m.has_alpha {
            1u8
        } else {
            0u8
        },
    ] + bytes32(m.orientation as nat)
}

/// The bytes of a metadata entry: width and height, the format and content
/// type each as a length and UTF-8 bytes, the size, the channel count, the
/// alpha flag as one byte and the orientation; numbers little-endian, lengths
/// and the size in eight bytes.
pub open spec fn metadata_bytes(m: CachedMetadata) -> Seq<u8> {
    let c = utf8_bytes(m.content_type@);
    entry_head(m) + (utf8_bytes(m.format@) + (bytes64(c.len()) + (c + entry_tail(m))))
}

/// What reading a metadata entry from the start of `b` gives: `None` when the
/// bytes run out, a text is not UTF-8, or the alpha byte is neither 0 nor 1.
/// Bytes after the entry are not read.
pub open spec fn parsed_metadata(b: Seq<u8>) -> Option<(u32, u32, Seq<char>, Seq<char>, nat, u32, bool, u32)> {
    if b.len() < 16 {
        None
    } else {
        let fl = read64(b, 8);
        let fs = 16;
        if fl > b.len() - fs - 8 {
            None
        } else {
            let f = b.subrange(fs, fs + fl);
            let cl = read64(b, fs + fl);
            let cs = fs + fl + 8;
            if cl > b.len() - cs {
                None
            } else {
                let c = b.subrange(cs, cs + cl);
                let rest = cs + cl;
                if b.len() - rest < 17 {
                    None
                } else if !valid_utf8(f) || !valid_utf8(c) {
                    None
                } else if b[rest + 12] > 1 {
                    None
                } else if read64(b, rest) > usize::MAX {
                    None
                } else {
                    Some(
                        (
                            read32(b, 0) as u32,
                            read32(b, 4) as u32,
                            decode_utf8(f),
                            decode_utf8(c),
                            read64(b, rest),
                            read32(b, rest + 8) as u32,
                            b[rest + 12] == 1,
                            read32(b, rest + 13) as u32,
                        ),
                    )
                }
            }
        }
    }
}

proof fn lemma_bytes32(x: u32)
    ensures
        bytes32(x as nat).len() == 4,
        read32(bytes32(x as nat), 0) == x,
{
    reveal(bytes32);
    let b = bytes32(x as nat);
    assert(b[0] == (x % 256) as u8 && b[1] == (x / 256 % 256) as u8);
    assert(b[2] == (x / 65536 % 256) as u8 && b[3] == (x / 16777216 % 256) as u8);
    assert(((x % 256) as u8) as u32 + 256 * (((x / 256 % 256) as u8) as u32) + 65536 * (((x / 65536
        % 256) as u8) as u32) + 16777216 * (((x / 16777216 % 256) as u8) as u32) == x) by (bit_vector);
}

proof fn lemma_bytes64(x: u64)
    ensures
        bytes64(x as nat).len() == 8,
        read64(bytes64(x as nat), 0) == x,
{
    reveal(bytes32);
    reveal(bytes64);
    let lo = (x % 4294967296) as u32;
    let hi = (x / 4294967296) as u32;
    lemma_bytes32(lo);
    lemma_bytes32(hi);
    let b = bytes64(x as nat);
    assert(b.subrange(0, 4) =~= bytes32(lo as nat));
    assert(b.subrange(4, 8) =~= bytes32(hi as nat));
    assert(read32(b, 0) == read32(bytes32(lo as nat), 0));
    assert(read32(b, 4) == read32(bytes32(hi as nat), 0));
    assert(lo as nat + 4294967296 * hi as nat == x) by (nonlinear_arith)
        requires
            lo == (x % 4294967296) as u32,
            hi == (x / 4294967296) as u32,
    ;
}

fn push_bytes32(out: &mut Vec<u8>, x: u32)
    ensures
        final(out)@ == old(out)@ + bytes32(x as nat),
{
    reveal(bytes32);
    out.push((x % 256) as u8);
    out.push((x / 256 % 256) as u8);
    out.push((x / 65536 % 256) as u8);
    out.push((x / 16777216) as u8);
    assert(final(out)@ =~= old(out)@ + bytes32(x as nat));
}

fn push_bytes64(out: &mut Vec<u8>, x: u64)
    ensures
        final(out)@ == old(out)@ + bytes64(x as nat),
{
    reveal(bytes32);
    reveal(bytes64);
    push_bytes32(out, (x % 4294967296) as u32);
    push_bytes32(out, (x / 4294967296) as u32);
    assert(final(out)@ =~= old(out)@ + bytes64(x as nat));
}

fn push_bytes(out: &mut Vec<u8>, bytes: &[u8])
    ensures
        final(out)@ == old(out)@ + bytes@,
{
    let ghost start = out@;
    let mut i: usize = 0;
    while i < bytes.len()
        invariant
            i <= bytes@.len(),
            out@ == start + bytes@.take(i as int),
        decreases bytes@.len() - i,
    {
        out.push(bytes[i]);
        i = i + 1;
        assert(out@ =~= start + bytes@.take(i as int));
    }
    assert(bytes@.take(bytes@.len() as int) =~= bytes@);
}

fn read_u32(b: &[u8], i: usize) -> (r: u32)
    requires
        i + 4 <= b@.len(),
    ensures
        r == read32(b@, i as int),
{
    b[i] as u32 + 256 * (b[i + 1] as u32) + 65536 * (b[i + 2] as u32) + 16777216 * (b[i + 3] as u32)
}

fn read_u64(b: &[u8], i: usize) -> (r: u64)
    requires
        i + 8 <= b@.len() <= usize::MAX,
    ensures
        r == read64(b@, i as int),
{
    let lo = read_u32(b, i) as u64;
    let hi = read_u32(b, i + 4) as u64;
    assert(4294967296 * hi <= 4294967296 * 4294967295u64) by (nonlinear_arith)
        requires
            hi <= 4294967295u64,
    ;
    lo + 4294967296 * hi
}

impl CachedMetadata {
    /// The entry's bytes. Sizes take eight bytes, as a `usize` does on the
    /// 64-bit targets the server runs on.
    pub fn encode(&self) -> (r: Vec<u8>)
        ensures
            r@ == metadata_bytes(*self),
    {
        let mut out: Vec<u8> = Vec::new();
        push_bytes32(&mut out, self.width);
        push_bytes32(&mut out, self.height);
        let f = self.format.as_str().as_bytes();
        push_bytes64(&mut out, f.len() as u64);
        push_bytes(&mut out, f);
        let c = self.content_type.as_str().as_bytes();
        push_bytes64(&mut out, c.len() as u64);
        push_bytes(&mut out, c);
        push_bytes64(&mut out, self.size_bytes as u64);
        push_bytes32(&mut out, self.channels);
        out.push(
            if self.has_alpha {
                1u8
            } else {
                0u8
            },
        );
        push_bytes32(&mut out, self.orientation);
        assert(out@ =~= entry_head(*self) + (utf8_bytes(self.format@) + (bytes64(
            utf8_bytes(self.content_type@).len(),
        ) + (utf8_bytes(self.content_type@) + entry_tail(*self)))));
        out
    }

    /// Reads an entry from the start of `bytes`.
    pub fn decode(bytes: &[u8]) -> (r: Option<Self>)
        ensures
            match parsed_metadata(bytes@) {
                Some(p) => r matches Some(m) && m.width == p.0 && m.height == p.1 && m.format@ == p.2
                    && m.content_type@ == p.3 && m.size_bytes == p.4 && m.channels == p.5
                    && m.has_alpha == p.6 && m.orientation == p.7,
                None => r is None,
            },
    {
        let b = bytes;
        if b.len() < 16 {
            return None;
        }
        let width = read_u32(b, 0);
        let height = read_u32(b, 4);
        let fl = read_u64(b, 8);
        if b.len() < 24 || fl > (b.len() - 24) as u64 {
            return None;
        }
        let fs: usize = 16;
        let fe = fs + fl as usize;
        let cl = read_u64(b, fe);
        let cs = fe + 8;
        if cl > (b.len() - cs) as u64 {
            return None;
        }
        let ce = cs + cl as usize;
        if b.len() - ce < 17 {
            return None;
        }
        let f = slice_subrange(b, fs, fe);
        let c = slice_subrange(b, cs, ce);
        let mut fv: Vec<u8> = Vec::new();
        push_bytes(&mut fv, f);
        let mut cv: Vec<u8> = Vec::new();
        push_bytes(&mut cv, c);
        let format = match crate::processing::options::error::string_from_utf8(fv) {
            Ok(s) => s,
            Err(_) => {
                return None;
            },
        };
        let content_type = match crate::processing::options::error::string_from_utf8(cv) {
            Ok(s) => s,
            Err(_) => {
                return None;
            },
        };
        if b[ce + 12] > 1 {
            return None;
        }
        let size = read_u64(b, ce);
        if size > usize::MAX as u64 {
            return None;
        }
        Some(
            CachedMetadata {
                width,
                height,
                format,
                content_type,
                size_bytes: size as usize,
                channels: read_u32(b, ce + 8),
                has_alpha: b[ce + 12] == 1,
                orientation: read_u32(b, ce + 13),
            },
        )
    }
}

proof fn lemma_read32_at(b: Seq<u8>, i: int, x: u32)
    requires
        0 <= i,
        i + 4 <= b.len(),
        b.subrange(i, i + 4) == bytes32(x as nat),
    ensures
        read32(b, i) == x,
{
    lemma_bytes32(x);
    let s = b.subrange(i, i + 4);
    assert(s[0] == b[i] && s[1] == b[i + 1] && s[2] == b[i + 2] && s[3] == b[i + 3]);
}

proof fn lemma_read64_at(b: Seq<u8>, i: int, x: u64)
    requires
        0 <= i,
        i + 8 <= b.len(),
        b.subrange(i, i + 8) == bytes64(x as nat),
    ensures
        read64(b, i) == x,
{
    lemma_bytes64(x);
    let s = b.subrange(i, i + 8);
    assert(s[0] == b[i] && s[1] == b[i + 1] && s[2] == b[i + 2] && s[3] == b[i + 3]);
    assert(s[4] == b[i + 4] && s[5] == b[i + 5] && s[6] == b[i + 6] && s[7] == b[i + 7]);
}

proof fn lemma_head(m: CachedMetadata, rest: Seq<u8>)
    requires
        utf8_bytes(m.format@).len() <= u64::MAX,
    ensures
        ({
            let b = metadata_bytes(m) + rest;
            &&& read32(b, 0) == m.width
            &&& read32(b, 4) == m.height
            &&& read64(b, 8) == utf8_bytes(m.format@).len()
        }),
{
    let b = metadata_bytes(m) + rest;
    let h = entry_head(m);
    let f = utf8_bytes(m.format@);
    lemma_byte_lengths(m.width as nat);
    lemma_byte_lengths(m.height as nat);
    lemma_byte_lengths(f.len());
    assert(h.len() == 16);
    assert forall|i: int| 0 <= i < 16 implies b[i] == h[i] by {}
    assert(h.subrange(0, 4) =~= bytes32(m.width as nat));
    lemma_read32_at(h, 0, m.width);
    assert(h.subrange(4, 8) =~= bytes32(m.height as nat));
    lemma_read32_at(h, 4, m.height);
    assert(h.subrange(8, 16) =~= bytes64(f.len()));
    lemma_read64_at(h, 8, f.len() as u64);
}

proof fn lemma_texts(m: CachedMetadata, rest: Seq<u8>)
    requires
        utf8_bytes(m.content_type@).len() <= u64::MAX,
    ensures
        ({
            let b = metadata_bytes(m) + rest;
            let f = utf8_bytes(m.format@);
            let c = utf8_bytes(m.content_type@);
            let fe = 16 + f.len() as int;
            let cs = fe + 8;
            &&& b.subrange(16, fe) == f
            &&& read64(b, fe) == c.len()
            &&& b.subrange(cs, cs + c.len() as int) == c
        }),
{
    let b = metadata_bytes(m) + rest;
    let f = utf8_bytes(m.format@);
    let c = utf8_bytes(m.content_type@);
    let l = bytes64(c.len());
    let x = f + (l + (c + entry_tail(m)));
    let fe = 16 + f.len() as int;
    let cs = fe + 8;
    lemma_byte_lengths(m.width as nat);
    lemma_byte_lengths(m.height as nat);
    lemma_byte_lengths(f.len());
    lemma_byte_lengths(c.len());
    assert(entry_head(m).len() == 16);
    assert forall|i: int| 0 <= i < x.len() implies b[16 + i] == x[i] by {}
    assert(b.subrange(16, fe) =~= f);
    assert forall|i: int| 0 <= i < 8 implies b[fe + i] == l[i] by {
        assert(b[fe + i] == x[f.len() + i]);
    }
    assert(b.subrange(fe, cs) =~= l);
    lemma_read64_at(b, fe, c.len() as u64);
    assert forall|i: int| 0 <= i < c.len() implies b[cs + i] == c[i] by {
        assert(b[cs + i] == x[f.len() + 8 + i]);
    }
    assert(b.subrange(cs, cs + c.len() as int) =~= c);
}

proof fn lemma_tail(m: CachedMetadata, rest: Seq<u8>)
    ensures
        ({
            let b = metadata_bytes(m) + rest;
            let rs = 24 + utf8_bytes(m.format@).len() as int + utf8_bytes(m.content_type@).len() as int;
            &&& b.len() == rs + 17 + rest.len()
            &&& read64(b, rs) == m.size_bytes
            &&& read32(b, rs + 8) == m.channels
            &&& b[rs + 12] == (if m.has_alpha {
                1u8
            } else {
                0u8
            })
            &&& read32(b, rs + 13) == m.orientation
        }),
{
    let b = metadata_bytes(m) + rest;
    let f = utf8_bytes(m.format@);
    let c = utf8_bytes(m.content_type@);
    let t = entry_tail(m);
    let rs = 24 + f.len() as int + c.len() as int;
    lemma_byte_lengths(m.width as nat);
    lemma_byte_lengths(m.height as nat);
    lemma_byte_lengths(f.len());
    lemma_byte_lengths(c.len());
    lemma_byte_lengths(m.size_bytes as nat);
    lemma_byte_lengths(m.channels as nat);
    lemma_byte_lengths(m.orientation as nat);
    assert(entry_head(m).len() == 16);
    assert(t.len() == 17);
    assert forall|i: int| 0 <= i < 17 implies b[rs + i] == t[i] by {
        let x = f + (bytes64(c.len()) + (c + t));
        assert(b[rs + i] == x[rs - 16 + i]);
        let y = bytes64(c.len()) + (c + t);
        assert(x[rs - 16 + i] == y[rs - 16 - f.len() + i]);
        let z = c + t;
        assert(y[rs - 16 - f.len() + i] == z[c.len() + i]);
    }
    assert(t.subrange(0, 8) =~= bytes64(m.size_bytes as nat));
    lemma_read64_at(t, 0, m.size_bytes as u64);
    assert(t.subrange(8, 12) =~= bytes32(m.channels as nat));
    lemma_read32_at(t, 8, m.channels);
    assert(t.subrange(13, 17) =~= bytes32(m.orientation as nat));
    lemma_read32_at(t, 13, m.orientation);
}

/// A metadata entry reads back as it was written, whatever follows it: the
/// bytes an entry is encoded to decode to the same width, height, texts,
/// size, channels, alpha flag and orientation.
pub proof fn lemma_metadata_round_trip(m: CachedMetadata, rest: Seq<u8>)
    requires
        utf8_bytes(m.format@).len() <= u64::MAX,
        utf8_bytes(m.content_type@).len() <= u64::MAX,
    ensures
        parsed_metadata(metadata_bytes(m) + rest) == Some(
            (
                m.width,
                m.height,
                m.format@,
                m.content_type@,
                m.size_bytes as nat,
                m.channels,
                m.has_alpha,
                m.orientation,
            ),
        ),
{
    lemma_bytes32(m.width);
    lemma_bytes64(m.size_bytes as u64);
    lemma_bytes32(m.channels);
    lemma_bytes32(m.orientation);
    lemma_head(m, rest);
    lemma_texts(m, rest);
    lemma_tail(m, rest);
    encode_utf8_valid_utf8(m.format@);
    encode_utf8_valid_utf8(m.content_type@);
    encode_utf8_decode_utf8(m.format@);
    encode_utf8_decode_utf8(m.content_type@);
}

} // verus!
