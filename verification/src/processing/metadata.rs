//! Finding and re-attaching source metadata in JPEG byte streams.
//!
//! `keep_copyright` needs one field carried across a strip that libvips can
//! only perform wholesale, so the copyright is written back as a minimal Exif
//! APP1 segment of its own; `enforce_thumbnail` needs the Exif block of the
//! source found before anything is decoded.

use crate::processing::options::error::utf8_bytes;
use crate::processing::transform::{orientation_fix, spec_orientation_fix, OrientationFix};
use vstd::prelude::*;
use vstd::slice::slice_subrange;
use vstd::string::StringSliceAdditionalSpecFns;

verus! {

/// The identifier that opens the Exif payload of an APP1 segment: `Exif\0\0`.
pub open spec fn exif_identifier() -> Seq<u8> {
    seq![0x45u8, 0x78u8, 0x69u8, 0x66u8, 0u8, 0u8]
}

/// EXIF tag of the copyright notice.
pub const TAG_COPYRIGHT: u16 = 0x8298;

/// EXIF tag of the artist.
pub const TAG_ARTIST: u16 = 0x013B;

/// A copyright statement recovered from a source image.
#[derive(Debug, Clone, PartialEq, Eq)]
pub struct Copyright {
    pub copyright: Option<String>,
    pub artist: Option<String>,
}

impl Default for Copyright {
    fn default() -> (r: Self)
        ensures
            r.copyright is None && r.artist is None,
    {
        Copyright { copyright: None, artist: None }
    }
}

impl Copyright {
    /// Whether there is nothing to carry.
    pub fn is_empty(&self) -> (r: bool)
        ensures
            r == (self.copyright is None && self.artist is None),
    {
        self.copyright.is_none() && self.artist.is_none()
    }
}

/// The Exif TIFF block of the first APP1 Exif segment at or after `offset`,
/// as a range of the bytes, scanning the segments up to the start of scan.
pub open spec fn exif_block_from(b: Seq<u8>, offset: int) -> Option<(int, int)>
    decreases b.len() - offset,
{
    if offset < 0 || offset + 4 > b.len() {
        None
    } else if b[offset] != 0xFF {
        None
    } else if b[offset + 1] == 0xDA {
        None
    } else {
        let length = b[offset + 2] * 256 + b[offset + 3];
        let start = offset + 4;
        if length < 2 {
            None
        } else if start + length - 2 > b.len() {
            None
        } else {
            let end = start + length - 2;
            if b[offset + 1] == 0xE1 && end - start >= 6 && b.subrange(start, start + 6)
                == exif_identifier() {
                Some((start + 6, end))
            } else {
                exif_block_from(b, end)
            }
        }
    }
}

/// The Exif TIFF block inside a JPEG's APP1 segment, as a range of the bytes.
pub open spec fn exif_block(b: Seq<u8>) -> Option<(int, int)> {
    if b.len() < 4 || b[0] != 0xFF || b[1] != 0xD8 {
        None
    } else {
        exif_block_from(b, 2)
    }
}

/// Locates the Exif TIFF block inside a JPEG's APP1 segment, without copying.
pub fn jpeg_exif_block(image_bytes: &[u8]) -> (r: Option<&[u8]>)
    ensures
        match exif_block(image_bytes@) {
            Some((s, e)) => r matches Some(x) && x@ == image_bytes@.subrange(s, e),
            None => r is None,
        },
{
    let b = image_bytes;
    if b.len() < 4 || b[0] != 0xFF || b[1] != 0xD8 {
        return None;
    }
    let mut offset: usize = 2;
    while b.len() - offset >= 4
        invariant
            b@ == image_bytes@,
            2 <= offset <= b@.len(),
            b@.len() >= 4 && b@[0] == 0xFF && b@[1] == 0xD8,
            exif_block(b@) == exif_block_from(b@, offset as int),
        decreases b@.len() - offset,
    {
        let ghost here = exif_block_from(b@, offset as int);
        if b[offset] != 0xFF {
            assert(here is None);
            return None;
        }
        let marker = b[offset + 1];
        if marker == 0xDA {
            assert(here is None);
            return None;
        }
        let length: usize = b[offset + 2] as usize * 256 + b[offset + 3] as usize;
        assert(length == b@[offset + 2] * 256 + b@[offset + 3]);
        if length < 2 {
            assert(here is None);
            return None;
        }
        let start = offset + 4;
        if length - 2 > b.len() - start {
            assert(here is None);
            return None;
        }
        let end = start + (length - 2);
        let ident = marker == 0xE1 && end - start >= 6 && b[start] == 0x45 && b[start + 1] == 0x78
            && b[start + 2] == 0x69 && b[start + 3] == 0x66 && b[start + 4] == 0 && b[start + 5] == 0;
        proof {
            if marker == 0xE1 && end - start >= 6 {
                let sub = b@.subrange(start as int, start + 6);
                if ident {
                    assert(sub =~= exif_identifier());
                } else {
                    assert(sub[0] == b@[start as int] && sub[1] == b@[start + 1] && sub[2] == b@[start
                        + 2]);
                    assert(sub[3] == b@[start + 3] && sub[4] == b@[start + 4] && sub[5] == b@[start
                        + 5]);
                    assert(sub != exif_identifier());
                }
            }
        }
        if ident {
            assert(here == Some((start + 6, end as int)));
            return Some(slice_subrange(b, start + 6, end));
        }
        assert(here == exif_block_from(b@, end as int));
        offset = end;
    }
    assert(exif_block_from(b@, offset as int) is None);
    None
}

/// `x` as two little-endian bytes.
pub open spec fn le16(x: nat) -> Seq<u8> {
    seq![(x % 256) as u8, (x / 256 % 256) as u8]
}

/// `x` as four little-endian bytes.
pub open spec fn le32(x: nat) -> Seq<u8> {
    seq![(x % 256) as u8, (x / 256 % 256) as u8, (x / 65536 % 256) as u8, (x / 16777216 % 256) as u8]
}

fn push_le16(out: &mut Vec<u8>, x: u16)
    ensures
        final(out)@ == old(out)@ + le16(x as nat),
{
    out.push((x % 256) as u8);
    out.push((x / 256) as u8);
    assert(final(out)@ =~= old(out)@ + le16(x as nat));
}

fn push_le32(out: &mut Vec<u8>, x: u32)
    ensures
        final(out)@ == old(out)@ + le32(x as nat),
{
    out.push((x % 256) as u8);
    out.push((x / 256 % 256) as u8);
    out.push((x / 65536 % 256) as u8);
    out.push((x / 16777216) as u8);
    assert(final(out)@ =~= old(out)@ + le32(x as nat));
}

fn push_all(out: &mut Vec<u8>, bytes: &[u8])
    ensures
        final(out)@ == old(out)@ + bytes@,
{
    let ghost start = out@;
    let mut i: usize = 0;
    while i < bytes.len()
        invariant
            i <= bytes@.len(),
            out@ == start + bytes@.take(i as int),
        decreases bytes@.len() - i,
    {
        out.push(bytes[i]);
        i = i + 1;
        assert(out@ =~= start + bytes@.take(i as int));
    }
    assert(bytes@.take(bytes@.len() as int) =~= bytes@);
}

/// The bytes of some text followed by a NUL, as an EXIF ASCII value holds it.
pub fn nul_terminated(value: &str) -> (r: Vec<u8>)
    ensures
        r@ == utf8_bytes(value@).push(0),
{
    let mut bytes: Vec<u8> = Vec::new();
    push_all(&mut bytes, value.as_bytes());
    bytes.push(0);
    assert(bytes@ =~= utf8_bytes(value@).push(0));
    bytes
}

/// The entries of the directory for a copyright: the copyright notice, then
/// the artist, each as a NUL-terminated ASCII value.
pub open spec fn copyright_entries(c: Copyright) -> Seq<(u16, Seq<u8>)> {
    (match c.copyright {
        Some(v) => seq![(TAG_COPYRIGHT, utf8_bytes(v@).push(0))],
        None => seq![],
    }) + (match c.artist {
        Some(v) => seq![(TAG_ARTIST, utf8_bytes(v@).push(0))],
        None => seq![],
    })
}

/// Four bytes holding a short value, zero-filled.
pub open spec fn inline_value(v: Seq<u8>) -> Seq<u8> {
    v + Seq::new((4 - v.len()) as nat, |i: int| 0u8)
}

/// The values area with a value appended, kept to an even length.
pub open spec fn padded(v: Seq<u8>) -> Seq<u8> {
    if v.len() % 2 == 1 {
        v.push(0)
    } else {
        v
    }
}

/// One entry added to a directory and values area, for a directory ending at
/// `directory_end`: a value of at most four bytes sits in its entry, a longer
/// one in the values area at an offset the entry gives. `None` when that
/// offset does not fit in four bytes.
pub open spec fn layout_step(entry: (u16, Seq<u8>), d: Seq<u8>, v: Seq<u8>, directory_end: nat) -> Option<
    (Seq<u8>, Seq<u8>),
> {
    let head = le16(entry.0 as nat) + le16(2) + le32(entry.1.len());
    if entry.1.len() > u32::MAX {
        None
    } else if entry.1.len() <= 4 {
        Some((d + head + inline_value(entry.1), v))
    } else if directory_end + v.len() > u32::MAX {
        None
    } else {
        Some((d + head + le32(directory_end + v.len()), padded(v + entry.1)))
    }
}

/// The directory entries and the values area of the first `n` entries.
pub open spec fn layout(entries: Seq<(u16, Seq<u8>)>, n: nat, directory_end: nat) -> Option<
    (Seq<u8>, Seq<u8>),
>
    decreases n,
{
    if n == 0 {
        Some((seq![], seq![]))
    } else {
        match layout(entries, (n - 1) as nat, directory_end) {
            None => None,
            Some((d, v)) => layout_step(entries[n - 1], d, v, directory_end),
        }
    }
}

fn push_inline(directory: &mut Vec<u8>, value: &[u8])
    requires
        value@.len() <= 4,
    ensures
        final(directory)@ == old(directory)@ + inline_value(value@),
{
    let ghost before = directory@;
    let mut k: usize = 0;
    while k < 4
        invariant
            value@.len() <= 4,
            k <= 4,
            directory@ == before + inline_value(value@).take(k as int),
        decreases 4 - k,
    {
        let byte = if k < value.len() {
            value[k]
        } else {
            0
        };
        directory.push(byte);
        k = k + 1;
        assert(directory@ =~= before + inline_value(value@).take(k as int));
    }
    assert(inline_value(value@).take(4) =~= inline_value(value@));
}

fn push_padded(values: &mut Vec<u8>, value: &[u8])
    ensures
        final(values)@ == padded(old(values)@ + value@),
{
    push_all(values, value);
    if values.len() % 2 == 1 {
        values.push(0);
    }
}

fn append_entry(
    directory: &mut Vec<u8>,
    values: &mut Vec<u8>,
    tag: u16,
    value: &[u8],
    directory_end: usize,
) -> (r: bool)
    requires
        directory_end <= 100,
    ensures
        match layout_step((tag, value@), old(directory)@, old(values)@, directory_end as nat) {
            Some((d, v)) => r && final(directory)@ == d && final(values)@ == v,
            None => !r,
        },
{
    if value.len() > u32::MAX as usize {
        return false;
    }
    if value.len() > 4 && values.len() > u32::MAX as usize - directory_end {
        return false;
    }
    let ghost d0 = directory@;
    let ghost head = le16(tag as nat) + le16(2) + le32(value@.len());
    push_le16(directory, tag);
    push_le16(directory, 2);
    push_le32(directory, value.len() as u32);
    assert(directory@ =~= d0 + head);
    if value.len() <= 4 {
        push_inline(directory, value);
    } else {
        let offset = (directory_end + values.len()) as u32;
        push_le32(directory, offset);
        push_padded(values, value);
    }
    true
}

/// A minimal little-endian Exif APP1 payload carrying only the fields of
/// `c`, or `None` when there are none or the segment would be too long.
pub open spec fn exif_payload(c: Copyright) -> Option<Seq<u8>> {
    let entries = copyright_entries(c);
    let n = entries.len();
    let directory_end = 8 + 2 + n * 12 + 4;
    if n == 0 {
        None
    } else {
        match layout(entries, n, directory_end) {
            None => None,
            Some((d, v)) => {
                let p = exif_identifier() + seq![0x49u8, 0x49u8] + le16(42) + le32(8) + le16(n) + d
                    + le32(0) + v;
                if p.len() + 2 <= u16::MAX {
                    Some(p)
                } else {
                    None
                }
            },
        }
    }
}

/// Builds a minimal little-endian Exif APP1 payload carrying only the fields in
/// `copyright`. IFD0 sits at offset 8, right after the TIFF header, and there
/// is no IFD1: the thumbnail, if there was one, went with the strip.
pub fn build_exif_payload(copyright: &Copyright) -> (r: Option<Vec<u8>>)
    ensures
        match exif_payload(*copyright) {
            Some(p) => r matches Some(x) && x@ == p,
            None => r is None,
        },
{
    let mut entries: Vec<(u16, Vec<u8>)> = Vec::new();
    match &copyright.copyright {
        Some(v) => entries.push((TAG_COPYRIGHT, nul_terminated(v.as_str()))),
        None => {},
    }
    match &copyright.artist {
        Some(v) => entries.push((TAG_ARTIST, nul_terminated(v.as_str()))),
        None => {},
    }
    let ghost es = entries@.map_values(|e: (u16, Vec<u8>)| (e.0, e.1@));
    assert(es =~= copyright_entries(*copyright));
    if entries.len() == 0 {
        return None;
    }
    let count = entries.len();
    let directory_end: usize = 8 + 2 + count * 12 + 4;
    let mut directory: Vec<u8> = Vec::new();
    let mut values: Vec<u8> = Vec::new();
    let mut i: usize = 0;
    while i < count
        invariant
            count == entries@.len(),
            1 <= count <= 2,
            directory_end == 8 + 2 + count * 12 + 4,
            es == entries@.map_values(|e: (u16, Vec<u8>)| (e.0, e.1@)),
            es == copyright_entries(*copyright),
            i <= count,
            layout(es, i as nat, directory_end as nat) == Some((directory@, values@)),
        decreases count - i,
    {
        assert(es[i as int] == (entries@[i as int].0, entries@[i as int].1@));
        let ghost d_before = directory@;
        let ghost v_before = values@;
        assert(layout(es, (i + 1) as nat, directory_end as nat) == layout_step(
            es[i as int],
            d_before,
            v_before,
            directory_end as nat,
        ));
        if !append_entry(&mut directory, &mut values, entries[i].0, entries[i].1.as_slice(), directory_end) {
            proof {
                lemma_layout_refusal_sticks(es, (i + 1) as nat, count as nat, directory_end as nat);
            }
            return None;
        }
        i = i + 1;
    }
    assemble_payload(count, directory, values)
}

fn assemble_payload(count: usize, directory: Vec<u8>, values: Vec<u8>) -> (r: Option<Vec<u8>>)
    requires
        1 <= count <= 2,
    ensures
        ({
            let p = exif_identifier() + seq![0x49u8, 0x49u8] + le16(42) + le32(8) + le16(count as nat)
                + directory@ + le32(0) + values@;
            if p.len() + 2 <= u16::MAX {
                r matches Some(x) && x@ == p
            } else {
                r is None
            }
        }),
{
    let mut payload: Vec<u8> = Vec::new();
    payload.push(0x45);
    payload.push(0x78);
    payload.push(0x69);
    payload.push(0x66);
    payload.push(0);
    payload.push(0);
    payload.push(0x49);
    payload.push(0x49);
    assert(payload@ =~= exif_identifier() + seq![0x49u8, 0x49u8]);
    push_le16(&mut payload, 42);
    push_le32(&mut payload, 8);
    push_le16(&mut payload, count as u16);
    push_all(&mut payload, directory.as_slice());
    push_le32(&mut payload, 0);
    push_all(&mut payload, values.as_slice());
    if payload.len() <= u16::MAX as usize - 2 {
        Some(payload)
    } else {
        None
    }
}

proof fn lemma_layout_refusal_sticks(entries: Seq<(u16, Seq<u8>)>, i: nat, n: nat, directory_end: nat)
    requires
        i <= n,
        layout(entries, i, directory_end) is None,
    ensures
        layout(entries, n, directory_end) is None,
    decreases n - i,
{
    if n > i {
        lemma_layout_refusal_sticks(entries, i, (n - 1) as nat, directory_end);
    }
}

/// What re-attaching a copyright makes of encoded bytes: an APP1 segment
/// holding the Exif payload, right after the JPEG start-of-image marker; the
/// bytes unchanged when there is nothing to attach, the output is not a JPEG,
/// or no payload can be built.
pub open spec fn with_copyright(encoded: Seq<u8>, c: Copyright) -> Seq<u8> {
    if c.copyright is None && c.artist is None {
        encoded
    } else if encoded.len() < 2 || encoded[0] != 0xFF || encoded[1] != 0xD8 {
        encoded
    } else {
        match exif_payload(c) {
            None => encoded,
            Some(p) => encoded.take(2) + seq![0xFFu8, 0xE1u8, ((p.len() + 2) / 256) as u8, ((
            p.len() + 2) % 256) as u8] + p + encoded.skip(2),
        }
    }
}

/// Re-attaches a copyright statement to encoded JPEG bytes.
///
/// Only JPEG: it carries EXIF natively and is what nearly every
/// copyright-bearing source uses. The input comes back untouched when there is
/// nothing to attach or the output is not a JPEG, so callers can apply it
/// unconditionally.
pub fn attach_copyright(encoded: Vec<u8>, copyright: &Copyright) -> (r: Vec<u8>)
    ensures
        r@ == with_copyright(encoded@, *copyright),
{
    if copyright.is_empty() {
        return encoded;
    }
    if encoded.len() < 2 || encoded[0] != 0xFF || encoded[1] != 0xD8 {
        return encoded;
    }
    let payload = match build_exif_payload(copyright) {
        Some(p) => p,
        None => {
            return encoded;
        },
    };
    let length = payload.len() + 2;
    let mut out: Vec<u8> = Vec::new();
    out.push(encoded[0]);
    out.push(encoded[1]);
    out.push(0xFF);
    out.push(0xE1);
    out.push((length / 256) as u8);
    out.push((length % 256) as u8);
    push_all(&mut out, payload.as_slice());
    let rest = slice_subrange(encoded.as_slice(), 2, encoded.len());
    push_all(&mut out, rest);
    assert(out@ =~= with_copyright(encoded@, *copyright));
    out
}

/// Re-attaching a copyright is idempotent on everything it leaves alone: with
/// nothing to attach, or bytes that are not a JPEG, the bytes come back as
/// they were.
pub proof fn lemma_nothing_to_attach_is_identity(encoded: Seq<u8>, c: Copyright)
    requires
        (c.copyright is None && c.artist is None) || encoded.len() < 2 || encoded[0] != 0xFF
            || encoded[1] != 0xD8,
    ensures
        with_copyright(encoded, c) == encoded,
{
}

/// A copyright attached to a JPEG is found again where a reader of the JPEG
/// looks for it: the first Exif block of the result is the TIFF block of the
/// payload that was spliced in.
pub proof fn lemma_attached_copyright_is_found(encoded: Seq<u8>, c: Copyright)
    requires
        !(c.copyright is None && c.artist is None),
        encoded.len() >= 2,
        encoded[0] == 0xFF,
        encoded[1] == 0xD8,
        exif_payload(c) is Some,
    ensures
        ({
            let p = exif_payload(c)->0;
            let out = with_copyright(encoded, c);
            exif_block(out) matches Some((s, e)) && out.subrange(s, e) == p.skip(6)
        }),
{
    let p = exif_payload(c)->0;
    let out = with_copyright(encoded, c);
    assert(p.subrange(0, 6) =~= exif_identifier()) by {
        let entries = copyright_entries(c);
        let n = entries.len();
        let (d, v) = layout(entries, n, 8 + 2 + n * 12 + 4)->0;
        assert(p =~= exif_identifier() + (seq![0x49u8, 0x49u8] + le16(42) + le32(8) + le16(n) + d
            + le32(0) + v));
    }
    let length = p.len() + 2;
    assert(out[2] == 0xFF && out[3] == 0xE1);
    assert(out[4] == (length / 256) as u8 && out[5] == (length % 256) as u8);
    assert(out[4] * 256 + out[5] == length) by (nonlinear_arith)
        requires
            length <= 65535,
            out[4] == (length / 256) as u8,
            out[5] == (length % 256) as u8,
    ;
    assert(out.subrange(6, 12) =~= p.subrange(0, 6));
    assert(out.subrange(12, 6 + p.len() as int) =~= p.skip(6));
}

/// The thumbnail the Exif fields place at `offset` for `length` bytes of the
/// TIFF block, when it lies within the block and is a JPEG stream.
pub open spec fn thumbnail_in(tiff: Seq<u8>, offset: nat, length: nat) -> Option<Seq<u8>> {
    if length == 0 || offset + length > tiff.len() {
        None
    } else {
        let t = tiff.subrange(offset as int, (offset + length) as int);
        if t.len() >= 2 && t[0] == 0xFF && t[1] == 0xD8 {
            Some(t)
        } else {
            None
        }
    }
}

/// Cuts the embedded thumbnail out of a TIFF block, given where its Exif
/// fields say it is; anything that is not a JPEG stream is refused.
pub fn thumbnail_from_block(tiff: &[u8], offset: u64, length: u64) -> (r: Option<Vec<u8>>)
    ensures
        match thumbnail_in(tiff@, offset as nat, length as nat) {
            Some(t) => r matches Some(x) && x@ == t,
            None => r is None,
        },
{
    if length == 0 || offset > tiff.len() as u64 || length > tiff.len() as u64 - offset {
        return None;
    }
    let start = offset as usize;
    let end = start + length as usize;
    let t = slice_subrange(tiff, start, end);
    if t.len() >= 2 && t[0] == 0xFF && t[1] == 0xD8 {
        let mut out: Vec<u8> = Vec::new();
        push_all(&mut out, t);
        assert(out@ =~= t@);
        Some(out)
    } else {
        None
    }
}

/// The text values the field with this tag in the primary image's TIFF IFD
/// holds: `None` when the data carries no readable Exif, the field is absent,
/// or it holds something other than text.
pub uninterp spec fn exif_ascii_field(image: Seq<u8>, tag: u16) -> Option<Seq<Seq<u8>>>;

/// The byte strings of a list of text values.
pub open spec fn byte_strings(v: Seq<Vec<u8>>) -> Seq<Seq<u8>> {
    v.map_values(|b: Vec<u8>| b@)
}

/// `exif::Reader::read_from_container` over the image bytes, then
/// `Exif::get_field` for the tag in the primary IFD, handing back an `Ascii`
/// value's byte strings. What the Exif reader accepts is the crate's own
/// parsing, so the result is named rather than described.
#[verifier::external_body]
fn primary_ascii_field(image_bytes: &[u8], tag: u16) -> (r: Option<Vec<Vec<u8>>>)
    ensures
        match r {
            Some(v) => exif_ascii_field(image_bytes@, tag) == Some(byte_strings(v@)),
            None => exif_ascii_field(image_bytes@, tag) is None,
        },
{
    let mut cursor = std::io::Cursor::new(image_bytes);
    let exif = match exif::Reader::new().read_from_container(&mut cursor) {
        Ok(e) => e,
        Err(_) => return None,
    };
    match exif.get_field(exif::Tag(exif::Context::Tiff, tag), exif::In::PRIMARY) {
        Some(field) => match &field.value {
            exif::Value::Ascii(values) => Some(values.clone()),
            _ => None,
        },
        None => None,
    }
}

/// What the Exif reader makes of an image's orientation: the first value of
/// the `Orientation` field in the primary IFD, when the image carries Exif that
/// parses and the field holds an unsigned number.
pub uninterp spec fn exif_orientation_value(image: Seq<u8>) -> Option<u32>;

/// `exif::Reader::read_from_container` over the image bytes, then
/// `Exif::get_field(Tag::Orientation, In::PRIMARY)` and `Value::get_uint(0)`.
/// What the reader accepts is the crate's own parsing, so the result is named.
#[verifier::external_body]
fn primary_orientation(image_bytes: &[u8]) -> (r: Option<u32>)
    ensures
        r == exif_orientation_value(image_bytes@),
{
    let mut cursor = std::io::Cursor::new(image_bytes);
    let exif = exif::Reader::new().read_from_container(&mut cursor).ok()?;
    exif.get_field(exif::Tag::Orientation, exif::In::PRIMARY)?.value.get_uint(0)
}

/// What turns a source upright before it is processed: nothing unless
/// `auto_rotate` is on, and then the fix its Exif orientation asks for.
pub fn source_orientation_fix(image_bytes: &[u8], auto_rotate: bool) -> (r: Option<OrientationFix>)
    ensures
        r == (if auto_rotate {
            match exif_orientation_value(image_bytes@) {
                Some(o) => spec_orientation_fix(o),
                None => None,
            }
        } else {
            None
        }),
{
    if !auto_rotate {
        return None;
    }
    match primary_orientation(image_bytes) {
        Some(o) => orientation_fix(o),
        None => None,
    }
}

/// What lossy UTF-8 decoding makes of some bytes: each invalid sequence
/// becomes U+FFFD.
pub uninterp spec fn utf8_lossy(bytes: Seq<u8>) -> Seq<char>;

/// `String::from_utf8_lossy`, made owned. Valid UTF-8 decodes as it is; where
/// the replacement characters go for invalid input is std's rule, so that
/// result is named.
#[verifier::external_body]
fn lossy_text(bytes: &[u8]) -> (r: String)
    ensures
        r@ == utf8_lossy(bytes@),
        vstd::utf8::valid_utf8(bytes@) ==> r@ == vstd::utf8::decode_utf8(bytes@),
{
    String::from_utf8_lossy(bytes).into_owned()
}

/// The text of a list of values, decoded and joined.
pub open spec fn lossy_joined(values: Seq<Seq<u8>>) -> Seq<char>
    decreases values.len(),
{
    if values.len() == 0 {
        Seq::empty()
    } else {
        lossy_joined(values.drop_last()) + utf8_lossy(values.last())
    }
}

/// A text field's value: the values joined, NULs and then whitespace trimmed
/// from both ends; `None` when nothing is left.
pub open spec fn field_text(values: Option<Seq<Seq<u8>>>) -> Option<Seq<char>> {
    match values {
        None => None,
        Some(v) => {
            let t = crate::text::trim(crate::text::trim_char(lossy_joined(v), '\0'));
            if t.len() > 0 {
                Some(t)
            } else {
                None
            }
        },
    }
}

fn ascii_field(image_bytes: &[u8], tag: u16) -> (r: Option<String>)
    ensures
        match field_text(exif_ascii_field(image_bytes@, tag)) {
            Some(t) => r matches Some(s) && s@ == t,
            None => r is None,
        },
{
    let values = match primary_ascii_field(image_bytes, tag) {
        Some(v) => v,
        None => {
            return None;
        },
    };
    let ghost vs = byte_strings(values@);
    let mut text: Vec<char> = Vec::new();
    let mut i: usize = 0;
    while i < values.len()
        invariant
            i <= values@.len(),
            vs == byte_strings(values@),
            vs.len() == values@.len(),
            text@ == lossy_joined(vs.take(i as int)),
        decreases values@.len() - i,
    {
        let piece = lossy_text(values[i].as_slice());
        let chars = crate::text::chars_of(piece.as_str());
        crate::text::append_chars(&mut text, chars.as_slice());
        proof {
            assert(vs.take(i + 1).drop_last() =~= vs.take(i as int));
            assert(vs.take(i + 1).last() == values@[i as int]@);
        }
        i = i + 1;
    }
    assert(vs.take(vs.len() as int) =~= vs);
    let unpadded = crate::text::trim_char_chars(text.as_slice(), '\0');
    let t = crate::text::trim_chars(unpadded.as_slice());
    if t.len() > 0 {
        Some(crate::text::string_of(t.as_slice()))
    } else {
        None
    }
}

/// Reads the copyright statement and artist a source's Exif carries.
pub fn read_copyright(image_bytes: &[u8]) -> (r: Copyright)
    ensures
        match field_text(exif_ascii_field(image_bytes@, TAG_COPYRIGHT)) {
            Some(t) => r.copyright matches Some(s) && s@ == t,
            None => r.copyright is None,
        },
        match field_text(exif_ascii_field(image_bytes@, TAG_ARTIST)) {
            Some(t) => r.artist matches Some(s) && s@ == t,
            None => r.artist is None,
        },
{
    Copyright {
        copyright: ascii_field(image_bytes, TAG_COPYRIGHT),
        artist: ascii_field(image_bytes, TAG_ARTIST),
    }
}

/// Where an Exif TIFF block's thumbnail IFD says the embedded thumbnail is, as
/// (offset, length); `None` when the block does not parse or either field is
/// missing or not a number.
pub uninterp spec fn exif_thumbnail_location(tiff: Seq<u8>) -> Option<(u32, u32)>;

/// `exif::Reader::read_raw` over a TIFF block, then the first values of the
/// `JPEGInterchangeFormat` and `JPEGInterchangeFormatLength` fields of the
/// thumbnail IFD (`Value::get_uint(0)`). The result is named.
#[verifier::external_body]
fn thumbnail_location(tiff: &[u8]) -> (r: Option<(u32, u32)>)
    ensures
        r == exif_thumbnail_location(tiff@),
{
    let exif = match exif::Reader::new().read_raw(tiff.to_vec()) {
        Ok(e) => e,
        Err(_) => return None,
    };
    let offset = exif.get_field(exif::Tag::JPEGInterchangeFormat, exif::In::THUMBNAIL)?.value.get_uint(0)?;
    let length = exif.get_field(exif::Tag::JPEGInterchangeFormatLength, exif::In::THUMBNAIL)?.value.get_uint(0)?;
    Some((offset, length))
}

/// The JPEG thumbnail a source's Exif embeds, when it has one.
pub fn embedded_thumbnail(image_bytes: &[u8]) -> (r: Option<Vec<u8>>)
    ensures
        match exif_block(image_bytes@) {
            None => r is None,
            Some((s, e)) => match exif_thumbnail_location(image_bytes@.subrange(s, e)) {
                None => r is None,
                Some((offset, length)) => match thumbnail_in(
                    image_bytes@.subrange(s, e),
                    offset as nat,
                    length as nat,
                ) {
                    Some(t) => r matches Some(x) && x@ == t,
                    None => r is None,
                },
            },
        },
{
    let tiff = match jpeg_exif_block(image_bytes) {
        Some(t) => t,
        None => {
            return None;
        },
    };
    match thumbnail_location(tiff) {
        Some((offset, length)) => thumbnail_from_block(tiff, offset as u64, length as u64),
        None => None,
    }
}

} // verus!
