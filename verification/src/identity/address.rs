//! The `[P]` persistent address and its versioned, length-prefixed canonical key.
use vstd::bytes::*;
use vstd::prelude::*;
use vstd::slice::*;
use vstd::utf8::*;

use crate::text::{decimal_digits, decimal_string, string_from_utf8};

verus! {

/// Filesystem-specific stable identity. The address domain matches each
/// filesystem's real identity primitive, so a reused slot is never confused with
/// the original: the second field of each slotted variant (`seq`/`gen`/`xid`/`index`)
/// is the slot-reuse discriminator.
#[derive(Debug, Clone, Copy, PartialEq, Eq, Hash, Structural)]
pub enum FileId {
    /// NTFS MFT reference: record number + sequence.
    NtfsRef { entry: u64, seq: u16 },
    /// ext2/3/4 inode + generation.
    ExtInode { ino: u64, gen: u32 },
    /// APFS object id + transaction id.
    ApfsOid { oid: u64, xid: u64 },
    /// FAT/exFAT physical directory-entry address (no stable inode).
    FatDirEntry { cluster: u32, index: u16 },
    /// ISO 9660 path-table / extent address.
    IsoExtent { block: u32 },
    /// A filesystem with a plain inode and nothing finer.
    Opaque(u64),
}

/// `[P]` persistent-storage evidential address: the subject-world identity of one
/// filesystem object.
///
/// Structural equality over every field is the strict identity. `canonical_bytes`
/// is the deterministic, versioned, length-prefixed binary serialization used as
/// the correlation key; it is injective, so the key equals strict identity.
///
/// Deliberately carries no label, no host and no epoch: labels are display-only, a
/// host over-merges cloned VMs and under-merges volumes moved between machines, and
/// temporal state is the cohort machinery's concern.
#[derive(Debug, Clone, PartialEq, Eq, Hash)]
pub struct PersistentAddress {
    /// Stable, scheme-prefixed volume discriminator (`gpt:<guid>`, `uuid:<hex>`,
    /// `vsn:<hex16>`, `mbr:<sig>.<lba>`), never a drive letter or volume label.
    pub volume: String,
    /// The filesystem object identity; its second field is the slot-reuse discriminator.
    pub file_id: FileId,
    /// Byte-verbatim path as recovered: `/`-separated, raw bytes, no case folding,
    /// no Unicode normalization. Empty for an orphan with no recoverable name.
    pub path: Vec<u8>,
    /// Allocation state of the object.
    pub allocation: Allocation,
    /// Which data stream this address names.
    pub stream: StreamSel,
}

/// Allocation state of a `PersistentAddress` object.
#[non_exhaustive]
#[derive(Debug, Clone, Copy, PartialEq, Eq, Hash, Structural)]
pub enum Allocation {
    /// A live, allocated object.
    Allocated,
    /// A deleted object whose metadata is still resolvable.
    Deleted,
    /// A recovered object with no parent/name.
    Orphan,
}

/// Tri-state stream selector. `Unknown` (stream presence undetermined, e.g. a
/// producer that never inspected ADS) is a distinct concrete value: it is not
/// "matches anything", and it is not `Default`.
#[non_exhaustive]
#[derive(Debug, Clone, PartialEq, Eq, Hash)]
pub enum StreamSel {
    /// The default/unnamed data stream (`$DATA`, the file's primary content).
    Default,
    /// A named stream: an NTFS ADS, an HFS+ resource fork, or an xattr.
    Named(Vec<u8>),
    /// Stream presence was not determined by the producer.
    Unknown,
}

/// The mathematical value of a `StreamSel`.
pub enum StreamSelView {
    Default,
    Named(Seq<u8>),
    Unknown,
}

/// The mathematical value of a `PersistentAddress`: the volume as characters, the
/// path and stream name as byte sequences.
pub struct PersistentAddressView {
    pub volume: Seq<char>,
    pub file_id: FileId,
    pub path: Seq<u8>,
    pub allocation: Allocation,
    pub stream: StreamSelView,
}

impl View for StreamSel {
    type V = StreamSelView;

    open spec fn view(&self) -> StreamSelView {
        match self {
            StreamSel::Default => StreamSelView::Default,
            StreamSel::Named(name) => StreamSelView::Named(name@),
            StreamSel::Unknown => StreamSelView::Unknown,
        }
    }
}

impl View for PersistentAddress {
    type V = PersistentAddressView;

    open spec fn view(&self) -> PersistentAddressView {
        PersistentAddressView {
            volume: self.volume@,
            file_id: self.file_id,
            path: self.path@,
            allocation: self.allocation,
            stream: self.stream@,
        }
    }
}

/// Failure decoding a `PersistentAddress::canonical_bytes` buffer.
#[non_exhaustive]
#[derive(Debug, Clone, PartialEq, Eq)]
pub enum DecodeError {
    /// The buffer ended before a field was fully read.
    Truncated,
    /// The leading version byte is not a supported encoding version.
    UnsupportedVersion(u8),
    /// An enum discriminant byte was outside the known range.
    BadTag {
        /// Which field's discriminant was out of range.
        field: &'static str,
        /// The offending byte value.
        tag: u32,
    },
    /// A length-prefixed string field was not valid UTF-8.
    InvalidUtf8,
    /// Bytes remained after a complete address was decoded.
    TrailingBytes(usize),
}

/// The human-readable description of a decoding failure.
pub open spec fn decode_error_message(e: DecodeError) -> Seq<char> {
    match e {
        DecodeError::Truncated => "buffer ended before a field was fully read"@,
        DecodeError::UnsupportedVersion(v) => "unsupported canonical-encoding version "@
            + decimal_digits(v as nat),
        DecodeError::BadTag { field, tag } => "invalid discriminant "@ + decimal_digits(tag as nat)
            + " for field `"@ + field@ + "`"@,
        DecodeError::InvalidUtf8 => "length-prefixed string was not valid UTF-8"@,
        DecodeError::TrailingBytes(n) => decimal_digits(n as nat)
            + " trailing byte(s) after a complete address"@,
    }
}

impl DecodeError {
    /// Render the failure as a human-readable message.
    pub fn to_string(&self) -> (s: String)
        ensures
            s@ == decode_error_message(*self),
    {
        match self {
            DecodeError::Truncated => String::from_str("buffer ended before a field was fully read"),
            DecodeError::UnsupportedVersion(v) => {
                let mut s = String::from_str("unsupported canonical-encoding version ");
                let digits = decimal_string(*v as u64);
                s.append(digits.as_str());
                s
            },
            DecodeError::BadTag { field, tag } => {
                let mut s = String::from_str("invalid discriminant ");
                let digits = decimal_string(*tag as u64);
                s.append(digits.as_str());
                s.append(" for field `");
                s.append(field);
                s.append("`");
                s
            },
            DecodeError::InvalidUtf8 => String::from_str("length-prefixed string was not valid UTF-8"),
            DecodeError::TrailingBytes(n) => {
                let mut s = decimal_string(*n as u64);
                s.append(" trailing byte(s) after a complete address");
                s
            },
        }
    }
}

/// Leading byte of a canonical key. Versioning keeps a future layout from being
/// silently mis-parsed: a new layout bumps this and gets its own decoder arm.
pub const CANONICAL_VERSION: u8 = 1;

// ---------------------------------------------------------------------------
// The canonical layout
// ---------------------------------------------------------------------------

/// The `u32` little-endian length prefix written before a byte field of length
/// `n`; a length beyond `u32::MAX` is written as `u32::MAX`.
pub open spec fn len_prefix(n: nat) -> Seq<u8> {
    spec_u32_to_le_bytes(if n <= u32::MAX { n as u32 } else { u32::MAX })
}

/// A byte field preceded by its length prefix.
pub open spec fn length_prefixed(data: Seq<u8>) -> Seq<u8> {
    len_prefix(data.len()) + data
}

/// A `FileId` as a discriminant byte followed by its fixed-width little-endian fields.
pub open spec fn file_id_bytes(id: FileId) -> Seq<u8> {
    match id {
        FileId::NtfsRef { entry, seq } => seq![0u8] + spec_u64_to_le_bytes(entry)
            + spec_u16_to_le_bytes(seq),
        FileId::ExtInode { ino, gen } => seq![1u8] + spec_u64_to_le_bytes(ino)
            + spec_u32_to_le_bytes(gen),
        FileId::ApfsOid { oid, xid } => seq![2u8] + spec_u64_to_le_bytes(oid)
            + spec_u64_to_le_bytes(xid),
        FileId::FatDirEntry { cluster, index } => seq![3u8] + spec_u32_to_le_bytes(cluster)
            + spec_u16_to_le_bytes(index),
        FileId::IsoExtent { block } => seq![4u8] + spec_u32_to_le_bytes(block),
        FileId::Opaque(v) => seq![5u8] + spec_u64_to_le_bytes(v),
    }
}

/// The one-byte tag of an allocation state.
pub open spec fn allocation_tag(a: Allocation) -> u8 {
    match a {
        Allocation::Allocated => 0,
        Allocation::Deleted => 1,
        Allocation::Orphan => 2,
    }
}

/// A stream selector as a tag byte, followed by the length-prefixed name for `Named`.
pub open spec fn stream_bytes(s: StreamSelView) -> Seq<u8> {
    match s {
        StreamSelView::Default => seq![0u8],
        StreamSelView::Named(name) => seq![1u8] + length_prefixed(name),
        StreamSelView::Unknown => seq![2u8],
    }
}

/// The canonical key: the version byte, then in declaration order the volume (UTF-8,
/// length-prefixed), the file id, the path (length-prefixed), the allocation tag and
/// the stream selector.
pub open spec fn canonical_encoding(a: PersistentAddressView) -> Seq<u8> {
    seq![CANONICAL_VERSION] + length_prefixed(encode_utf8(a.volume)) + file_id_bytes(a.file_id)
        + length_prefixed(a.path) + seq![allocation_tag(a.allocation)] + stream_bytes(a.stream)
}

/// The path-stability bytes of an address: volume and path, each length-prefixed,
/// then the stream selector. File id and allocation take no part.
pub open spec fn path_key_bytes(a: PersistentAddressView) -> Seq<u8> {
    length_prefixed(encode_utf8(a.volume)) + length_prefixed(a.path) + stream_bytes(a.stream)
}

/// The object-stability bytes of an address: the volume, length-prefixed, then the
/// file id. Path, allocation and stream take no part.
pub open spec fn object_key_bytes(a: PersistentAddressView) -> Seq<u8> {
    length_prefixed(encode_utf8(a.volume)) + file_id_bytes(a.file_id)
}

/// Every variable-length field of the address fits the `u32` length prefix.
pub open spec fn fields_fit(a: PersistentAddressView) -> bool {
    &&& encode_utf8(a.volume).len() <= u32::MAX
    &&& a.path.len() <= u32::MAX
    &&& (a.stream matches StreamSelView::Named(name) ==> name.len() <= u32::MAX)
}

// ---------------------------------------------------------------------------
// Reading the canonical layout: each reader takes the unread input and gives the
// value read and the input left after it.
// ---------------------------------------------------------------------------

/// The next `n` bytes.
pub open spec fn read_bytes(s: Seq<u8>, n: int) -> Result<(Seq<u8>, Seq<u8>), DecodeError> {
    if 0 <= n <= s.len() {
        Ok((s.take(n), s.skip(n)))
    } else {
        Err(DecodeError::Truncated)
    }
}

/// The next byte.
pub open spec fn read_u8(s: Seq<u8>) -> Result<(u8, Seq<u8>), DecodeError> {
    if 1 <= s.len() {
        Ok((s[0], s.skip(1)))
    } else {
        Err(DecodeError::Truncated)
    }
}

/// The next little-endian `u16`.
pub open spec fn read_u16(s: Seq<u8>) -> Result<(u16, Seq<u8>), DecodeError> {
    if 2 <= s.len() {
        Ok((spec_u16_from_le_bytes(s.take(2)), s.skip(2)))
    } else {
        Err(DecodeError::Truncated)
    }
}

/// The next little-endian `u32`.
pub open spec fn read_u32(s: Seq<u8>) -> Result<(u32, Seq<u8>), DecodeError> {
    if 4 <= s.len() {
        Ok((spec_u32_from_le_bytes(s.take(4)), s.skip(4)))
    } else {
        Err(DecodeError::Truncated)
    }
}

/// The next little-endian `u64`.
pub open spec fn read_u64(s: Seq<u8>) -> Result<(u64, Seq<u8>), DecodeError> {
    if 8 <= s.len() {
        Ok((spec_u64_from_le_bytes(s.take(8)), s.skip(8)))
    } else {
        Err(DecodeError::Truncated)
    }
}

/// A `u32` length prefix and that many bytes.
#[verifier::opaque]
pub open spec fn read_length_prefixed(s: Seq<u8>) -> Result<(Seq<u8>, Seq<u8>), DecodeError> {
    match read_u32(s) {
        Err(e) => Err(e),
        Ok((n, r)) => read_bytes(r, n as int),
    }
}

/// A length-prefixed field that must be valid UTF-8, as characters.
#[verifier::opaque]
pub open spec fn read_string(s: Seq<u8>) -> Result<(Seq<char>, Seq<u8>), DecodeError> {
    match read_length_prefixed(s) {
        Err(e) => Err(e),
        Ok((b, r)) => if valid_utf8(b) {
            Ok((decode_utf8(b), r))
        } else {
            Err(DecodeError::InvalidUtf8)
        },
    }
}

/// A discriminant byte and the fields of that `FileId` variant.
#[verifier::opaque]
pub open spec fn read_file_id(s: Seq<u8>) -> Result<(FileId, Seq<u8>), DecodeError> {
    match read_u8(s) {
        Err(e) => Err(e),
        Ok((tag, r)) => if tag == 0 {
            match read_u64(r) {
                Err(e) => Err(e),
                Ok((entry, r2)) => match read_u16(r2) {
                    Err(e) => Err(e),
                    Ok((seq, r3)) => Ok((FileId::NtfsRef { entry, seq }, r3)),
                },
            }
        } else if tag == 1 {
            match read_u64(r) {
                Err(e) => Err(e),
                Ok((ino, r2)) => match read_u32(r2) {
                    Err(e) => Err(e),
                    Ok((gen, r3)) => Ok((FileId::ExtInode { ino, gen }, r3)),
                },
            }
        } else if tag == 2 {
            match read_u64(r) {
                Err(e) => Err(e),
                Ok((oid, r2)) => match read_u64(r2) {
                    Err(e) => Err(e),
                    Ok((xid, r3)) => Ok((FileId::ApfsOid { oid, xid }, r3)),
                },
            }
        } else if tag == 3 {
            match read_u32(r) {
                Err(e) => Err(e),
                Ok((cluster, r2)) => match read_u16(r2) {
                    Err(e) => Err(e),
                    Ok((index, r3)) => Ok((FileId::FatDirEntry { cluster, index }, r3)),
                },
            }
        } else if tag == 4 {
            match read_u32(r) {
                Err(e) => Err(e),
                Ok((block, r2)) => Ok((FileId::IsoExtent { block }, r2)),
            }
        } else if tag == 5 {
            match read_u64(r) {
                Err(e) => Err(e),
                Ok((v, r2)) => Ok((FileId::Opaque(v), r2)),
            }
        } else {
            Err(DecodeError::BadTag { field: "file_id", tag: tag as u32 })
        },
    }
}

/// An allocation tag byte.
#[verifier::opaque]
pub open spec fn read_allocation(s: Seq<u8>) -> Result<(Allocation, Seq<u8>), DecodeError> {
    match read_u8(s) {
        Err(e) => Err(e),
        Ok((tag, r)) => if tag == 0 {
            Ok((Allocation::Allocated, r))
        } else if tag == 1 {
            Ok((Allocation::Deleted, r))
        } else if tag == 2 {
            Ok((Allocation::Orphan, r))
        } else {
            Err(DecodeError::BadTag { field: "allocation", tag: tag as u32 })
        },
    }
}

/// A stream tag byte, and for `Named` the length-prefixed name.
#[verifier::opaque]
pub open spec fn read_stream(s: Seq<u8>) -> Result<(StreamSelView, Seq<u8>), DecodeError> {
    match read_u8(s) {
        Err(e) => Err(e),
        Ok((tag, r)) => if tag == 0 {
            Ok((StreamSelView::Default, r))
        } else if tag == 1 {
            match read_length_prefixed(r) {
                Err(e) => Err(e),
                Ok((name, r2)) => Ok((StreamSelView::Named(name), r2)),
            }
        } else if tag == 2 {
            Ok((StreamSelView::Unknown, r))
        } else {
            Err(DecodeError::BadTag { field: "stream", tag: tag as u32 })
        },
    }
}

/// What decoding a buffer gives: the address it encodes, or the first error met
/// reading the fields in order (version, volume, file id, path, allocation, stream),
/// or `TrailingBytes` with the count of bytes left after a complete address.
pub open spec fn decode_result(s: Seq<u8>) -> Result<PersistentAddressView, DecodeError> {
    match read_u8(s) {
        Err(e) => Err(e),
        Ok((version, s1)) => if version != CANONICAL_VERSION {
            Err(DecodeError::UnsupportedVersion(version))
        } else {
            match read_string(s1) {
                Err(e) => Err(e),
                Ok((volume, s2)) => match read_file_id(s2) {
                    Err(e) => Err(e),
                    Ok((file_id, s3)) => match read_length_prefixed(s3) {
                        Err(e) => Err(e),
                        Ok((path, s4)) => match read_allocation(s4) {
                            Err(e) => Err(e),
                            Ok((allocation, s5)) => match read_stream(s5) {
                                Err(e) => Err(e),
                                Ok((stream, s6)) => if s6.len() > 0 {
                                    Err(DecodeError::TrailingBytes(s6.len() as usize))
                                } else {
                                    Ok(PersistentAddressView { volume, file_id, path, allocation, stream })
                                },
                            },
                        },
                    },
                },
            }
        },
    }
}

// ---------------------------------------------------------------------------
// Encoding
// ---------------------------------------------------------------------------

/// Append every byte of `data` to `out`.
pub(crate) fn push_all(out: &mut Vec<u8>, data: &[u8])
    ensures
        final(out)@ == old(out)@ + data@,
{
    let mut i: usize = 0;
    while i < data.len()
        invariant
            i <= data@.len(),
            out@ == old(out)@ + data@.take(i as int),
        decreases data@.len() - i,
    {
        out.push(data[i]);
        i = i + 1;
        assert(data@.take(i as int) =~= data@.take(i - 1).push(data@[i - 1]));
    }
    assert(data@.take(data@.len() as int) =~= data@);
}

/// Append a `u32` little-endian length prefix followed by `data`. A field longer
/// than `u32::MAX` bytes is not representable on any real filesystem path, volume
/// or stream; its prefix saturates at `u32::MAX`.
pub(crate) fn write_len_prefixed(out: &mut Vec<u8>, data: &[u8])
    ensures
        final(out)@ == old(out)@ + length_prefixed(data@),
{
    let len: u32 = if data.len() <= 0xffff_ffffusize {
        data.len() as u32
    } else {
        u32::MAX
    };
    let prefix = u32_to_le_bytes(len);
    push_all(out, prefix.as_slice());
    push_all(out, data);
    assert(final(out)@ =~= old(out)@ + length_prefixed(data@));
}

/// Append a `FileId` as a discriminant byte plus its fixed-width little-endian fields.
pub(crate) fn encode_file_id(out: &mut Vec<u8>, id: FileId)
    ensures
        final(out)@ == old(out)@ + file_id_bytes(id),
{
    let ghost start = out@;
    match id {
        FileId::NtfsRef { entry, seq } => {
            out.push(0);
            push_all(out, u64_to_le_bytes(entry).as_slice());
            push_all(out, u16_to_le_bytes(seq).as_slice());
        },
        FileId::ExtInode { ino, gen } => {
            out.push(1);
            push_all(out, u64_to_le_bytes(ino).as_slice());
            push_all(out, u32_to_le_bytes(gen).as_slice());
        },
        FileId::ApfsOid { oid, xid } => {
            out.push(2);
            push_all(out, u64_to_le_bytes(oid).as_slice());
            push_all(out, u64_to_le_bytes(xid).as_slice());
        },
        FileId::FatDirEntry { cluster, index } => {
            out.push(3);
            push_all(out, u32_to_le_bytes(cluster).as_slice());
            push_all(out, u16_to_le_bytes(index).as_slice());
        },
        FileId::IsoExtent { block } => {
            out.push(4);
            push_all(out, u32_to_le_bytes(block).as_slice());
        },
        FileId::Opaque(v) => {
            out.push(5);
            push_all(out, u64_to_le_bytes(v).as_slice());
        },
    }
    assert(out@ =~= start + file_id_bytes(id));
}

impl PersistentAddress {
    /// Deterministic, versioned, length-prefixed binary serialization: the
    /// correlation/DB key.
    ///
    /// Layout: `[version]` then, in declaration order, `volume` (u32-LE length +
    /// bytes), `file_id` (1 discriminant byte + fixed-width LE fields), `path`
    /// (u32-LE length + bytes), `allocation` (1 byte), `stream` (1 discriminant
    /// byte + a length-prefixed name for `Named`).
    pub fn canonical_bytes(&self) -> (out: Vec<u8>)
        ensures
            out@ == canonical_encoding(self@),
    {
        let mut out: Vec<u8> = Vec::new();
        out.push(CANONICAL_VERSION);
        write_len_prefixed(&mut out, self.volume.as_str().as_bytes());
        encode_file_id(&mut out, self.file_id);
        write_len_prefixed(&mut out, self.path.as_slice());
        let tag: u8 = match self.allocation {
            Allocation::Allocated => 0,
            Allocation::Deleted => 1,
            Allocation::Orphan => 2,
        };
        out.push(tag);
        write_stream(&mut out, &self.stream);
        assert(out@ =~= canonical_encoding(self@));
        out
    }

    /// The bytes of the fields that path stability compares: the volume and the
    /// path, each length-prefixed, then the stream selector.
    pub(crate) fn path_key(&self) -> (out: Vec<u8>)
        ensures
            out@ == path_key_bytes(self@),
    {
        let mut out: Vec<u8> = Vec::new();
        write_len_prefixed(&mut out, self.volume.as_str().as_bytes());
        write_len_prefixed(&mut out, self.path.as_slice());
        write_stream(&mut out, &self.stream);
        assert(out@ =~= path_key_bytes(self@));
        out
    }

    /// The bytes of the fields that object stability compares: the volume,
    /// length-prefixed, then the file id.
    pub(crate) fn object_key(&self) -> (out: Vec<u8>)
        ensures
            out@ == object_key_bytes(self@),
    {
        let mut out: Vec<u8> = Vec::new();
        write_len_prefixed(&mut out, self.volume.as_str().as_bytes());
        encode_file_id(&mut out, self.file_id);
        assert(out@ =~= object_key_bytes(self@));
        out
    }
}

/// Append a stream selector: its tag byte, and for `Named` the length-prefixed name.
fn write_stream(out: &mut Vec<u8>, stream: &StreamSel)
    ensures
        final(out)@ == old(out)@ + stream_bytes(stream@),
{
    let ghost start = out@;
    match stream {
        StreamSel::Default => out.push(0),
        StreamSel::Named(name) => {
            out.push(1);
            write_len_prefixed(out, name.as_slice());
        },
        StreamSel::Unknown => out.push(2),
    }
    assert(out@ =~= start + stream_bytes(stream@));
}

// ---------------------------------------------------------------------------
// Decoding
// ---------------------------------------------------------------------------

/// A panic-free forward cursor: every read is bounds-checked and returns a
/// `DecodeError` rather than indexing out of range.
struct ByteCursor<'a> {
    buf: &'a [u8],
    pos: usize,
}

impl<'a> ByteCursor<'a> {
    /// The position never passes the end of the buffer.
    spec fn wf(&self) -> bool {
        self.pos <= self.buf@.len()
    }

    /// The bytes not yet read.
    spec fn rest(&self) -> Seq<u8> {
        self.buf@.skip(self.pos as int)
    }

    fn new(buf: &'a [u8]) -> (c: Self)
        ensures
            c.wf(),
            c.rest() == buf@,
    {
        let c = ByteCursor { buf, pos: 0 };
        assert(c.rest() =~= buf@);
        c
    }

    fn remaining(&self) -> (n: usize)
        requires
            self.wf(),
        ensures
            n == self.rest().len(),
    {
        self.buf.len().saturating_sub(self.pos)
    }

    fn is_empty(&self) -> (b: bool)
        requires
            self.wf(),
        ensures
            b == (self.rest().len() == 0),
    {
        self.pos >= self.buf.len()
    }

    fn take(&mut self, n: usize) -> (r: Result<&'a [u8], DecodeError>)
        requires
            old(self).wf(),
        ensures
            final(self).wf(),
            final(self).buf == old(self).buf,
            r is Err ==> final(self).pos == old(self).pos,
            match read_bytes(old(self).rest(), n as int) {
                Ok((b, rest)) => r matches Ok(s) && s@ == b && final(self).rest() == rest,
                Err(e) => r == Err::<&'a [u8], DecodeError>(e),
            },
    {
        let len = self.buf.len();
        let end = match self.pos.checked_add(n) {
            Some(end) => end,
            None => return Err(DecodeError::Truncated),
        };
        if end > len {
            return Err(DecodeError::Truncated);
        }
        let slice = slice_subrange(self.buf, self.pos, end);
        let ghost before = self.rest();
        self.pos = end;
        assert(slice@ =~= before.take(n as int));
        assert(self.rest() =~= before.skip(n as int));
        Ok(slice)
    }

    fn u8(&mut self) -> (r: Result<u8, DecodeError>)
        requires
            old(self).wf(),
        ensures
            final(self).wf(),
            final(self).buf == old(self).buf,
            r is Err ==> final(self).pos == old(self).pos,
            match read_u8(old(self).rest()) {
                Ok((v, rest)) => r == Ok::<u8, DecodeError>(v) && final(self).rest() == rest,
                Err(e) => r == Err::<u8, DecodeError>(e),
            },
    {
        let b = self.take(1)?;
        Ok(b[0])
    }

    fn u16(&mut self) -> (r: Result<u16, DecodeError>)
        requires
            old(self).wf(),
        ensures
            final(self).wf(),
            final(self).buf == old(self).buf,
            r is Err ==> final(self).pos == old(self).pos,
            match read_u16(old(self).rest()) {
                Ok((v, rest)) => r == Ok::<u16, DecodeError>(v) && final(self).rest() == rest,
                Err(e) => r == Err::<u16, DecodeError>(e),
            },
    {
        let b = self.take(2)?;
        Ok(u16_from_le_bytes(b))
    }

    fn u32(&mut self) -> (r: Result<u32, DecodeError>)
        requires
            old(self).wf(),
        ensures
            final(self).wf(),
            final(self).buf == old(self).buf,
            r is Err ==> final(self).pos == old(self).pos,
            match read_u32(old(self).rest()) {
                Ok((v, rest)) => r == Ok::<u32, DecodeError>(v) && final(self).rest() == rest,
                Err(e) => r == Err::<u32, DecodeError>(e),
            },
    {
        let b = self.take(4)?;
        Ok(u32_from_le_bytes(b))
    }

    fn u64(&mut self) -> (r: Result<u64, DecodeError>)
        requires
            old(self).wf(),
        ensures
            final(self).wf(),
            final(self).buf == old(self).buf,
            r is Err ==> final(self).pos == old(self).pos,
            match read_u64(old(self).rest()) {
                Ok((v, rest)) => r == Ok::<u64, DecodeError>(v) && final(self).rest() == rest,
                Err(e) => r == Err::<u64, DecodeError>(e),
            },
    {
        let b = self.take(8)?;
        Ok(u64_from_le_bytes(b))
    }

    fn length_prefixed(&mut self) -> (r: Result<Vec<u8>, DecodeError>)
        requires
            old(self).wf(),
        ensures
            final(self).wf(),
            match read_length_prefixed(old(self).rest()) {
                Ok((b, rest)) => r matches Ok(v) && v@ == b && final(self).rest() == rest,
                Err(e) => r == Err::<Vec<u8>, DecodeError>(e),
            },
    {
        reveal(read_length_prefixed);
        let len = self.u32()? as usize;
        let b = self.take(len)?;
        Ok(slice_to_vec(b))
    }

    fn string(&mut self) -> (r: Result<String, DecodeError>)
        requires
            old(self).wf(),
        ensures
            final(self).wf(),
            match read_string(old(self).rest()) {
                Ok((chars, rest)) => r matches Ok(s) && s@ == chars && final(self).rest() == rest,
                Err(e) => r == Err::<String, DecodeError>(e),
            },
    {
        reveal(read_string);
        let bytes = self.length_prefixed()?;
        match string_from_utf8(bytes) {
            Some(s) => Ok(s),
            None => Err(DecodeError::InvalidUtf8),
        }
    }

    fn file_id(&mut self) -> (r: Result<FileId, DecodeError>)
        requires
            old(self).wf(),
        ensures
            final(self).wf(),
            match read_file_id(old(self).rest()) {
                Ok((id, rest)) => r == Ok::<FileId, DecodeError>(id) && final(self).rest() == rest,
                Err(e) => r == Err::<FileId, DecodeError>(e),
            },
    {
        reveal(read_file_id);
        let tag = self.u8()?;
        if tag == 0 {
            let entry = self.u64()?;
            let seq = self.u16()?;
            Ok(FileId::NtfsRef { entry, seq })
        } else if tag == 1 {
            let ino = self.u64()?;
            let gen = self.u32()?;
            Ok(FileId::ExtInode { ino, gen })
        } else if tag == 2 {
            let oid = self.u64()?;
            let xid = self.u64()?;
            Ok(FileId::ApfsOid { oid, xid })
        } else if tag == 3 {
            let cluster = self.u32()?;
            let index = self.u16()?;
            Ok(FileId::FatDirEntry { cluster, index })
        } else if tag == 4 {
            let block = self.u32()?;
            Ok(FileId::IsoExtent { block })
        } else if tag == 5 {
            let v = self.u64()?;
            Ok(FileId::Opaque(v))
        } else {
            Err(DecodeError::BadTag { field: "file_id", tag: tag as u32 })
        }
    }
}

impl PersistentAddress {
    /// Parse a `canonical_bytes` buffer back into an address.
    ///
    /// Never panics on malformed input: a truncated, over-long, bad-version,
    /// bad-tag, non-UTF-8, or trailing-junk buffer returns a typed `DecodeError`.
    pub fn decode(bytes: &[u8]) -> (r: Result<PersistentAddress, DecodeError>)
        ensures
            match decode_result(bytes@) {
                Ok(v) => r matches Ok(a) && a@ == v,
                Err(e) => r == Err::<PersistentAddress, DecodeError>(e),
            },
    {
        let mut cur = ByteCursor::new(bytes);
        let version = cur.u8()?;
        if version != CANONICAL_VERSION {
            return Err(DecodeError::UnsupportedVersion(version));
        }
        let volume = cur.string()?;
        let file_id = cur.file_id()?;
        let path = cur.length_prefixed()?;
        reveal(read_allocation);
        reveal(read_stream);
        let allocation = match cur.u8()? {
            0 => Allocation::Allocated,
            1 => Allocation::Deleted,
            2 => Allocation::Orphan,
            other => {
                return Err(DecodeError::BadTag { field: "allocation", tag: other as u32 });
            },
        };
        let stream = match cur.u8()? {
            0 => StreamSel::Default,
            1 => StreamSel::Named(cur.length_prefixed()?),
            2 => StreamSel::Unknown,
            other => {
                return Err(DecodeError::BadTag { field: "stream", tag: other as u32 });
            },
        };
        if !cur.is_empty() {
            return Err(DecodeError::TrailingBytes(cur.remaining()));
        }
        Ok(PersistentAddress { volume, file_id, path, allocation, stream })
    }
}

} // verus!
