//! The laws of the canonical key: decoding gives back what was encoded, and only
//! canonical keys decode.
use vstd::bytes::*;
use vstd::prelude::*;
use vstd::utf8::*;

use super::address::{
    allocation_tag, canonical_encoding, decode_result, fields_fit, file_id_bytes, length_prefixed,
    object_key_bytes, path_key_bytes, read_allocation, read_file_id, read_length_prefixed, read_stream, read_string, read_u16,
    read_u32, read_u64, read_u8, stream_bytes, DecodeError, FileId, PersistentAddressView,
    StreamSelView, CANONICAL_VERSION,
};

verus! {

proof fn lemma_read_u8_of(b: u8, rest: Seq<u8>)
    ensures
        read_u8(seq![b] + rest) == Ok::<(u8, Seq<u8>), DecodeError>((b, rest)),
{
    assert((seq![b] + rest).skip(1) =~= rest);
}

proof fn lemma_read_u16_of(v: u16, rest: Seq<u8>)
    ensures
        read_u16(spec_u16_to_le_bytes(v) + rest) == Ok::<(u16, Seq<u8>), DecodeError>((v, rest)),
{
    lemma_auto_spec_u16_to_from_le_bytes();
    let s = spec_u16_to_le_bytes(v) + rest;
    assert(s.take(2) =~= spec_u16_to_le_bytes(v));
    assert(s.skip(2) =~= rest);
}

proof fn lemma_read_u32_of(v: u32, rest: Seq<u8>)
    ensures
        read_u32(spec_u32_to_le_bytes(v) + rest) == Ok::<(u32, Seq<u8>), DecodeError>((v, rest)),
{
    lemma_auto_spec_u32_to_from_le_bytes();
    let s = spec_u32_to_le_bytes(v) + rest;
    assert(s.take(4) =~= spec_u32_to_le_bytes(v));
    assert(s.skip(4) =~= rest);
}

proof fn lemma_read_u64_of(v: u64, rest: Seq<u8>)
    ensures
        read_u64(spec_u64_to_le_bytes(v) + rest) == Ok::<(u64, Seq<u8>), DecodeError>((v, rest)),
{
    lemma_auto_spec_u64_to_from_le_bytes();
    let s = spec_u64_to_le_bytes(v) + rest;
    assert(s.take(8) =~= spec_u64_to_le_bytes(v));
    assert(s.skip(8) =~= rest);
}

proof fn lemma_read_length_prefixed_of(data: Seq<u8>, rest: Seq<u8>)
    requires
        data.len() <= u32::MAX,
    ensures
        read_length_prefixed(length_prefixed(data) + rest) == Ok::<
            (Seq<u8>, Seq<u8>),
            DecodeError,
        >((data, rest)),
{
    reveal(read_length_prefixed);
    let n = data.len() as u32;
    assert(length_prefixed(data) + rest =~= spec_u32_to_le_bytes(n) + (data + rest));
    lemma_read_u32_of(n, data + rest);
    assert((data + rest).take(data.len() as int) =~= data);
    assert((data + rest).skip(data.len() as int) =~= rest);
}

proof fn lemma_read_string_of(chars: Seq<char>, rest: Seq<u8>)
    requires
        encode_utf8(chars).len() <= u32::MAX,
    ensures
        read_string(length_prefixed(encode_utf8(chars)) + rest) == Ok::<
            (Seq<char>, Seq<u8>),
            DecodeError,
        >((chars, rest)),
{
    reveal(read_string);
    lemma_read_length_prefixed_of(encode_utf8(chars), rest);
    encode_utf8_valid_utf8(chars);
    encode_utf8_decode_utf8(chars);
}

/// Reading back an encoded file id gives that id and consumes exactly its bytes.
pub proof fn lemma_read_file_id_of(id: FileId, rest: Seq<u8>)
    ensures
        read_file_id(file_id_bytes(id) + rest) == Ok::<(FileId, Seq<u8>), DecodeError>((id, rest)),
{
    reveal(read_file_id);
    match id {
        FileId::NtfsRef { entry, seq } => {
            let a = spec_u64_to_le_bytes(entry);
            let b = spec_u16_to_le_bytes(seq);
            assert(file_id_bytes(id) + rest =~= seq![0u8] + (a + (b + rest)));
            lemma_read_u8_of(0u8, a + (b + rest));
            lemma_read_u64_of(entry, b + rest);
            lemma_read_u16_of(seq, rest);
        },
        FileId::ExtInode { ino, gen } => {
            let a = spec_u64_to_le_bytes(ino);
            let b = spec_u32_to_le_bytes(gen);
            assert(file_id_bytes(id) + rest =~= seq![1u8] + (a + (b + rest)));
            lemma_read_u8_of(1u8, a + (b + rest));
            lemma_read_u64_of(ino, b + rest);
            lemma_read_u32_of(gen, rest);
        },
        FileId::ApfsOid { oid, xid } => {
            let a = spec_u64_to_le_bytes(oid);
            let b = spec_u64_to_le_bytes(xid);
            assert(file_id_bytes(id) + rest =~= seq![2u8] + (a + (b + rest)));
            lemma_read_u8_of(2u8, a + (b + rest));
            lemma_read_u64_of(oid, b + rest);
            lemma_read_u64_of(xid, rest);
        },
        FileId::FatDirEntry { cluster, index } => {
            let a = spec_u32_to_le_bytes(cluster);
            let b = spec_u16_to_le_bytes(index);
            assert(file_id_bytes(id) + rest =~= seq![3u8] + (a + (b + rest)));
            lemma_read_u8_of(3u8, a + (b + rest));
            lemma_read_u32_of(cluster, b + rest);
            lemma_read_u16_of(index, rest);
        },
        FileId::IsoExtent { block } => {
            let a = spec_u32_to_le_bytes(block);
            assert(file_id_bytes(id) + rest =~= seq![4u8] + (a + rest));
            lemma_read_u8_of(4u8, a + rest);
            lemma_read_u32_of(block, rest);
        },
        FileId::Opaque(v) => {
            let a = spec_u64_to_le_bytes(v);
            assert(file_id_bytes(id) + rest =~= seq![5u8] + (a + rest));
            lemma_read_u8_of(5u8, a + rest);
            lemma_read_u64_of(v, rest);
        },
    }
}

proof fn lemma_read_stream_of(s: StreamSelView, rest: Seq<u8>)
    requires
        s matches StreamSelView::Named(name) ==> name.len() <= u32::MAX,
    ensures
        read_stream(stream_bytes(s) + rest) == Ok::<(StreamSelView, Seq<u8>), DecodeError>(
            (s, rest),
        ),
{
    reveal(read_stream);
    match s {
        StreamSelView::Default => lemma_read_u8_of(0u8, rest),
        StreamSelView::Named(name) => {
            assert(stream_bytes(s) + rest =~= seq![1u8] + (length_prefixed(name) + rest));
            lemma_read_u8_of(1u8, length_prefixed(name) + rest);
            lemma_read_length_prefixed_of(name, rest);
        },
        StreamSelView::Unknown => lemma_read_u8_of(2u8, rest),
    }
}

/// Round trip: decoding the canonical key of an address gives that address back,
/// for every address whose variable-length fields fit the `u32` length prefix.
pub proof fn lemma_decode_canonical(a: PersistentAddressView)
    requires
        fields_fit(a),
    ensures
        decode_result(canonical_encoding(a)) == Ok::<PersistentAddressView, DecodeError>(a),
{
    let vol = encode_utf8(a.volume);
    let t5 = stream_bytes(a.stream);
    let t4 = seq![allocation_tag(a.allocation)] + t5;
    let t3 = length_prefixed(a.path) + t4;
    let t2 = file_id_bytes(a.file_id) + t3;
    let t1 = length_prefixed(vol) + t2;
    assert(canonical_encoding(a) =~= seq![CANONICAL_VERSION] + t1);
    lemma_read_u8_of(CANONICAL_VERSION, t1);
    lemma_read_string_of(a.volume, t2);
    lemma_read_file_id_of(a.file_id, t3);
    lemma_read_length_prefixed_of(a.path, t4);
    lemma_read_u8_of(allocation_tag(a.allocation), t5);
    reveal(read_allocation);
    assert(t5 =~= t5 + Seq::<u8>::empty());
    lemma_read_stream_of(a.stream, Seq::<u8>::empty());
}

proof fn lemma_read_u8_inv(s: Seq<u8>)
    ensures
        read_u8(s) matches Ok((v, r)) ==> s == seq![v] + r,
{
    if let Ok((v, r)) = read_u8(s) {
        assert(s =~= seq![v] + r);
    }
}

proof fn lemma_read_u16_inv(s: Seq<u8>)
    ensures
        read_u16(s) matches Ok((v, r)) ==> s == spec_u16_to_le_bytes(v) + r,
{
    if let Ok((v, r)) = read_u16(s) {
        lemma_auto_spec_u16_to_from_le_bytes();
        assert(spec_u16_to_le_bytes(spec_u16_from_le_bytes(s.take(2))) == s.take(2));
        assert(s =~= s.take(2) + s.skip(2));
    }
}

proof fn lemma_read_u32_inv(s: Seq<u8>)
    ensures
        read_u32(s) matches Ok((v, r)) ==> s == spec_u32_to_le_bytes(v) + r,
{
    if let Ok((v, r)) = read_u32(s) {
        lemma_auto_spec_u32_to_from_le_bytes();
        assert(spec_u32_to_le_bytes(spec_u32_from_le_bytes(s.take(4))) == s.take(4));
        assert(s =~= s.take(4) + s.skip(4));
    }
}

proof fn lemma_read_u64_inv(s: Seq<u8>)
    ensures
        read_u64(s) matches Ok((v, r)) ==> s == spec_u64_to_le_bytes(v) + r,
{
    if let Ok((v, r)) = read_u64(s) {
        lemma_auto_spec_u64_to_from_le_bytes();
        assert(spec_u64_to_le_bytes(spec_u64_from_le_bytes(s.take(8))) == s.take(8));
        assert(s =~= s.take(8) + s.skip(8));
    }
}

proof fn lemma_read_length_prefixed_inv(s: Seq<u8>)
    ensures
        read_length_prefixed(s) matches Ok((b, r)) ==> s == length_prefixed(b) + r && b.len()
            <= u32::MAX,
{
    reveal(read_length_prefixed);
    if let Ok((b, r)) = read_length_prefixed(s) {
        lemma_read_u32_inv(s);
        let (n, r1) = read_u32(s).unwrap();
        assert(b.len() == n);
        assert(r1 =~= b + r);
        assert(s =~= length_prefixed(b) + r);
    }
}

proof fn lemma_read_string_inv(s: Seq<u8>)
    ensures
        read_string(s) matches Ok((c, r)) ==> s == length_prefixed(encode_utf8(c)) + r
            && encode_utf8(c).len() <= u32::MAX,
{
    reveal(read_string);
    if let Ok((c, r)) = read_string(s) {
        lemma_read_length_prefixed_inv(s);
        let (b, r1) = read_length_prefixed(s).unwrap();
        decode_utf8_encode_utf8(b);
    }
}

proof fn lemma_read_file_id_inv(s: Seq<u8>)
    ensures
        read_file_id(s) matches Ok((id, r)) ==> s == file_id_bytes(id) + r,
{
    reveal(read_file_id);
    if let Ok((id, r)) = read_file_id(s) {
        lemma_read_u8_inv(s);
        let (tag, r1) = read_u8(s).unwrap();
        lemma_read_u64_inv(r1);
        lemma_read_u32_inv(r1);
        if tag == 0 {
            let (_, r2) = read_u64(r1).unwrap();
            lemma_read_u16_inv(r2);
        } else if tag == 1 {
            let (_, r2) = read_u64(r1).unwrap();
            lemma_read_u32_inv(r2);
        } else if tag == 2 {
            let (_, r2) = read_u64(r1).unwrap();
            lemma_read_u64_inv(r2);
        } else if tag == 3 {
            let (_, r2) = read_u32(r1).unwrap();
            lemma_read_u16_inv(r2);
        }
        assert(s =~= file_id_bytes(id) + r);
    }
}

proof fn lemma_read_allocation_inv(s: Seq<u8>)
    ensures
        read_allocation(s) matches Ok((a, r)) ==> s == seq![allocation_tag(a)] + r,
{
    reveal(read_allocation);
    lemma_read_u8_inv(s);
}

proof fn lemma_read_stream_inv(s: Seq<u8>)
    ensures
        read_stream(s) matches Ok((st, r)) ==> s == stream_bytes(st) + r && (st matches StreamSelView::Named(
            name,
        ) ==> name.len() <= u32::MAX),
{
    reveal(read_stream);
    if let Ok((st, r)) = read_stream(s) {
        lemma_read_u8_inv(s);
        let (tag, r1) = read_u8(s).unwrap();
        if tag == 1 {
            lemma_read_length_prefixed_inv(r1);
        }
        assert(s =~= stream_bytes(st) + r);
    }
}

/// Only canonical keys decode: whatever a buffer decodes to, the canonical key of
/// that address is exactly the buffer, and its fields fit the length prefix.
pub proof fn lemma_decoded_is_canonical(bytes: Seq<u8>)
    ensures
        decode_result(bytes) matches Ok(a) ==> canonical_encoding(a) == bytes && fields_fit(a),
{
    if let Ok(a) = decode_result(bytes) {
        lemma_read_u8_inv(bytes);
        let (_, s1) = read_u8(bytes).unwrap();
        lemma_read_string_inv(s1);
        let (_, s2) = read_string(s1).unwrap();
        lemma_read_file_id_inv(s2);
        let (_, s3) = read_file_id(s2).unwrap();
        lemma_read_length_prefixed_inv(s3);
        let (_, s4) = read_length_prefixed(s3).unwrap();
        lemma_read_allocation_inv(s4);
        let (_, s5) = read_allocation(s4).unwrap();
        lemma_read_stream_inv(s5);
        let (_, s6) = read_stream(s5).unwrap();
        assert(s6.len() == 0);
        assert(bytes =~= canonical_encoding(a));
    }
}

/// The canonical key is injective: two addresses whose fields fit the length
/// prefix and whose keys are equal are the same address.
pub proof fn lemma_canonical_injective(a: PersistentAddressView, b: PersistentAddressView)
    requires
        fields_fit(a),
        fields_fit(b),
        canonical_encoding(a) == canonical_encoding(b),
    ensures
        a == b,
{
    lemma_decode_canonical(a);
    lemma_decode_canonical(b);
}

/// The shape of an encoded file id: the variant's tag byte (0 to 5 for NtfsRef,
/// ExtInode, ApfsOid, FatDirEntry, IsoExtent, Opaque) followed by its fields, 10,
/// 12, 16, 6, 4 and 8 bytes long.
pub proof fn lemma_file_id_bytes_shape(id: FileId)
    ensures
        file_id_bytes(id).len() == 1 + file_id_width(id),
        file_id_bytes(id)[0] == file_id_tag(id),
{
    lemma_auto_spec_u16_to_from_le_bytes();
    lemma_auto_spec_u32_to_from_le_bytes();
    lemma_auto_spec_u64_to_from_le_bytes();
}

/// The failures of reading a file id: no byte left is `Truncated`; a tag above 5 is
/// `BadTag` on field `file_id`; a known tag without enough bytes after it for the
/// variant's fields is `Truncated`.
pub proof fn lemma_read_file_id_failures(s: Seq<u8>)
    ensures
        s.len() == 0 ==> read_file_id(s) == Err::<(FileId, Seq<u8>), DecodeError>(
            DecodeError::Truncated,
        ),
        s.len() > 0 && s[0] > 5 ==> read_file_id(s) == Err::<(FileId, Seq<u8>), DecodeError>(
            DecodeError::BadTag { field: "file_id", tag: s[0] as u32 },
        ),
        s.len() > 0 && s[0] <= 5 && s.len() - 1 < tag_width(s[0]) ==> read_file_id(s) == Err::<
            (FileId, Seq<u8>),
            DecodeError,
        >(DecodeError::Truncated),
{
    reveal(read_file_id);
}

/// The width in bytes of the fields of the file id variant with this tag.
pub open spec fn tag_width(tag: u8) -> int {
    if tag == 0 {
        10
    } else if tag == 1 {
        12
    } else if tag == 2 {
        16
    } else if tag == 3 {
        6
    } else if tag == 4 {
        4
    } else {
        8
    }
}

/// The tag byte of a file id variant.
pub open spec fn file_id_tag(id: FileId) -> u8 {
    match id {
        FileId::NtfsRef { .. } => 0,
        FileId::ExtInode { .. } => 1,
        FileId::ApfsOid { .. } => 2,
        FileId::FatDirEntry { .. } => 3,
        FileId::IsoExtent { .. } => 4,
        FileId::Opaque(_) => 5,
    }
}

/// The width in bytes of the fields of a file id.
pub open spec fn file_id_width(id: FileId) -> int {
    tag_width(file_id_tag(id))
}

proof fn lemma_length_prefixed_prefix(d: Seq<u8>, k: int)
    requires
        d.len() <= u32::MAX,
        0 <= k < length_prefixed(d).len(),
    ensures
        read_length_prefixed(length_prefixed(d).take(k)) == Err::<(Seq<u8>, Seq<u8>), DecodeError>(
            DecodeError::Truncated,
        ),
{
    reveal(read_length_prefixed);
    lemma_auto_spec_u32_to_from_le_bytes();
    let n = d.len() as u32;
    if k >= 4 {
        assert(length_prefixed(d).take(k) =~= spec_u32_to_le_bytes(n) + d.take(k - 4));
        lemma_read_u32_of(n, d.take(k - 4));
    }
}

proof fn lemma_string_prefix(chars: Seq<char>, k: int)
    requires
        encode_utf8(chars).len() <= u32::MAX,
        0 <= k < length_prefixed(encode_utf8(chars)).len(),
    ensures
        read_string(length_prefixed(encode_utf8(chars)).take(k)) == Err::<
            (Seq<char>, Seq<u8>),
            DecodeError,
        >(DecodeError::Truncated),
{
    reveal(read_string);
    lemma_length_prefixed_prefix(encode_utf8(chars), k);
}

proof fn lemma_file_id_prefix(id: FileId, k: int)
    requires
        0 <= k < file_id_bytes(id).len(),
    ensures
        read_file_id(file_id_bytes(id).take(k)) == Err::<(FileId, Seq<u8>), DecodeError>(
            DecodeError::Truncated,
        ),
{
    reveal(read_file_id);
    lemma_auto_spec_u16_to_from_le_bytes();
    lemma_auto_spec_u32_to_from_le_bytes();
    lemma_auto_spec_u64_to_from_le_bytes();
    let p = file_id_bytes(id).take(k);
    if k > 0 {
        let r = p.skip(1);
        assert(p[0] == file_id_tag(id));
        match id {
            FileId::NtfsRef { entry, seq } => {
                if k - 1 >= 8 {
                    assert(r =~= spec_u64_to_le_bytes(entry) + r.skip(8));
                    lemma_read_u64_of(entry, r.skip(8));
                }
            },
            FileId::ExtInode { ino, gen } => {
                if k - 1 >= 8 {
                    assert(r =~= spec_u64_to_le_bytes(ino) + r.skip(8));
                    lemma_read_u64_of(ino, r.skip(8));
                }
            },
            FileId::ApfsOid { oid, xid } => {
                if k - 1 >= 8 {
                    assert(r =~= spec_u64_to_le_bytes(oid) + r.skip(8));
                    lemma_read_u64_of(oid, r.skip(8));
                }
            },
            FileId::FatDirEntry { cluster, index } => {
                if k - 1 >= 4 {
                    assert(r =~= spec_u32_to_le_bytes(cluster) + r.skip(4));
                    lemma_read_u32_of(cluster, r.skip(4));
                }
            },
            FileId::IsoExtent { block } => {},
            FileId::Opaque(v) => {},
        }
    }
}

proof fn lemma_stream_prefix(st: StreamSelView, k: int)
    requires
        st matches StreamSelView::Named(name) ==> name.len() <= u32::MAX,
        0 <= k < stream_bytes(st).len(),
    ensures
        read_stream(stream_bytes(st).take(k)) == Err::<(StreamSelView, Seq<u8>), DecodeError>(
            DecodeError::Truncated,
        ),
{
    reveal(read_stream);
    if let StreamSelView::Named(name) = st {
        if k > 0 {
            assert(stream_bytes(st).take(k) =~= seq![1u8] + length_prefixed(name).take(k - 1));
            lemma_read_u8_of(1u8, length_prefixed(name).take(k - 1));
            lemma_length_prefixed_prefix(name, k - 1);
        }
    }
}

/// Every proper prefix of a canonical key (fields fitting the length prefix)
/// decodes as `Truncated`.
pub proof fn lemma_proper_prefix_truncated(a: PersistentAddressView, k: int)
    requires
        fields_fit(a),
        0 <= k < canonical_encoding(a).len(),
    ensures
        decode_result(canonical_encoding(a).take(k)) == Err::<PersistentAddressView, DecodeError>(
            DecodeError::Truncated,
        ),
{
    let vol = encode_utf8(a.volume);
    let e1 = length_prefixed(vol);
    let e2 = file_id_bytes(a.file_id);
    let e3 = length_prefixed(a.path);
    let e4 = seq![allocation_tag(a.allocation)];
    let e5 = stream_bytes(a.stream);
    let c = canonical_encoding(a);
    assert(c =~= seq![CANONICAL_VERSION] + (e1 + (e2 + (e3 + (e4 + e5)))));
    let p = c.take(k);
    let b1: int = 1;
    let b2: int = b1 + e1.len();
    let b3: int = b2 + e2.len();
    let b4: int = b3 + e3.len();
    let b5: int = b4 + e4.len();
    if k == 0 {
    } else if k < b2 {
        assert(p =~= seq![CANONICAL_VERSION] + e1.take(k - b1));
        lemma_read_u8_of(CANONICAL_VERSION, e1.take(k - b1));
        lemma_string_prefix(a.volume, k - b1);
    } else {
        lemma_read_u8_of(CANONICAL_VERSION, p.skip(1));
        assert(p =~= seq![CANONICAL_VERSION] + p.skip(1));
        assert(p.skip(1) =~= e1 + p.skip(b2));
        lemma_read_string_of(a.volume, p.skip(b2));
        if k < b3 {
            assert(p.skip(b2) =~= e2.take(k - b2));
            lemma_file_id_prefix(a.file_id, k - b2);
        } else {
            assert(p.skip(b2) =~= e2 + p.skip(b3));
            lemma_read_file_id_of(a.file_id, p.skip(b3));
            if k < b4 {
                assert(p.skip(b3) =~= e3.take(k - b3));
                lemma_length_prefixed_prefix(a.path, k - b3);
            } else {
                assert(p.skip(b3) =~= e3 + p.skip(b4));
                lemma_read_length_prefixed_of(a.path, p.skip(b4));
                reveal(read_allocation);
                if k < b5 {
                    assert(p.skip(b4).len() == 0);
                } else {
                    assert(p.skip(b4) =~= e4 + p.skip(b5));
                    lemma_read_u8_of(allocation_tag(a.allocation), p.skip(b5));
                    assert(p.skip(b5) =~= e5.take(k - b5));
                    lemma_stream_prefix(a.stream, k - b5);
                }
            }
        }
    }
}

/// The path-stability bytes determine the fields path stability compares: two
/// addresses (fields fitting the length prefix) with equal path bytes have equal
/// volume, path and stream.
pub proof fn lemma_path_key_injective(x: PersistentAddressView, y: PersistentAddressView)
    requires
        fields_fit(x),
        fields_fit(y),
        path_key_bytes(x) == path_key_bytes(y),
    ensures
        x.volume == y.volume,
        x.path == y.path,
        x.stream == y.stream,
{
    let rx = length_prefixed(x.path) + stream_bytes(x.stream);
    let ry = length_prefixed(y.path) + stream_bytes(y.stream);
    assert(path_key_bytes(x) =~= length_prefixed(encode_utf8(x.volume)) + rx);
    assert(path_key_bytes(y) =~= length_prefixed(encode_utf8(y.volume)) + ry);
    lemma_read_string_of(x.volume, rx);
    lemma_read_string_of(y.volume, ry);
    lemma_read_length_prefixed_of(x.path, stream_bytes(x.stream));
    lemma_read_length_prefixed_of(y.path, stream_bytes(y.stream));
    assert(stream_bytes(x.stream) =~= stream_bytes(x.stream) + Seq::<u8>::empty());
    assert(stream_bytes(y.stream) =~= stream_bytes(y.stream) + Seq::<u8>::empty());
    lemma_read_stream_of(x.stream, Seq::<u8>::empty());
    lemma_read_stream_of(y.stream, Seq::<u8>::empty());
}

/// The object-stability bytes determine the fields object stability compares: two
/// addresses (volumes fitting the length prefix) with equal object bytes have equal
/// volume and file id.
pub proof fn lemma_object_key_injective(x: PersistentAddressView, y: PersistentAddressView)
    requires
        encode_utf8(x.volume).len() <= u32::MAX,
        encode_utf8(y.volume).len() <= u32::MAX,
        object_key_bytes(x) == object_key_bytes(y),
    ensures
        x.volume == y.volume,
        x.file_id == y.file_id,
{
    lemma_read_string_of(x.volume, file_id_bytes(x.file_id));
    lemma_read_string_of(y.volume, file_id_bytes(y.file_id));
    assert(file_id_bytes(x.file_id) =~= file_id_bytes(x.file_id) + Seq::<u8>::empty());
    assert(file_id_bytes(y.file_id) =~= file_id_bytes(y.file_id) + Seq::<u8>::empty());
    lemma_read_file_id_of(x.file_id, Seq::<u8>::empty());
    lemma_read_file_id_of(y.file_id, Seq::<u8>::empty());
}

/// A canonical key followed by extra bytes is rejected with the count of the extra
/// bytes, for every address whose fields fit the length prefix.
pub proof fn lemma_trailing_bytes(a: PersistentAddressView, suffix: Seq<u8>)
    requires
        fields_fit(a),
        suffix.len() > 0,
    ensures
        decode_result(canonical_encoding(a) + suffix) == Err::<PersistentAddressView, DecodeError>(
            DecodeError::TrailingBytes(suffix.len() as usize),
        ),
{
    let vol = encode_utf8(a.volume);
    let t5 = stream_bytes(a.stream) + suffix;
    let t4 = seq![allocation_tag(a.allocation)] + t5;
    let t3 = length_prefixed(a.path) + t4;
    let t2 = file_id_bytes(a.file_id) + t3;
    let t1 = length_prefixed(vol) + t2;
    assert(canonical_encoding(a) + suffix =~= seq![CANONICAL_VERSION] + t1);
    lemma_read_u8_of(CANONICAL_VERSION, t1);
    lemma_read_string_of(a.volume, t2);
    lemma_read_file_id_of(a.file_id, t3);
    lemma_read_length_prefixed_of(a.path, t4);
    lemma_read_u8_of(allocation_tag(a.allocation), t5);
    reveal(read_allocation);
    lemma_read_stream_of(a.stream, suffix);
}

} // verus!
