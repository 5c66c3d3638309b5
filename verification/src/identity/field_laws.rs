//! Laws that tie matching and cohort keys to the claim fields themselves.
use vstd::prelude::*;
use vstd::bytes::{spec_u16_to_le_bytes, spec_u32_to_le_bytes, spec_u64_to_le_bytes};
use vstd::utf8::encode_utf8;

use super::{
    artifacts_match, canonical_paths_equal, claim_fits_discipline, claims_match_with,
    cohort_key_of, fingerprint_of, initial_key, key_after, mix_fingerprint, HashAlgo,
    IdentityClaim, IdentityDiscipline,
};
use crate::text::paths_equal;

verus! {

/// Two artifacts match under a discipline as soon as any claim of the one and any
/// claim of the other match, whatever their positions; they match only if some such
/// pair exists, so an artifact with no claims matches nothing.
pub proof fn lemma_any_pair_decides_match(
    a: Seq<IdentityClaim>,
    b: Seq<IdentityClaim>,
    d: IdentityDiscipline,
)
    ensures
        forall|i: int, j: int|
            0 <= i < a.len() && 0 <= j < b.len() && #[trigger] claims_match_with(
                a[i],
                b[j],
                d,
                canonical_paths_equal(a[i], b[j]),
            ) ==> artifacts_match(a, b, d),
        artifacts_match(a, b, d) ==> exists|i: int, j: int|
            0 <= i < a.len() && 0 <= j < b.len() && #[trigger] claims_match_with(
                a[i],
                b[j],
                d,
                canonical_paths_equal(a[i], b[j]),
            ),
        a.len() == 0 || b.len() == 0 ==> !artifacts_match(a, b, d),
{
}

/// Two canonical paths match by path (and logically) exactly when they are on the
/// same volume and their paths compare equal: identical path texts, or texts that
/// `std::path::Path` equality identifies.
pub proof fn lemma_canonical_path_matching(va: String, pa: String, vb: String, pb: String)
    ensures
        ({
            let x = IdentityClaim::CanonicalPath { volume: va, path: pa };
            let y = IdentityClaim::CanonicalPath { volume: vb, path: pb };
            let same = va@ == vb@ && (pa@ == pb@ || paths_equal(set![pa@, pb@]));
            &&& claims_match_with(x, y, IdentityDiscipline::PathStable, canonical_paths_equal(x, y))
                == same
            &&& claims_match_with(x, y, IdentityDiscipline::LogicalStable, canonical_paths_equal(x, y))
                == same
        }),
{
}

/// Two record identities match by record (and logically) exactly when both their
/// schemas and their primary keys are equal: rows of different tables never match.
pub proof fn lemma_record_matching(sa: String, ka: Vec<u8>, sb: String, kb: Vec<u8>, paths_same: bool)
    ensures
        ({
            let x = IdentityClaim::RecordIdentity { schema: sa, primary_key: ka };
            let y = IdentityClaim::RecordIdentity { schema: sb, primary_key: kb };
            &&& claims_match_with(x, y, IdentityDiscipline::RecordStable, paths_same) == (sa@
                == sb@ && ka@ == kb@)
            &&& claims_match_with(x, y, IdentityDiscipline::LogicalStable, paths_same) == (sa@
                == sb@ && ka@ == kb@)
        }),
{
}

/// Two content hashes match only when their digests are equal; with the same
/// algorithm they match exactly when their digests are equal.
pub proof fn lemma_content_matching(
    aa: HashAlgo,
    da: Vec<u8>,
    ab: HashAlgo,
    db: Vec<u8>,
    paths_same: bool,
)
    ensures
        ({
            let x = IdentityClaim::ContentHash { algo: aa, digest: da };
            let y = IdentityClaim::ContentHash { algo: ab, digest: db };
            &&& claims_match_with(x, y, IdentityDiscipline::ContentStable, paths_same) ==> da@
                == db@
            &&& aa == ab ==> (claims_match_with(x, y, IdentityDiscipline::ContentStable, paths_same)
                == (da@ == db@))
        }),
{
}

/// Two inode identities match by object exactly when volume, inode and generation
/// agree; two NTFS file references exactly when volume, MFT record and sequence agree.
pub proof fn lemma_object_matching(
    va: String,
    vb: String,
    ia: u64,
    ib: u64,
    ga: Option<u32>,
    gb: Option<u32>,
    sa: u16,
    sb: u16,
    paths_same: bool,
)
    ensures
        claims_match_with(
            IdentityClaim::InodeIdentity { volume: va, inode: ia, generation: ga },
            IdentityClaim::InodeIdentity { volume: vb, inode: ib, generation: gb },
            IdentityDiscipline::ObjectStable,
            paths_same,
        ) == (va@ == vb@ && ia == ib && ga == gb),
        claims_match_with(
            IdentityClaim::NtfsFileRef { volume: va, mft_record: ia, sequence: sa },
            IdentityClaim::NtfsFileRef { volume: vb, mft_record: ib, sequence: sb },
            IdentityDiscipline::ObjectStable,
            paths_same,
        ) == (va@ == vb@ && ia == ib && sa == sb),
{
}

/// A canonical path feeds path-stability and logical-stability keys with its
/// volume's UTF-8 bytes followed by its path's UTF-8 bytes; a record identity feeds
/// record-stability and logical-stability keys with its schema's UTF-8 bytes
/// followed by its primary key.
pub proof fn lemma_path_and_record_fingerprints(
    volume: String,
    path: String,
    schema: String,
    key: Vec<u8>,
    d: IdentityDiscipline,
)
    ensures
        (d is PathStable || d is LogicalStable) ==> ({
            let c = IdentityClaim::CanonicalPath { volume, path };
            claim_fits_discipline(c, d) && fingerprint_of(c, d) == encode_utf8(volume@)
                + encode_utf8(path@)
        }),
        (d is RecordStable || d is LogicalStable) ==> ({
            let c = IdentityClaim::RecordIdentity { schema, primary_key: key };
            claim_fits_discipline(c, d) && fingerprint_of(c, d) == encode_utf8(schema@) + key@
        }),
{
}

/// The bytes the other facets feed their keys with: a content hash its digest
/// (whatever the algorithm); an inode identity its volume's UTF-8 bytes, the inode
/// as eight little-endian bytes and, when known, the generation as four; an NTFS
/// reference its volume's bytes, the MFT record as eight little-endian bytes and
/// the sequence as two.
pub proof fn lemma_object_and_content_fingerprints(
    algo: HashAlgo,
    digest: Vec<u8>,
    volume: String,
    inode: u64,
    generation: Option<u32>,
    sequence: u16,
)
    ensures
        ({
            let c = IdentityClaim::ContentHash { algo, digest };
            claim_fits_discipline(c, IdentityDiscipline::ContentStable) && fingerprint_of(
                c,
                IdentityDiscipline::ContentStable,
            ) == digest@
        }),
        ({
            let c = IdentityClaim::InodeIdentity { volume, inode, generation };
            &&& claim_fits_discipline(c, IdentityDiscipline::ObjectStable)
            &&& fingerprint_of(c, IdentityDiscipline::ObjectStable) == encode_utf8(volume@)
                + spec_u64_to_le_bytes(inode) + match generation {
                Some(g) => spec_u32_to_le_bytes(g),
                None => Seq::<u8>::empty(),
            }
        }),
        ({
            let c = IdentityClaim::NtfsFileRef { volume, mft_record: inode, sequence };
            &&& claim_fits_discipline(c, IdentityDiscipline::ObjectStable)
            &&& fingerprint_of(c, IdentityDiscipline::ObjectStable) == encode_utf8(volume@)
                + spec_u64_to_le_bytes(inode) + spec_u16_to_le_bytes(sequence)
        }),
{
}

proof fn lemma_mix_without_wrap(key: Seq<u8>, fp: Seq<u8>, m: nat)
    requires
        key.len() == 32,
        m <= fp.len(),
        m < 32,
    ensures
        mix_fingerprint(key, fp, 0, m).len() == 32,
        mix_fingerprint(key, fp, 0, m)[0] == key[0],
        forall|s: int| 1 <= s <= m ==> #[trigger] mix_fingerprint(key, fp, 0, m)[s] == key[s] ^ fp[s - 1],
        forall|s: int| m < s < 32 ==> #[trigger] mix_fingerprint(key, fp, 0, m)[s] == key[s],
    decreases m,
{
    if m > 0 {
        lemma_mix_without_wrap(key, fp, (m - 1) as nat);
        assert((0 + (m - 1) + 1) % 32 == m);
    }
}

/// The cohort key of an artifact with one claim whose bytes fit the key without
/// wrapping: the discipline byte, then the claim's bytes in order, then zeros.
pub proof fn lemma_single_claim_key_layout(c: IdentityClaim, d: IdentityDiscipline)
    requires
        claim_fits_discipline(c, d),
        fingerprint_of(c, d).len() < 32,
    ensures
        ({
            let key = cohort_key_of(seq![c], d);
            let fp = fingerprint_of(c, d);
            &&& key.len() == 32
            &&& key[0] == initial_key(d)[0]
            &&& forall|j: int| 0 <= j < fp.len() ==> key[j + 1] == #[trigger] fp[j]
            &&& forall|s: int| fp.len() < s < 32 ==> #[trigger] key[s] == 0
        }),
{
    let fp = fingerprint_of(c, d);
    let init = initial_key(d);
    assert(seq![c][0] == c);
    assert(key_after(seq![c], d, 0) == init);
    lemma_mix_without_wrap(init, fp, fp.len());
    assert forall|j: int| 0 <= j < fp.len() implies cohort_key_of(seq![c], d)[j + 1] == #[trigger] fp[j] by {
        let b = fp[j];
        assert(init[j + 1] == 0u8);
        assert((0u8 ^ b) == b) by (bit_vector);
    }
}

/// On one volume, a single canonical path whose bytes fit the key lays its path's
/// bytes into the path-stability key right after the volume's bytes; so two such
/// paths whose texts differ but whose UTF-8 encodings have the same length get
/// different keys.
pub proof fn lemma_path_key_holds_path(volume: String, path: String, other: String)
    requires
        encode_utf8(volume@).len() + encode_utf8(path@).len() < 32,
    ensures
        ({
            let vb = encode_utf8(volume@);
            let pb = encode_utf8(path@);
            let key = cohort_key_of(
                seq![IdentityClaim::CanonicalPath { volume, path }],
                IdentityDiscipline::PathStable,
            );
            &&& key[0] == 0
            &&& forall|j: int| 0 <= j < vb.len() ==> key[j + 1] == #[trigger] vb[j]
            &&& forall|j: int| 0 <= j < pb.len() ==> key[vb.len() + j + 1] == #[trigger] pb[j]
        }),
        encode_utf8(other@).len() == encode_utf8(path@).len() && path@ != other@ ==> cohort_key_of(
            seq![IdentityClaim::CanonicalPath { volume, path }],
            IdentityDiscipline::PathStable,
        ) != cohort_key_of(
            seq![IdentityClaim::CanonicalPath { volume, path: other }],
            IdentityDiscipline::PathStable,
        ),
{
    let d = IdentityDiscipline::PathStable;
    let c = IdentityClaim::CanonicalPath { volume, path };
    let vb = encode_utf8(volume@);
    let pb = encode_utf8(path@);
    lemma_single_claim_key_layout(c, d);
    let fp = fingerprint_of(c, d);
    assert(fp == vb + pb);
    let key = cohort_key_of(seq![c], d);
    assert forall|j: int| 0 <= j < vb.len() implies key[j + 1] == #[trigger] vb[j] by {
        assert(fp[j] == vb[j]);
    }
    assert forall|j: int| 0 <= j < pb.len() implies key[vb.len() + j + 1] == #[trigger] pb[j] by {
        assert(fp[vb.len() + j] == pb[j]);
    }
    let ob = encode_utf8(other@);
    if ob.len() == pb.len() && path@ != other@ {
        let c2 = IdentityClaim::CanonicalPath { volume, path: other };
        lemma_single_claim_key_layout(c2, d);
        let fp2 = fingerprint_of(c2, d);
        assert(fp2 == vb + ob);
        vstd::utf8::encode_utf8_decode_utf8(path@);
        vstd::utf8::encode_utf8_decode_utf8(other@);
        assert(pb != ob);
        assert(!(pb =~= ob));
        let j = choose|j: int| 0 <= j < pb.len() && pb[j] != ob[j];
        assert(fp[vb.len() + j] == pb[j]);
        assert(fp2[vb.len() + j] == ob[j]);
        assert(fp[vb.len() + j] != fp2[vb.len() + j]);
        let key2 = cohort_key_of(seq![c2], d);
        assert(key[vb.len() + j + 1] != key2[vb.len() + j + 1]);
    }
}

} // verus!
