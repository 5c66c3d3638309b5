//! Multi-facet artifact identity. Several identity claims can coexist on one
//! artifact; an `IdentityDiscipline` chosen at query time decides which facet
//! defines sameness. Disagreement between facets is itself a forensic finding.
use vstd::bytes::*;
use vstd::prelude::*;
use vstd::utf8::*;

use crate::text::{path_eq, same_path};

mod address;
mod address_laws;
mod claim_laws;
mod field_laws;

pub use address::{
    allocation_tag, canonical_encoding, decode_error_message, decode_result, fields_fit,
    file_id_bytes, len_prefix, length_prefixed, object_key_bytes, path_key_bytes, read_allocation, read_bytes, read_file_id,
    read_length_prefixed, read_stream, read_string, read_u16, read_u32, read_u64, read_u8,
    stream_bytes, Allocation, DecodeError, FileId, PersistentAddress, PersistentAddressView,
    StreamSel, StreamSelView, CANONICAL_VERSION,
};
pub use field_laws::{
    lemma_any_pair_decides_match, lemma_canonical_path_matching, lemma_content_matching,
    lemma_object_and_content_fingerprints, lemma_object_matching,
    lemma_path_and_record_fingerprints, lemma_path_key_holds_path,
    lemma_record_matching, lemma_single_claim_key_layout,
};
pub use claim_laws::{
    lemma_address_stability, lemma_claims_match_symmetric, lemma_fits_iff_matches_itself,
    lemma_logical_claims, lemma_logical_is_path_or_record, lemma_matches_symmetric,
    lemma_matching_artifacts_share_key, lemma_matching_claims_share_fingerprint,
    lemma_matching_claims_share_kind, lemma_unfitting_claims_leave_key,
};
pub use address_laws::{
    file_id_tag, file_id_width, lemma_canonical_injective, lemma_decode_canonical,
    lemma_decoded_is_canonical, lemma_file_id_bytes_shape, lemma_object_key_injective,
    lemma_path_key_injective, lemma_proper_prefix_truncated, lemma_trailing_bytes,
    lemma_read_file_id_failures, lemma_read_file_id_of, tag_width,
};

use address::push_all;

verus! {

/// Opaque volume identifier (e.g. drive letter "C:", APFS UUID, ext4 UUID string).
pub type VolumeId = String;

/// Schema reference string (e.g. "sqlite:msgstore#messages").
pub type SchemaRef = String;

/// Application identifier string (e.g. "com.whatsapp", "chrome").
pub type AppId = String;

/// Digest algorithm used in an `IdentityClaim::ContentHash`.
#[derive(Debug, Clone, PartialEq, Eq, Hash)]
pub enum HashAlgo {
    Md5,
    Sha1,
    Sha256,
    Sha512,
    Blake3,
    /// Any other algorithm, identified by name.
    Other(String),
}

/// One facet of artifact identity. Multiple claims can coexist in an `ArtifactRef`.
///
/// Identity disagreement between facets is itself a forensic finding. For example,
/// a `PathStable` cohort whose `ContentStable` subcohorts split indicates the file at
/// that path was swapped while preserving its name.
#[derive(Debug, Clone, PartialEq, Eq)]
#[non_exhaustive]
pub enum IdentityClaim {
    /// Filesystem canonical path, as text; two paths are compared the way
    /// `std::path::Path` compares them.
    CanonicalPath { volume: VolumeId, path: String },
    /// POSIX inode number + optional generation counter.
    InodeIdentity { volume: VolumeId, inode: u64, generation: Option<u32> },
    /// Windows NTFS MFT record + sequence number.
    NtfsFileRef { volume: VolumeId, mft_record: u64, sequence: u16 },
    /// APFS file identifier (volume UUID as 16 bytes + file_id).
    ApfsFileId { volume_uuid: [u8; 16], file_id: u64 },
    /// Cryptographic content hash. Stable across copies; equates duplicates.
    ContentHash { algo: HashAlgo, digest: Vec<u8> },
    /// Application-level record identity (e.g. SQLite rowid, email Message-ID).
    RecordIdentity { schema: SchemaRef, primary_key: Vec<u8> },
    /// Application GUID (e.g. WhatsApp message GUID).
    ApplicationGuid { app: AppId, guid: [u8; 16] },
    /// Code-signing subject (issuer DN + subject DN, e.g. from Authenticode).
    SigningSubject { issuer: String, subject: String },
    /// `[P]` persistent-storage evidential address: the subject-world identity of a
    /// filesystem object. Its canonical bytes are the correlation key. Carries no
    /// host and no epoch.
    PersistentAddress(PersistentAddress),
}

/// How to match artifact identity across temporal states when building a cohort.
///
/// Callers select a discipline at query time. Different disciplines for the same
/// artifact can yield different (all valid) cohort groupings.
#[derive(Debug, Clone, Copy, PartialEq, Eq, Hash, Structural)]
#[non_exhaustive]
pub enum IdentityDiscipline {
    /// Same canonical path across snapshots. Grouping: by `CanonicalPath` claim.
    PathStable,
    /// Same content hash. Groups copies/duplicates together.
    ContentStable,
    /// Same filesystem object (inode+generation, MFT record+sequence). Detects swaps.
    ObjectStable,
    /// Same application-level record (rowid, message_id). Detects app reinstalls.
    RecordStable,
    /// Same logical artifact across reinstalls (rarely provable without external evidence).
    LogicalStable,
}

/// Opaque key used to group temporal states into a cohort under a given `IdentityDiscipline`.
///
/// Computed from the selected discipline + the relevant claim fields. Two `ArtifactRef`
/// values that produce the same `CohortKey` for a given discipline belong to the same cohort.
#[derive(Debug, Clone, PartialEq, Eq, Hash)]
pub struct CohortKey([u8; 32]);

impl CohortKey {
    /// The 32 key bytes.
    pub closed spec fn key_bytes(&self) -> Seq<u8> {
        self.0@
    }

    /// Construct from a pre-computed 32-byte key (e.g. SHA-256 of the identity claims).
    pub fn new(bytes: [u8; 32]) -> (k: Self)
        ensures
            k.key_bytes() == bytes@,
    {
        CohortKey(bytes)
    }

    pub fn as_bytes(&self) -> (b: &[u8; 32])
        ensures
            b@ == self.key_bytes(),
    {
        &self.0
    }
}

/// Set of identity claims describing a single artifact across all its temporal states.
///
/// Multiple claims can coexist; each facet can independently agree or disagree across
/// snapshot boundaries. Disagreement between facets is surfaced as an
/// `IdentityDiscontinuity` forensic finding.
#[derive(Debug, Clone, PartialEq, Eq)]
pub struct ArtifactRef {
    pub claims: Vec<IdentityClaim>,
}

// ---------------------------------------------------------------------------
// Sameness of claims under a discipline
// ---------------------------------------------------------------------------

/// Two digest algorithms are the same algorithm (by name for `Other`).
pub open spec fn same_hash_algo(a: HashAlgo, b: HashAlgo) -> bool {
    match a {
        HashAlgo::Md5 => b is Md5,
        HashAlgo::Sha1 => b is Sha1,
        HashAlgo::Sha256 => b is Sha256,
        HashAlgo::Sha512 => b is Sha512,
        HashAlgo::Blake3 => b is Blake3,
        HashAlgo::Other(x) => b matches HashAlgo::Other(y) && x@ == y@,
    }
}

/// Both claims are canonical paths with identical path texts.
pub open spec fn path_texts_equal(a: IdentityClaim, b: IdentityClaim) -> bool {
    a matches IdentityClaim::CanonicalPath { path: pa, .. } && b matches IdentityClaim::CanonicalPath { path: pb, .. }
        && pa@ == pb@
}

/// Both claims are canonical paths whose paths compare equal as `std::path::Path`
/// values (identical texts always do).
pub open spec fn canonical_paths_equal(a: IdentityClaim, b: IdentityClaim) -> bool {
    a matches IdentityClaim::CanonicalPath { path: pa, .. } && b matches IdentityClaim::CanonicalPath { path: pb, .. }
        && same_path(pa@, pb@)
}

/// Same path: two `CanonicalPath` claims on one volume whose paths compare equal
/// (`paths_same`, the outcome of the platform's path comparison), or two persistent
/// addresses with equal volume, path and stream (the object slot may differ).
pub open spec fn path_stable_match(a: IdentityClaim, b: IdentityClaim, paths_same: bool) -> bool {
    ||| a matches IdentityClaim::CanonicalPath { volume: va, .. } && b matches IdentityClaim::CanonicalPath { volume: vb, .. }
        && va@ == vb@ && paths_same
    ||| a matches IdentityClaim::PersistentAddress(x) && b matches IdentityClaim::PersistentAddress(y)
        && x.volume@ == y.volume@ && x.path@ == y.path@ && x.stream@ == y.stream@
}

/// Same content: two content hashes with the same algorithm and digest.
pub open spec fn content_stable_match(a: IdentityClaim, b: IdentityClaim) -> bool {
    a matches IdentityClaim::ContentHash { algo: aa, digest: da } && b matches IdentityClaim::ContentHash { algo: ab, digest: db }
        && same_hash_algo(aa, ab) && da@ == db@
}

/// Same filesystem object: equal inode identities, equal NTFS file references, or
/// two persistent addresses with equal volume and file id (robust to renames; the
/// slot-reuse discriminator inside the file id keeps a reallocated record distinct).
pub open spec fn object_stable_match(a: IdentityClaim, b: IdentityClaim) -> bool {
    ||| a matches IdentityClaim::InodeIdentity { volume: va, inode: ia, generation: ga } && b matches IdentityClaim::InodeIdentity { volume: vb, inode: ib, generation: gb }
        && va@ == vb@ && ia == ib && ga == gb
    ||| a matches IdentityClaim::NtfsFileRef { volume: va, mft_record: ma, sequence: sa } && b matches IdentityClaim::NtfsFileRef { volume: vb, mft_record: mb, sequence: sb }
        && va@ == vb@ && ma == mb && sa == sb
    ||| a matches IdentityClaim::PersistentAddress(x) && b matches IdentityClaim::PersistentAddress(y)
        && x.volume@ == y.volume@ && x.file_id == y.file_id
}

/// Same application record: equal schema and primary key.
pub open spec fn record_stable_match(a: IdentityClaim, b: IdentityClaim) -> bool {
    a matches IdentityClaim::RecordIdentity { schema: sa, primary_key: ka } && b matches IdentityClaim::RecordIdentity { schema: sb, primary_key: kb }
        && sa@ == sb@ && ka@ == kb@
}

/// Whether two claims name the same artifact under discipline `d`, given the
/// outcome `paths_same` of comparing their paths (used only for two canonical
/// paths). Logical stability needs out-of-band evidence; it falls back to path or
/// record sameness.
pub open spec fn claims_match_with(
    a: IdentityClaim,
    b: IdentityClaim,
    d: IdentityDiscipline,
    paths_same: bool,
) -> bool {
    match d {
        IdentityDiscipline::PathStable => path_stable_match(a, b, paths_same),
        IdentityDiscipline::ContentStable => content_stable_match(a, b),
        IdentityDiscipline::ObjectStable => object_stable_match(a, b),
        IdentityDiscipline::RecordStable => record_stable_match(a, b),
        IdentityDiscipline::LogicalStable => path_stable_match(a, b, paths_same)
            || record_stable_match(a, b),
    }
}

/// Whether some claim of `a` and some claim of `b` name the same artifact under `d`,
/// canonical paths being compared as `std::path::Path` values.
pub open spec fn artifacts_match(a: Seq<IdentityClaim>, b: Seq<IdentityClaim>, d: IdentityDiscipline) -> bool {
    exists|i: int, j: int|
        0 <= i < a.len() && 0 <= j < b.len() && #[trigger] claims_match_with(
            a[i],
            b[j],
            d,
            canonical_paths_equal(a[i], b[j]),
        )
}

/// Whether a claim carries a facet that discipline `d` compares (and so feeds the
/// cohort key). Persistent addresses feed path, object and logical keys; logical
/// stability, which falls back to path or record sameness, takes path and record
/// facets.
pub open spec fn claim_fits_discipline(c: IdentityClaim, d: IdentityDiscipline) -> bool {
    match c {
        IdentityClaim::CanonicalPath { .. } => d is PathStable || d is LogicalStable,
        IdentityClaim::ContentHash { .. } => d is ContentStable,
        IdentityClaim::InodeIdentity { .. } => d is ObjectStable,
        IdentityClaim::NtfsFileRef { .. } => d is ObjectStable,
        IdentityClaim::RecordIdentity { .. } => d is RecordStable || d is LogicalStable,
        IdentityClaim::PersistentAddress(_) => d is PathStable || d is ObjectStable
            || d is LogicalStable,
        _ => false,
    }
}

/// The bytes a claim contributes to a cohort key under discipline `d`. A persistent
/// address contributes only the fields the discipline compares.
pub open spec fn fingerprint_of(c: IdentityClaim, d: IdentityDiscipline) -> Seq<u8> {
    match c {
        IdentityClaim::CanonicalPath { volume, path } => encode_utf8(volume@) + encode_utf8(path@),
        IdentityClaim::InodeIdentity { volume, inode, generation } => encode_utf8(volume@)
            + spec_u64_to_le_bytes(inode) + match generation {
            Some(g) => spec_u32_to_le_bytes(g),
            None => Seq::<u8>::empty(),
        },
        IdentityClaim::NtfsFileRef { volume, mft_record, sequence } => encode_utf8(volume@)
            + spec_u64_to_le_bytes(mft_record) + spec_u16_to_le_bytes(sequence),
        IdentityClaim::ApfsFileId { volume_uuid, file_id } => volume_uuid@ + spec_u64_to_le_bytes(
            file_id,
        ),
        IdentityClaim::ContentHash { digest, .. } => digest@,
        IdentityClaim::RecordIdentity { schema, primary_key } => encode_utf8(schema@)
            + primary_key@,
        IdentityClaim::ApplicationGuid { guid, .. } => guid@,
        IdentityClaim::SigningSubject { issuer, subject } => encode_utf8(issuer@) + encode_utf8(
            subject@,
        ),
        IdentityClaim::PersistentAddress(addr) => if d is ObjectStable {
            object_key_bytes(addr@)
        } else {
            path_key_bytes(addr@)
        },
    }
}

// ---------------------------------------------------------------------------
// The cohort key: a non-cryptographic fold of the fitting claims' fingerprints
// ---------------------------------------------------------------------------

/// The byte that identifies a discipline in the first slot of a cohort key.
pub open spec fn discipline_code(d: IdentityDiscipline) -> u8 {
    match d {
        IdentityDiscipline::PathStable => 0,
        IdentityDiscipline::ContentStable => 1,
        IdentityDiscipline::ObjectStable => 2,
        IdentityDiscipline::RecordStable => 3,
        IdentityDiscipline::LogicalStable => 4,
    }
}

/// The key before any claim is mixed in: the discipline byte, then 31 zero bytes.
pub open spec fn initial_key(d: IdentityDiscipline) -> Seq<u8> {
    Seq::new(32, |k: int| if k == 0 { discipline_code(d) } else { 0u8 })
}

/// XOR the first `m` bytes of a fingerprint into the key; byte `j` of the claim at
/// index `i` lands at slot `(i + j + 1) % 32`.
pub open spec fn mix_fingerprint(key: Seq<u8>, fp: Seq<u8>, i: int, m: nat) -> Seq<u8>
    decreases m,
{
    if m == 0 {
        key
    } else {
        let k = mix_fingerprint(key, fp, i, (m - 1) as nat);
        let slot = (i + (m - 1) + 1) % 32;
        k.update(slot, k[slot] ^ fp[m - 1])
    }
}

/// The key after the first `n` claims: each claim that fits the discipline has its
/// whole fingerprint under that discipline mixed in; the others leave the key as it is.
pub open spec fn key_after(claims: Seq<IdentityClaim>, d: IdentityDiscipline, n: nat) -> Seq<u8>
    decreases n,
{
    if n == 0 {
        initial_key(d)
    } else {
        let k = key_after(claims, d, (n - 1) as nat);
        let c = claims[n - 1];
        if claim_fits_discipline(c, d) {
            mix_fingerprint(k, fingerprint_of(c, d), n - 1, fingerprint_of(c, d).len())
        } else {
            k
        }
    }
}

/// The cohort key of a claim list under a discipline.
pub open spec fn cohort_key_of(claims: Seq<IdentityClaim>, d: IdentityDiscipline) -> Seq<u8> {
    key_after(claims, d, claims.len())
}

// ---------------------------------------------------------------------------
// Executable comparisons and the cohort fold
// ---------------------------------------------------------------------------

fn bytes_eq(a: &[u8], b: &[u8]) -> (r: bool)
    ensures
        r == (a@ == b@),
{
    if a.len() != b.len() {
        return false;
    }
    let mut i: usize = 0;
    while i < a.len()
        invariant
            a@.len() == b@.len(),
            i <= a@.len(),
            forall|k: int| 0 <= k < i ==> a@[k] == b@[k],
        decreases a@.len() - i,
    {
        if a[i] != b[i] {
            return false;
        }
        i = i + 1;
    }
    assert(a@ =~= b@);
    true
}

fn stream_eq(a: &StreamSel, b: &StreamSel) -> (r: bool)
    ensures
        r == (a@ == b@),
{
    match a {
        StreamSel::Default => match b { StreamSel::Default => true, _ => false },
        StreamSel::Named(x) => match b {
            StreamSel::Named(y) => bytes_eq(x.as_slice(), y.as_slice()),
            _ => false,
        },
        StreamSel::Unknown => match b { StreamSel::Unknown => true, _ => false },
    }
}

fn hash_algo_eq(a: &HashAlgo, b: &HashAlgo) -> (r: bool)
    ensures
        r == same_hash_algo(*a, *b),
{
    match a {
        HashAlgo::Md5 => match b { HashAlgo::Md5 => true, _ => false },
        HashAlgo::Sha1 => match b { HashAlgo::Sha1 => true, _ => false },
        HashAlgo::Sha256 => match b { HashAlgo::Sha256 => true, _ => false },
        HashAlgo::Sha512 => match b { HashAlgo::Sha512 => true, _ => false },
        HashAlgo::Blake3 => match b { HashAlgo::Blake3 => true, _ => false },
        HashAlgo::Other(x) => match b {
            HashAlgo::Other(y) => *x == *y,
            _ => false,
        },
    }
}

fn path_stable_eq(a: &IdentityClaim, b: &IdentityClaim, paths_same: bool) -> (r: bool)
    ensures
        r == path_stable_match(*a, *b, paths_same),
{
    match a {
        IdentityClaim::CanonicalPath { volume: va, .. } => match b {
            IdentityClaim::CanonicalPath { volume: vb, .. } => *va == *vb && paths_same,
            _ => false,
        },
        IdentityClaim::PersistentAddress(pa) => match b {
            IdentityClaim::PersistentAddress(pb) => pa.volume == pb.volume && bytes_eq(
                pa.path.as_slice(),
                pb.path.as_slice(),
            ) && stream_eq(&pa.stream, &pb.stream),
            _ => false,
        },
        _ => false,
    }
}

fn record_stable_eq(a: &IdentityClaim, b: &IdentityClaim) -> (r: bool)
    ensures
        r == record_stable_match(*a, *b),
{
    match a {
        IdentityClaim::RecordIdentity { schema: sa, primary_key: ka } => match b {
            IdentityClaim::RecordIdentity { schema: sb, primary_key: kb } => *sa == *sb && bytes_eq(
                ka.as_slice(),
                kb.as_slice(),
            ),
            _ => false,
        },
        _ => false,
    }
}

fn content_stable_eq(a: &IdentityClaim, b: &IdentityClaim) -> (r: bool)
    ensures
        r == content_stable_match(*a, *b),
{
    match a {
        IdentityClaim::ContentHash { algo: aa, digest: da } => match b {
            IdentityClaim::ContentHash { algo: ab, digest: db } => hash_algo_eq(aa, ab) && bytes_eq(
                da.as_slice(),
                db.as_slice(),
            ),
            _ => false,
        },
        _ => false,
    }
}

fn object_stable_eq(a: &IdentityClaim, b: &IdentityClaim) -> (r: bool)
    ensures
        r == object_stable_match(*a, *b),
{
    match a {
        IdentityClaim::InodeIdentity { volume: va, inode: ia, generation: ga } => match b {
            IdentityClaim::InodeIdentity { volume: vb, inode: ib, generation: gb } => {
                let same_generation = match ga {
                    Some(x) => match gb {
                        Some(y) => *x == *y,
                        None => false,
                    },
                    None => gb.is_none(),
                };
                *va == *vb && *ia == *ib && same_generation
            },
            _ => false,
        },
        IdentityClaim::NtfsFileRef { volume: va, mft_record: ma, sequence: sa } => match b {
            IdentityClaim::NtfsFileRef { volume: vb, mft_record: mb, sequence: sb } => *va == *vb
                && *ma == *mb && *sa == *sb,
            _ => false,
        },
        IdentityClaim::PersistentAddress(pa) => match b {
            IdentityClaim::PersistentAddress(pb) => pa.volume == pb.volume && pa.file_id
                == pb.file_id,
            _ => false,
        },
        _ => false,
    }
}

/// Whether two claims name the same artifact under discipline `d`, given the
/// outcome `paths_same` of comparing their paths (looked at only when both are
/// canonical paths).
fn claims_match_with_paths(
    a: &IdentityClaim,
    b: &IdentityClaim,
    d: IdentityDiscipline,
    paths_same: bool,
) -> (r: bool)
    ensures
        r == claims_match_with(*a, *b, d, paths_same),
{
    match d {
        IdentityDiscipline::PathStable => path_stable_eq(a, b, paths_same),
        IdentityDiscipline::ContentStable => content_stable_eq(a, b),
        IdentityDiscipline::ObjectStable => object_stable_eq(a, b),
        IdentityDiscipline::RecordStable => record_stable_eq(a, b),
        // Logical stability requires out-of-band evidence; default to path + record.
        IdentityDiscipline::LogicalStable => path_stable_eq(a, b, paths_same) || record_stable_eq(
            a,
            b,
        ),
    }
}

/// Whether two claims name the same artifact under discipline `d`, comparing two
/// canonical paths with `std::path::Path` equality.
fn claims_match_under(a: &IdentityClaim, b: &IdentityClaim, d: IdentityDiscipline) -> (r: bool)
    ensures
        r == claims_match_with(*a, *b, d, canonical_paths_equal(*a, *b)),
{
    let paths_same = match a {
        IdentityClaim::CanonicalPath { volume: va, path: pa } => match b {
            IdentityClaim::CanonicalPath { volume: vb, path: pb } => {
                let path_discipline = match d {
                    IdentityDiscipline::PathStable => true,
                    IdentityDiscipline::LogicalStable => true,
                    _ => false,
                };
                path_discipline && *va == *vb && path_eq(pa.as_str(), pb.as_str())
            },
            _ => false,
        },
        _ => false,
    };
    claims_match_with_paths(a, b, d, paths_same)
}

/// Whether a claim carries a facet that discipline `d` compares.
fn claim_matches_discipline(claim: &IdentityClaim, d: IdentityDiscipline) -> (r: bool)
    ensures
        r == claim_fits_discipline(*claim, d),
{
    match claim {
        IdentityClaim::CanonicalPath { .. } => matches!(
            d,
            IdentityDiscipline::PathStable | IdentityDiscipline::LogicalStable
        ),
        IdentityClaim::ContentHash { .. } => matches!(d, IdentityDiscipline::ContentStable),
        IdentityClaim::InodeIdentity { .. } => matches!(d, IdentityDiscipline::ObjectStable),
        IdentityClaim::NtfsFileRef { .. } => matches!(d, IdentityDiscipline::ObjectStable),
        IdentityClaim::RecordIdentity { .. } => matches!(
            d,
            IdentityDiscipline::RecordStable | IdentityDiscipline::LogicalStable
        ),
        IdentityClaim::PersistentAddress(_) => matches!(
            d,
            IdentityDiscipline::PathStable | IdentityDiscipline::ObjectStable
                | IdentityDiscipline::LogicalStable
        ),
        _ => false,
    }
}

/// The bytes a claim contributes to a cohort key under discipline `d`.
fn claim_fingerprint(claim: &IdentityClaim, d: IdentityDiscipline) -> (v: Vec<u8>)
    ensures
        v@ == fingerprint_of(*claim, d),
{
    let mut v: Vec<u8> = Vec::new();
    match claim {
        IdentityClaim::CanonicalPath { volume, path } => {
            push_all(&mut v, volume.as_str().as_bytes());
            push_all(&mut v, path.as_str().as_bytes());
        },
        IdentityClaim::InodeIdentity { volume, inode, generation } => {
            push_all(&mut v, volume.as_str().as_bytes());
            push_all(&mut v, u64_to_le_bytes(*inode).as_slice());
            if let Some(g) = generation {
                push_all(&mut v, u32_to_le_bytes(*g).as_slice());
            }
        },
        IdentityClaim::NtfsFileRef { volume, mft_record, sequence } => {
            push_all(&mut v, volume.as_str().as_bytes());
            push_all(&mut v, u64_to_le_bytes(*mft_record).as_slice());
            push_all(&mut v, u16_to_le_bytes(*sequence).as_slice());
        },
        IdentityClaim::ApfsFileId { volume_uuid, file_id } => {
            push_all(&mut v, vstd::array::array_as_slice(volume_uuid));
            push_all(&mut v, u64_to_le_bytes(*file_id).as_slice());
        },
        IdentityClaim::ContentHash { digest, .. } => {
            push_all(&mut v, digest.as_slice());
        },
        IdentityClaim::RecordIdentity { schema, primary_key } => {
            push_all(&mut v, schema.as_str().as_bytes());
            push_all(&mut v, primary_key.as_slice());
        },
        IdentityClaim::ApplicationGuid { guid, .. } => {
            push_all(&mut v, vstd::array::array_as_slice(guid));
        },
        IdentityClaim::SigningSubject { issuer, subject } => {
            push_all(&mut v, issuer.as_str().as_bytes());
            push_all(&mut v, subject.as_str().as_bytes());
        },
        IdentityClaim::PersistentAddress(addr) => {
            v = match d {
                IdentityDiscipline::ObjectStable => addr.object_key(),
                _ => addr.path_key(),
            };
        },
    }
    assert(v@ =~= fingerprint_of(*claim, d));
    v
}

fn discipline_byte(d: IdentityDiscipline) -> (b: u8)
    ensures
        b == discipline_code(d),
{
    match d {
        IdentityDiscipline::PathStable => 0,
        IdentityDiscipline::ContentStable => 1,
        IdentityDiscipline::ObjectStable => 2,
        IdentityDiscipline::RecordStable => 3,
        IdentityDiscipline::LogicalStable => 4,
    }
}

impl ArtifactRef {
    /// Check whether `other` refers to the same artifact under `discipline`: some
    /// claim of each names the same artifact under it. Canonical paths are compared
    /// as `std::path::Path` values.
    pub fn matches(&self, other: &Self, discipline: IdentityDiscipline) -> (r: bool)
        ensures
            r == artifacts_match(self.claims@, other.claims@, discipline),
    {
        let mut i: usize = 0;
        while i < self.claims.len()
            invariant
                i <= self.claims@.len(),
                forall|x: int, y: int|
                    0 <= x < i && 0 <= y < other.claims@.len() ==> !#[trigger] claims_match_with(
                        self.claims@[x],
                        other.claims@[y],
                        discipline,
                        canonical_paths_equal(self.claims@[x], other.claims@[y]),
                    ),
            decreases self.claims@.len() - i,
        {
            let mut j: usize = 0;
            while j < other.claims.len()
                invariant
                    i < self.claims@.len(),
                    j <= other.claims@.len(),
                    forall|x: int, y: int|
                        0 <= x < i && 0 <= y < other.claims@.len() ==> !#[trigger] claims_match_with(
                            self.claims@[x],
                            other.claims@[y],
                            discipline,
                            canonical_paths_equal(self.claims@[x], other.claims@[y]),
                        ),
                    forall|y: int|
                        0 <= y < j ==> !#[trigger] claims_match_with(
                            self.claims@[i as int],
                            other.claims@[y],
                            discipline,
                            canonical_paths_equal(self.claims@[i as int], other.claims@[y]),
                        ),
                decreases other.claims@.len() - j,
            {
                if claims_match_under(&self.claims[i], &other.claims[j], discipline) {
                    return true;
                }
                j = j + 1;
            }
            i = i + 1;
        }
        false
    }

    /// Derive a cohort grouping key for this artifact under `discipline`.
    ///
    /// Uses a simple FNV-like fold; callers that need collision-resistance should
    /// supply their own hashing layer above this crate.
    pub fn cohort_key(&self, discipline: IdentityDiscipline) -> (k: CohortKey)
        ensures
            k.key_bytes() == cohort_key_of(self.claims@, discipline),
    {
        let mut key: [u8; 32] = [0u8; 32];
        key[0] = discipline_byte(discipline);
        assert(key@ =~= initial_key(discipline));
        let mut i: usize = 0;
        while i < self.claims.len()
            invariant
                i <= self.claims@.len(),
                key@ == key_after(self.claims@, discipline, i as nat),
                key@.len() == 32,
            decreases self.claims@.len() - i,
        {
            let claim = &self.claims[i];
            if claim_matches_discipline(claim, discipline) {
                let bytes = claim_fingerprint(claim, discipline);
                let ghost start = key@;
                let mut j: usize = 0;
                while j < bytes.len()
                    invariant
                        j <= bytes@.len(),
                        i < self.claims@.len(),
                        key@ == mix_fingerprint(start, bytes@, i as int, j as nat),
                        key@.len() == 32,
                    decreases bytes@.len() - j,
                {
                    let slot = ((i % 32) + (j % 32) + 1) % 32;
                    assert(slot == (i + j + 1) % 32) by (nonlinear_arith)
                        requires
                            slot == ((i % 32) + (j % 32) + 1) % 32,
                    ;
                    let mixed = key[slot] ^ bytes[j];
                    key[slot] = mixed;
                    j = j + 1;
                }
            }
            i = i + 1;
        }
        CohortKey(key)
    }
}

} // verus!
