//! Laws of claim matching and of the cohort key.
use vstd::prelude::*;

use super::{
    artifacts_match, canonical_paths_equal, claim_fits_discipline, claims_match_with,
    cohort_key_of, fingerprint_of, initial_key, key_after, path_texts_equal, IdentityClaim,
    IdentityDiscipline, PersistentAddress,
};

verus! {

/// Claim matching is symmetric: for a given outcome of the path comparison, `x`
/// matches `y` under a discipline exactly when `y` matches `x`; and the path
/// comparison itself is symmetric.
pub proof fn lemma_claims_match_symmetric(
    x: IdentityClaim,
    y: IdentityClaim,
    d: IdentityDiscipline,
    paths_same: bool,
)
    ensures
        claims_match_with(x, y, d, paths_same) == claims_match_with(y, x, d, paths_same),
        canonical_paths_equal(x, y) == canonical_paths_equal(y, x),
{
    if let IdentityClaim::CanonicalPath { path: px, .. } = x {
        if let IdentityClaim::CanonicalPath { path: py, .. } = y {
            assert(set![px@, py@] =~= set![py@, px@]);
        }
    }
}

/// Artifact matching is symmetric: `a` matches `b` under a discipline exactly when
/// `b` matches `a`.
pub proof fn lemma_matches_symmetric(
    a: Seq<IdentityClaim>,
    b: Seq<IdentityClaim>,
    d: IdentityDiscipline,
)
    ensures
        artifacts_match(a, b, d) == artifacts_match(b, a, d),
{
    if artifacts_match(a, b, d) {
        let (i, j) = choose|i: int, j: int|
            0 <= i < a.len() && 0 <= j < b.len() && #[trigger] claims_match_with(
                a[i],
                b[j],
                d,
                canonical_paths_equal(a[i], b[j]),
            );
        lemma_claims_match_symmetric(a[i], b[j], d, canonical_paths_equal(a[i], b[j]));
        assert(claims_match_with(b[j], a[i], d, canonical_paths_equal(b[j], a[i])));
    }
    if artifacts_match(b, a, d) {
        let (i, j) = choose|i: int, j: int|
            0 <= i < b.len() && 0 <= j < a.len() && #[trigger] claims_match_with(
                b[i],
                a[j],
                d,
                canonical_paths_equal(b[i], a[j]),
            );
        lemma_claims_match_symmetric(b[i], a[j], d, canonical_paths_equal(b[i], a[j]));
        assert(claims_match_with(a[j], b[i], d, canonical_paths_equal(a[j], b[i])));
    }
}

/// A claim feeds the cohort key of a discipline exactly when it matches itself
/// under that discipline.
pub proof fn lemma_fits_iff_matches_itself(c: IdentityClaim, d: IdentityDiscipline)
    ensures
        claim_fits_discipline(c, d) == claims_match_with(c, c, d, canonical_paths_equal(c, c)),
{
}

/// Logical stability falls back to path or record sameness: two artifacts are
/// logically the same exactly when they are the same by path or the same by record.
pub proof fn lemma_logical_is_path_or_record(a: Seq<IdentityClaim>, b: Seq<IdentityClaim>)
    ensures
        artifacts_match(a, b, IdentityDiscipline::LogicalStable) == (artifacts_match(
            a,
            b,
            IdentityDiscipline::PathStable,
        ) || artifacts_match(a, b, IdentityDiscipline::RecordStable)),
{
    let l = IdentityDiscipline::LogicalStable;
    let p = IdentityDiscipline::PathStable;
    let r = IdentityDiscipline::RecordStable;
    if artifacts_match(a, b, l) {
        let (i, j) = choose|i: int, j: int|
            0 <= i < a.len() && 0 <= j < b.len() && #[trigger] claims_match_with(
                a[i],
                b[j],
                l,
                canonical_paths_equal(a[i], b[j]),
            );
        let o = canonical_paths_equal(a[i], b[j]);
        assert(claims_match_with(a[i], b[j], p, o) || claims_match_with(a[i], b[j], r, o));
    }
    if artifacts_match(a, b, p) {
        let (i, j) = choose|i: int, j: int|
            0 <= i < a.len() && 0 <= j < b.len() && #[trigger] claims_match_with(
                a[i],
                b[j],
                p,
                canonical_paths_equal(a[i], b[j]),
            );
        assert(claims_match_with(a[i], b[j], l, canonical_paths_equal(a[i], b[j])));
    }
    if artifacts_match(a, b, r) {
        let (i, j) = choose|i: int, j: int|
            0 <= i < a.len() && 0 <= j < b.len() && #[trigger] claims_match_with(
                a[i],
                b[j],
                r,
                canonical_paths_equal(a[i], b[j]),
            );
        assert(claims_match_with(a[i], b[j], l, canonical_paths_equal(a[i], b[j])));
    }
}

proof fn lemma_key_after_unfitting(claims: Seq<IdentityClaim>, d: IdentityDiscipline, n: nat)
    requires
        n <= claims.len(),
        forall|i: int| 0 <= i < claims.len() ==> !#[trigger] claim_fits_discipline(claims[i], d),
    ensures
        key_after(claims, d, n) == initial_key(d),
    decreases n,
{
    if n > 0 {
        lemma_key_after_unfitting(claims, d, (n - 1) as nat);
        assert(!claim_fits_discipline(claims[n - 1], d));
    }
}

/// Claims that do not carry a facet the discipline compares do not touch the cohort
/// key: an artifact none of whose claims fits the discipline gets the same key as an
/// artifact with no claims (the discipline byte followed by zeros).
pub proof fn lemma_unfitting_claims_leave_key(claims: Seq<IdentityClaim>, d: IdentityDiscipline)
    requires
        forall|i: int| 0 <= i < claims.len() ==> !#[trigger] claim_fits_discipline(claims[i], d),
    ensures
        cohort_key_of(claims, d) == cohort_key_of(Seq::<IdentityClaim>::empty(), d),
        cohort_key_of(claims, d) == initial_key(d),
{
    lemma_key_after_unfitting(claims, d, claims.len());
}

/// Claims that match under a discipline are of the same kind, one of the kinds that
/// carry a matching facet; application GUIDs, APFS file ids and signing subjects
/// never match.
pub proof fn lemma_matching_claims_share_kind(
    x: IdentityClaim,
    y: IdentityClaim,
    d: IdentityDiscipline,
    paths_same: bool,
)
    ensures
        claims_match_with(x, y, d, paths_same) ==> {
            ||| x is CanonicalPath && y is CanonicalPath
            ||| x is InodeIdentity && y is InodeIdentity
            ||| x is NtfsFileRef && y is NtfsFileRef
            ||| x is ContentHash && y is ContentHash
            ||| x is RecordIdentity && y is RecordIdentity
            ||| x is PersistentAddress && y is PersistentAddress
        },
{
}

/// Two persistent addresses are path-stable exactly when volume, path and stream
/// agree (file id and allocation play no part), and object-stable exactly when
/// volume and file id agree (path, allocation and stream play no part).
pub proof fn lemma_address_stability(x: PersistentAddress, y: PersistentAddress, paths_same: bool)
    ensures
        claims_match_with(
            IdentityClaim::PersistentAddress(x),
            IdentityClaim::PersistentAddress(y),
            IdentityDiscipline::PathStable,
            paths_same,
        ) == (x.volume@ == y.volume@ && x.path@ == y.path@ && x.stream@ == y.stream@),
        claims_match_with(
            IdentityClaim::PersistentAddress(x),
            IdentityClaim::PersistentAddress(y),
            IdentityDiscipline::ObjectStable,
            paths_same,
        ) == (x.volume@ == y.volume@ && x.file_id == y.file_id),
{
}

/// Under logical stability two claims match exactly when they match by path or by
/// record.
pub proof fn lemma_logical_claims(x: IdentityClaim, y: IdentityClaim, paths_same: bool)
    ensures
        claims_match_with(x, y, IdentityDiscipline::LogicalStable, paths_same) == (
        claims_match_with(x, y, IdentityDiscipline::PathStable, paths_same) || claims_match_with(
            x,
            y,
            IdentityDiscipline::RecordStable,
            paths_same,
        )),
{
}

/// Claims that match under a discipline (canonical paths with identical texts) both
/// feed its cohort key, with the same bytes.
pub proof fn lemma_matching_claims_share_fingerprint(
    x: IdentityClaim,
    y: IdentityClaim,
    d: IdentityDiscipline,
)
    requires
        claims_match_with(x, y, d, path_texts_equal(x, y)),
    ensures
        claim_fits_discipline(x, d),
        claim_fits_discipline(y, d),
        fingerprint_of(x, d) == fingerprint_of(y, d),
{
}

proof fn lemma_key_after_agrees(
    a: Seq<IdentityClaim>,
    b: Seq<IdentityClaim>,
    d: IdentityDiscipline,
    n: nat,
)
    requires
        n <= a.len(),
        a.len() == b.len(),
        forall|i: int|
            0 <= i < a.len() && (claim_fits_discipline(a[i], d) || claim_fits_discipline(b[i], d))
                ==> #[trigger] claims_match_with(a[i], b[i], d, path_texts_equal(a[i], b[i])),
    ensures
        key_after(a, d, n) == key_after(b, d, n),
    decreases n,
{
    if n > 0 {
        lemma_key_after_agrees(a, b, d, (n - 1) as nat);
        let k = n - 1;
        if claim_fits_discipline(a[k], d) || claim_fits_discipline(b[k], d) {
            assert(claims_match_with(a[k], b[k], d, path_texts_equal(a[k], b[k])));
            lemma_matching_claims_share_fingerprint(a[k], b[k], d);
        }
    }
}

/// Artifacts whose claims pair up position by position, each pair matching under the
/// discipline wherever either claim feeds its key (canonical paths with identical
/// texts), get the same cohort key.
pub proof fn lemma_matching_artifacts_share_key(
    a: Seq<IdentityClaim>,
    b: Seq<IdentityClaim>,
    d: IdentityDiscipline,
)
    requires
        a.len() == b.len(),
        forall|i: int|
            0 <= i < a.len() && (claim_fits_discipline(a[i], d) || claim_fits_discipline(b[i], d))
                ==> #[trigger] claims_match_with(a[i], b[i], d, path_texts_equal(a[i], b[i])),
    ensures
        cohort_key_of(a, d) == cohort_key_of(b, d),
{
    lemma_key_after_agrees(a, b, d, a.len());
}

} // verus!
