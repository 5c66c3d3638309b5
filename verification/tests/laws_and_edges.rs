//! Concrete instances of the library's laws, exact layouts and messages, and the
//! edge cases of decoding and time-indexed lookup.

use state_history_forensic::{
    clock::{ClockProvenance, ClockSource, TamperResistance, TrustGrade},
    cohort::{TemporalCohort, TemporalState, Timestamp},
    epoch::{CohortTopology, EpochTag, MaterializationSafety},
    identity::{
        Allocation, ArtifactRef, CohortKey, DecodeError, FileId, HashAlgo, IdentityClaim,
        IdentityDiscipline, PersistentAddress, StreamSel,
    },
};

fn addr(volume: &str, file_id: FileId, path: &[u8], stream: StreamSel) -> PersistentAddress {
    PersistentAddress {
        volume: volume.to_string(),
        file_id,
        path: path.to_vec(),
        allocation: Allocation::Deleted,
        stream,
    }
}

fn clock() -> ClockProvenance {
    ClockProvenance {
        source: ClockSource::FileMetadata,
        trust_grade: TrustGrade::LocalSubsystem,
        tamper_resistance: TamperResistance::AdminWritable,
        ordering_only: false,
        skew_known: None,
        authenticated: None,
    }
}

fn state_at(tag: u8, wall: Option<Timestamp>) -> TemporalState<u32> {
    TemporalState {
        epoch: EpochTag([tag; 32]),
        ordering_key: None,
        wall_time: wall,
        clock: clock(),
        safety: MaterializationSafety::ReadOnlySafe,
        handle: u32::from(tag),
    }
}

fn cohort(states: Vec<TemporalState<u32>>) -> TemporalCohort<u32> {
    TemporalCohort {
        artifact: ArtifactRef { claims: vec![] },
        discipline: IdentityDiscipline::PathStable,
        topology: CohortTopology::DiscreteSet,
        states,
    }
}

fn one(claim: IdentityClaim) -> ArtifactRef {
    ArtifactRef {
        claims: vec![claim],
    }
}

// ── canonical layout ─────────────────────────────────────────────────────────

#[test]
fn canonical_bytes_exact_layout() {
    let a = addr(
        "vé",
        FileId::FatDirEntry {
            cluster: 0x0102_0304,
            index: 0x0506,
        },
        b"/p",
        StreamSel::Named(b"s".to_vec()),
    );
    let expected: Vec<u8> = vec![
        1, // version
        3, 0, 0, 0, b'v', 0xC3, 0xA9, // volume: UTF-8, length-prefixed
        3, 0x04, 0x03, 0x02, 0x01, 0x06, 0x05, // FatDirEntry
        2, 0, 0, 0, b'/', b'p', // path
        1, // Deleted
        1, 1, 0, 0, 0, b's', // Named stream
    ];
    assert_eq!(a.canonical_bytes(), expected);
}

#[test]
fn decode_of_canonical_bytes_gives_back_the_address() {
    let a = addr(
        "uuid:ünïcode",
        FileId::ExtInode { ino: u64::MAX, gen: 7 },
        b"",
        StreamSel::Named(vec![0xff, 0x00]),
    );
    assert_eq!(PersistentAddress::decode(&a.canonical_bytes()), Ok(a));
}

#[test]
fn decoded_buffer_is_the_canonical_key_of_its_address() {
    let bytes: Vec<u8> = vec![1, 0, 0, 0, 0, 4, 9, 0, 0, 0, 0, 0, 0, 0, 2, 2];
    let a = PersistentAddress::decode(&bytes).expect("well-formed");
    assert_eq!(a.file_id, FileId::IsoExtent { block: 9 });
    assert_eq!(a.allocation, Allocation::Orphan);
    assert_eq!(a.stream, StreamSel::Unknown);
    assert_eq!(a.canonical_bytes(), bytes);
}

#[test]
fn distinct_addresses_have_distinct_keys() {
    let base = addr("v", FileId::Opaque(1), b"/a", StreamSel::Default);
    let other_volume = addr("w", FileId::Opaque(1), b"/a", StreamSel::Default);
    let other_stream = addr("v", FileId::Opaque(1), b"/a", StreamSel::Named(vec![]));
    assert_ne!(base.canonical_bytes(), other_volume.canonical_bytes());
    assert_ne!(base.canonical_bytes(), other_stream.canonical_bytes());
    assert_ne!(other_volume.canonical_bytes(), other_stream.canonical_bytes());
}

// ── decode errors ───────────────────────────────────────────────────────────

#[test]
fn every_proper_prefix_of_a_key_is_truncated() {
    let bytes = addr("vsn:1", FileId::NtfsRef { entry: 5, seq: 1 }, b"/x", StreamSel::Named(b"ads".to_vec()))
        .canonical_bytes();
    for n in 0..bytes.len() {
        assert_eq!(PersistentAddress::decode(&bytes[..n]), Err(DecodeError::Truncated));
    }
}

#[test]
fn unsupported_version_reports_the_byte() {
    assert_eq!(PersistentAddress::decode(&[0]), Err(DecodeError::UnsupportedVersion(0)));
    assert_eq!(PersistentAddress::decode(&[2, 0, 0]), Err(DecodeError::UnsupportedVersion(2)));
}

#[test]
fn invalid_utf8_volume_is_rejected() {
    let bytes = [1u8, 1, 0, 0, 0, 0xff];
    assert_eq!(PersistentAddress::decode(&bytes), Err(DecodeError::InvalidUtf8));
}

#[test]
fn bad_file_id_tag_names_the_field() {
    let bytes = [1u8, 0, 0, 0, 0, 0xAB];
    assert_eq!(
        PersistentAddress::decode(&bytes),
        Err(DecodeError::BadTag {
            field: "file_id",
            tag: 0xAB
        })
    );
}

#[test]
fn trailing_bytes_are_counted() {
    let mut bytes = addr("v", FileId::Opaque(3), b"", StreamSel::Default).canonical_bytes();
    bytes.extend_from_slice(&[7, 7, 7]);
    assert_eq!(PersistentAddress::decode(&bytes), Err(DecodeError::TrailingBytes(3)));
}

#[test]
fn decode_error_messages_are_exact() {
    assert_eq!(
        DecodeError::Truncated.to_string(),
        "buffer ended before a field was fully read"
    );
    assert_eq!(
        DecodeError::UnsupportedVersion(255).to_string(),
        "unsupported canonical-encoding version 255"
    );
    assert_eq!(
        DecodeError::BadTag {
            field: "stream",
            tag: 10
        }
        .to_string(),
        "invalid discriminant 10 for field `stream`"
    );
    assert_eq!(
        DecodeError::InvalidUtf8.to_string(),
        "length-prefixed string was not valid UTF-8"
    );
    assert_eq!(
        DecodeError::TrailingBytes(0).to_string(),
        "0 trailing byte(s) after a complete address"
    );
}

// ── matching ────────────────────────────────────────────────────────────────

#[test]
fn matching_is_symmetric() {
    let a = ArtifactRef {
        claims: vec![
            IdentityClaim::ContentHash {
                algo: HashAlgo::Other("xxh3".to_string()),
                digest: vec![1, 2],
            },
            IdentityClaim::RecordIdentity {
                schema: "s".into(),
                primary_key: vec![4],
            },
        ],
    };
    let b = one(IdentityClaim::ContentHash {
        algo: HashAlgo::Other("xxh3".to_string()),
        digest: vec![1, 2],
    });
    for d in [
        IdentityDiscipline::PathStable,
        IdentityDiscipline::ContentStable,
        IdentityDiscipline::ObjectStable,
        IdentityDiscipline::RecordStable,
        IdentityDiscipline::LogicalStable,
    ] {
        assert_eq!(a.matches(&b, d), b.matches(&a, d));
    }
    assert!(a.matches(&b, IdentityDiscipline::ContentStable));
}

#[test]
fn logical_is_path_or_record() {
    let a = ArtifactRef {
        claims: vec![
            IdentityClaim::CanonicalPath {
                volume: "C:".into(),
                path: "x".into(),
            },
            IdentityClaim::RecordIdentity {
                schema: "s".into(),
                primary_key: vec![1],
            },
        ],
    };
    let b = one(IdentityClaim::RecordIdentity {
        schema: "s".into(),
        primary_key: vec![1],
    });
    assert!(!a.matches(&b, IdentityDiscipline::PathStable));
    assert!(a.matches(&b, IdentityDiscipline::RecordStable));
    assert!(a.matches(&b, IdentityDiscipline::LogicalStable));
}

#[test]
fn paths_compare_by_component() {
    let a = one(IdentityClaim::CanonicalPath {
        volume: "C:".into(),
        path: "Windows//System32/".into(),
    });
    let b = one(IdentityClaim::CanonicalPath {
        volume: "C:".into(),
        path: "Windows/System32".into(),
    });
    assert!(a.matches(&b, IdentityDiscipline::PathStable));
}

#[test]
fn inode_generation_must_agree() {
    let a = one(IdentityClaim::InodeIdentity {
        volume: "u".into(),
        inode: 1,
        generation: None,
    });
    let b = one(IdentityClaim::InodeIdentity {
        volume: "u".into(),
        inode: 1,
        generation: Some(0),
    });
    assert!(!a.matches(&b, IdentityDiscipline::ObjectStable));
    assert!(a.matches(&a.clone(), IdentityDiscipline::ObjectStable));
}

// ── cohort key ──────────────────────────────────────────────────────────────

#[test]
fn cohort_key_exact_fold() {
    let ar = ArtifactRef {
        claims: vec![
            IdentityClaim::SigningSubject {
                issuer: "i".into(),
                subject: "s".into(),
            },
            IdentityClaim::ContentHash {
                algo: HashAlgo::Sha1,
                digest: vec![0x0F, 0xF0],
            },
        ],
    };
    let mut expected = [0u8; 32];
    expected[0] = 1; // ContentStable
    // Claim index 1: byte j lands at slot (1 + j + 1) % 32.
    expected[2] ^= 0x0F;
    expected[3] ^= 0xF0;
    assert_eq!(ar.cohort_key(IdentityDiscipline::ContentStable), CohortKey::new(expected));
}

#[test]
fn cohort_key_wraps_around_the_slots() {
    let ar = one(IdentityClaim::ContentHash {
        algo: HashAlgo::Md5,
        digest: (0u8..40).collect(),
    });
    let mut expected = [0u8; 32];
    expected[0] = 1;
    for j in 0..40usize {
        expected[(j + 1) % 32] ^= j as u8;
    }
    assert_eq!(ar.cohort_key(IdentityDiscipline::ContentStable), CohortKey::new(expected));
}

#[test]
fn unfitting_claims_leave_the_empty_key() {
    let ar = ArtifactRef {
        claims: vec![
            IdentityClaim::ApplicationGuid {
                app: "a".into(),
                guid: [9; 16],
            },
            IdentityClaim::ApfsFileId {
                volume_uuid: [1; 16],
                file_id: 2,
            },
        ],
    };
    let empty = ArtifactRef { claims: vec![] };
    for d in [
        IdentityDiscipline::PathStable,
        IdentityDiscipline::ObjectStable,
        IdentityDiscipline::LogicalStable,
    ] {
        assert_eq!(ar.cohort_key(d), empty.cohort_key(d));
    }
    let mut expected = [0u8; 32];
    expected[0] = 4;
    assert_eq!(
        empty.cohort_key(IdentityDiscipline::LogicalStable).as_bytes(),
        &expected
    );
}

// ── time-indexed lookup ─────────────────────────────────────────────────────

#[test]
fn at_prefers_the_last_of_equal_wall_times_and_respects_nanos() {
    let t = |s: i64, n: u32| Some(Timestamp { secs: s, nanos: n });
    let c = cohort(vec![
        state_at(1, t(100, 0)),
        state_at(2, t(100, 0)),
        state_at(3, t(100, 500)),
        state_at(4, t(100, 0)),
    ]);
    assert_eq!(c.at(Timestamp { secs: 100, nanos: 100 }).unwrap().handle, 4);
    assert_eq!(c.at(Timestamp { secs: 100, nanos: 500 }).unwrap().handle, 3);
    assert!(c.at(Timestamp { secs: 99, nanos: 999 }).is_none());
}

#[test]
fn nearest_prefers_the_first_on_a_tie() {
    let c = cohort(vec![
        state_at(1, Some(Timestamp::from_secs(90))),
        state_at(2, Some(Timestamp::from_secs(110))),
        state_at(3, None),
    ]);
    assert_eq!(c.nearest(Timestamp::from_secs(100)).unwrap().handle, 1);
    assert_eq!(c.nearest(Timestamp::from_secs(-5)).unwrap().handle, 1);
}

#[test]
fn epoch_tag_zero_is_all_zero() {
    assert_eq!(EpochTag::zero(), EpochTag([0; 32]));
    assert_eq!(EpochTag::from_bytes([3; 32]).0, [3; 32]);
}

#[test]
fn nearest_measures_nanoseconds() {
    let c = cohort(vec![
        state_at(1, Some(Timestamp::from_secs(100))),
        state_at(2, Some(Timestamp::from_secs(101))),
    ]);
    let t = Timestamp {
        secs: 100,
        nanos: 900_000_000,
    };
    assert_eq!(c.nearest(t).unwrap().handle, 2);
    let t = Timestamp {
        secs: 100,
        nanos: 400_000_000,
    };
    assert_eq!(c.nearest(t).unwrap().handle, 1);
}

#[test]
fn nearest_handles_extreme_seconds() {
    let c = cohort(vec![
        state_at(1, Some(Timestamp::from_secs(i64::MIN))),
        state_at(2, Some(Timestamp::from_secs(i64::MAX))),
    ]);
    assert_eq!(c.nearest(Timestamp::from_secs(i64::MAX - 1)).unwrap().handle, 2);
    assert_eq!(c.nearest(Timestamp::from_secs(i64::MIN)).unwrap().handle, 1);
}

#[test]
fn logical_key_separates_path_from_hash() {
    let pa = one(IdentityClaim::CanonicalPath {
        volume: "C:".into(),
        path: "app.db".into(),
    });
    let h = one(IdentityClaim::ContentHash {
        algo: HashAlgo::Blake3,
        digest: vec![0; 32],
    });
    assert!(!pa.matches(&h, IdentityDiscipline::LogicalStable));
    assert_ne!(
        pa.cohort_key(IdentityDiscipline::LogicalStable),
        h.cohort_key(IdentityDiscipline::LogicalStable)
    );
    assert_eq!(
        pa.cohort_key(IdentityDiscipline::LogicalStable).as_bytes()[1..],
        pa.cohort_key(IdentityDiscipline::PathStable).as_bytes()[1..]
    );
}

#[test]
fn address_keys_follow_the_compared_fields() {
    let base = addr("vsn:1", FileId::NtfsRef { entry: 1, seq: 1 }, b"/a", StreamSel::Default);
    let twin = addr("vsn:1", FileId::NtfsRef { entry: 999, seq: 9 }, b"/a", StreamSel::Default);
    let renamed = addr("vsn:1", FileId::NtfsRef { entry: 1, seq: 1 }, b"/b", StreamSel::Default);
    let wrap = |a: &PersistentAddress| one(IdentityClaim::PersistentAddress(a.clone()));
    assert!(wrap(&base).matches(&wrap(&twin), IdentityDiscipline::PathStable));
    assert_eq!(
        wrap(&base).cohort_key(IdentityDiscipline::PathStable),
        wrap(&twin).cohort_key(IdentityDiscipline::PathStable)
    );
    assert_ne!(
        wrap(&base).cohort_key(IdentityDiscipline::ObjectStable),
        wrap(&twin).cohort_key(IdentityDiscipline::ObjectStable)
    );
    assert!(wrap(&base).matches(&wrap(&renamed), IdentityDiscipline::ObjectStable));
    assert_eq!(
        wrap(&base).cohort_key(IdentityDiscipline::ObjectStable),
        wrap(&renamed).cohort_key(IdentityDiscipline::ObjectStable)
    );
    assert_ne!(
        wrap(&base).cohort_key(IdentityDiscipline::PathStable),
        wrap(&renamed).cohort_key(IdentityDiscipline::PathStable)
    );
}
