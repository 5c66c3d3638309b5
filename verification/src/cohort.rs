use vstd::prelude::*;

use crate::clock::ClockProvenance;
use crate::epoch::{CohortTopology, EpochTag, LsnKind, MaterializationSafety};
use crate::identity::{ArtifactRef, IdentityDiscipline};

verus! {

/// Unix timestamp (seconds since epoch + nanosecond subsecond component).
///
/// Chrono-free; callers that use `chrono` can convert via `DateTime::from_timestamp`.
/// Ordered by seconds, then nanoseconds.
#[derive(Debug, Clone, Copy, PartialEq, Eq, PartialOrd, Ord, Hash, Structural)]
pub struct Timestamp {
    /// Seconds since Unix epoch (UTC).
    pub secs: i64,
    /// Subsecond component in nanoseconds \[0, 999_999_999\].
    pub nanos: u32,
}

/// `a` is at or before `b`: the order of `(secs, nanos)` pairs.
pub open spec fn not_after(a: Timestamp, b: Timestamp) -> bool {
    a.secs < b.secs || (a.secs == b.secs && a.nanos <= b.nanos)
}

/// `a` is strictly before `b`.
pub open spec fn before(a: Timestamp, b: Timestamp) -> bool {
    a.secs < b.secs || (a.secs == b.secs && a.nanos < b.nanos)
}

fn not_after_exec(a: Timestamp, b: Timestamp) -> (r: bool)
    ensures
        r == not_after(a, b),
{
    a.secs < b.secs || (a.secs == b.secs && a.nanos <= b.nanos)
}

impl Timestamp {
    /// A timestamp on a whole second.
    pub fn from_secs(secs: i64) -> (t: Self)
        ensures
            t.secs == secs,
            t.nanos == 0,
    {
        Self { secs, nanos: 0 }
    }
}

/// A single temporal state of an artifact within a cohort.
///
/// The generic parameter `H` is the concrete handle type defined by the `HistoricalSource`
/// implementor (e.g. `PathBuf` for a VSS shadow mount path, `u32` for a WAL frame index,
/// `[u8; 20]` for a git commit OID). Using a generic avoids trait-object overhead while
/// preserving a uniform API for orchestration.
#[derive(Debug)]
pub struct TemporalState<H> {
    /// Opaque identifier for this epoch; stable for the lifetime of the source.
    pub epoch: EpochTag,
    /// Source-specific ordering key (LSN, commit sequence, etc.). `None` for discrete sets.
    pub ordering_key: Option<LsnKind>,
    /// Absolute wall time for this epoch, if known. `None` when `clock.ordering_only` is true.
    pub wall_time: Option<Timestamp>,
    /// Clock provenance for `wall_time` (or for the ordering key if `ordering_only`).
    pub clock: ClockProvenance,
    /// How to safely access this state without destroying evidence.
    pub safety: MaterializationSafety,
    /// Source-defined handle for locating / materializing this state.
    pub handle: H,
}

/// Ordered set of temporal states for a single logical artifact under one identity discipline.
///
/// `states` is chronologically ordered where `wall_time` is available; ordering-only cohorts
/// are ordered by `ordering_key`. States with equal ordering are ordered arbitrarily.
#[derive(Debug)]
pub struct TemporalCohort<H> {
    /// The artifact this cohort describes.
    pub artifact: ArtifactRef,
    /// The discipline under which identity was determined.
    pub discipline: IdentityDiscipline,
    /// Structural relationship between states (discrete set, linear journal, DAG, ...).
    pub topology: CohortTopology,
    /// Chronologically ordered temporal states. Ordering is by `wall_time` when available,
    /// else by `ordering_key`, else arbitrary.
    pub states: Vec<TemporalState<H>>,
}

/// The state has a wall time, and it is at or before `t`.
pub open spec fn known_at<H>(s: TemporalState<H>, t: Timestamp) -> bool {
    s.wall_time matches Some(w) && not_after(w, t)
}

/// The wall time of a state that has one.
pub open spec fn wall_of<H>(s: TemporalState<H>) -> Timestamp {
    s.wall_time.unwrap()
}

/// `k` is the state that `at(t)` picks: a state known at `t` with the latest wall
/// time among them, and the last such state where several share that wall time.
pub open spec fn is_latest_known_at<H>(states: Seq<TemporalState<H>>, t: Timestamp, k: int) -> bool {
    &&& 0 <= k < states.len()
    &&& known_at(states[k], t)
    &&& forall|i: int|
        0 <= i < states.len() && known_at(#[trigger] states[i], t) ==> not_after(
            wall_of(states[i]),
            wall_of(states[k]),
        )
    &&& forall|i: int|
        k < i < states.len() && known_at(#[trigger] states[i], t) ==> before(
            wall_of(states[i]),
            wall_of(states[k]),
        )
}

/// A timestamp as a count of nanoseconds since the epoch.
pub open spec fn total_nanos(t: Timestamp) -> int {
    t.secs * 1_000_000_000 + t.nanos
}

/// The distance between a wall time and `t`, in nanoseconds.
pub open spec fn time_apart(w: Timestamp, t: Timestamp) -> int {
    if total_nanos(w) >= total_nanos(t) {
        total_nanos(w) - total_nanos(t)
    } else {
        total_nanos(t) - total_nanos(w)
    }
}

/// `k` is the state that `nearest(t)` picks: a state with a wall time whose
/// distance from `t` (seconds and nanoseconds) is least, and the first such state on a tie.
pub open spec fn is_nearest<H>(states: Seq<TemporalState<H>>, t: Timestamp, k: int) -> bool {
    &&& 0 <= k < states.len()
    &&& states[k].wall_time is Some
    &&& forall|i: int|
        0 <= i < states.len() && (#[trigger] states[i]).wall_time is Some ==> time_apart(
            wall_of(states[k]),
            t,
        ) <= time_apart(wall_of(states[i]), t)
    &&& forall|i: int|
        0 <= i < k && (#[trigger] states[i]).wall_time is Some ==> time_apart(
            wall_of(states[k]),
            t,
        ) < time_apart(wall_of(states[i]), t)
}

impl<H> TemporalCohort<H> {
    /// Return the state whose `wall_time` is closest to and not after `t`.
    ///
    /// Returns `None` if no state has a `wall_time` at or before `t`.
    pub fn at(&self, t: Timestamp) -> (r: Option<&TemporalState<H>>)
        ensures
            r is None <==> forall|i: int|
                0 <= i < self.states@.len() ==> !known_at(#[trigger] self.states@[i], t),
            r matches Some(s) ==> exists|k: int|
                is_latest_known_at(self.states@, t, k) && *s == self.states@[k],
    {
        let mut best: Option<usize> = None;
        let mut i: usize = 0;
        while i < self.states.len()
            invariant
                i <= self.states@.len(),
                best is None ==> forall|j: int|
                    0 <= j < i ==> !known_at(#[trigger] self.states@[j], t),
                best matches Some(b) ==> {
                    &&& b < i
                    &&& known_at(self.states@[b as int], t)
                    &&& forall|j: int|
                        0 <= j < i && known_at(#[trigger] self.states@[j], t) ==> not_after(
                            wall_of(self.states@[j]),
                            wall_of(self.states@[b as int]),
                        )
                    &&& forall|j: int|
                        b < j < i && known_at(#[trigger] self.states@[j], t) ==> before(
                            wall_of(self.states@[j]),
                            wall_of(self.states@[b as int]),
                        )
                },
            decreases self.states@.len() - i,
        {
            if let Some(w) = self.states[i].wall_time {
                if not_after_exec(w, t) {
                    match best {
                        None => {
                            best = Some(i);
                        },
                        Some(b) => {
                            if let Some(bw) = self.states[b].wall_time {
                                if not_after_exec(bw, w) {
                                    best = Some(i);
                                }
                            }
                        },
                    }
                }
            }
            i = i + 1;
        }
        match best {
            None => None,
            Some(b) => {
                assert(is_latest_known_at(self.states@, t, b as int));
                Some(&self.states[b])
            },
        }
    }

    /// Return the state whose `wall_time` is nearest to `t` (before or after),
    /// measured over seconds and nanoseconds; the first such state on a tie.
    ///
    /// Returns `None` if no state has a `wall_time`.
    pub fn nearest(&self, t: Timestamp) -> (r: Option<&TemporalState<H>>)
        ensures
            r is None <==> forall|i: int|
                0 <= i < self.states@.len() ==> (#[trigger] self.states@[i]).wall_time is None,
            r matches Some(s) ==> exists|k: int| is_nearest(self.states@, t, k) && *s == self.states@[k],
    {
        let mut best: Option<(usize, u128)> = None;
        let mut i: usize = 0;
        while i < self.states.len()
            invariant
                i <= self.states@.len(),
                best is None ==> forall|j: int|
                    0 <= j < i ==> (#[trigger] self.states@[j]).wall_time is None,
                best matches Some((b, d)) ==> {
                    &&& b < i
                    &&& self.states@[b as int].wall_time is Some
                    &&& d == time_apart(wall_of(self.states@[b as int]), t)
                    &&& forall|j: int|
                        0 <= j < i && (#[trigger] self.states@[j]).wall_time is Some ==> d
                            <= time_apart(wall_of(self.states@[j]), t)
                    &&& forall|j: int|
                        0 <= j < b && (#[trigger] self.states@[j]).wall_time is Some ==> d
                            < time_apart(wall_of(self.states@[j]), t)
                },
            decreases self.states@.len() - i,
        {
            if let Some(w) = self.states[i].wall_time {
                let delta: i128 = (w.secs as i128 - t.secs as i128) * 1_000_000_000i128 + (
                w.nanos as i128 - t.nanos as i128);
                let dist: u128 = if delta >= 0 {
                    delta as u128
                } else {
                    (0i128 - delta) as u128
                };
                match best {
                    None => {
                        best = Some((i, dist));
                    },
                    Some((_, d)) => {
                        if dist < d {
                            best = Some((i, dist));
                        }
                    },
                }
            }
            i = i + 1;
        }
        match best {
            None => None,
            Some((b, _)) => {
                assert(is_nearest(self.states@, t, b as int));
                Some(&self.states[b])
            },
        }
    }

    /// Epochs present in this cohort, in order.
    pub fn epochs(&self) -> (v: Vec<EpochTag>)
        ensures
            v@.len() == self.states@.len(),
            forall|i: int| 0 <= i < v@.len() ==> v@[i] == (#[trigger] self.states@[i]).epoch,
    {
        let mut v: Vec<EpochTag> = Vec::new();
        let mut i: usize = 0;
        while i < self.states.len()
            invariant
                i <= self.states@.len(),
                v@.len() == i,
                forall|j: int| 0 <= j < i ==> v@[j] == (#[trigger] self.states@[j]).epoch,
            decreases self.states@.len() - i,
        {
            v.push(self.states[i].epoch);
            i = i + 1;
        }
        v
    }
}

/// A cohort-level gap: a state that existed in an earlier epoch but is absent in a later one.
///
/// Not equivalent to file deletion: the absence may be due to pruning, compaction, or
/// selective acquisition. The interpretation requires cross-cohort context.
#[derive(Debug, Clone, PartialEq, Eq)]
pub struct Tombstone {
    /// Epoch of the last known state before the gap.
    pub last_seen_epoch: EpochTag,
    /// Epoch of the first subsequent state in which the artifact is absent.
    pub first_absent_epoch: EpochTag,
}

/// A point in the cohort where the artifact's identity became inconsistent under a
/// secondary discipline, while remaining consistent under the primary discipline.
///
/// For example: a `PathStable` cohort where the `ContentStable` sub-grouping splits at
/// a particular epoch indicates the file at that path was silently replaced.
#[derive(Debug, Clone, PartialEq, Eq)]
pub struct IdentityDiscontinuity {
    /// The epoch at which the discontinuity was first observed.
    pub at_epoch: EpochTag,
    /// The secondary discipline that revealed the inconsistency.
    pub discipline: IdentityDiscipline,
    /// Human-readable description of the inconsistency.
    pub description: String,
}

} // verus!
