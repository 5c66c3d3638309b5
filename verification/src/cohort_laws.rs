//! Laws of time-indexed lookup, stated over the timestamps themselves.
use vstd::prelude::*;

use crate::cohort::{is_latest_known_at, is_nearest, known_at, TemporalState, Timestamp};

verus! {

/// `at(t)` considers every state whose wall time is at or before `t`, however long
/// before: `at` gives `None` (no state known at `t`) exactly when every wall time
/// is after `t`; and the state it picks has a wall time at or before `t`, no
/// earlier than any other such wall time, and strictly later than every such wall
/// time that comes after it in the cohort. Times are ordered by seconds, then
/// nanoseconds.
pub proof fn lemma_at_latest_not_after<H>(states: Seq<TemporalState<H>>, t: Timestamp)
    ensures
        (forall|i: int| 0 <= i < states.len() ==> !known_at(#[trigger] states[i], t)) <==> (
        forall|i: int|
            0 <= i < states.len() && (#[trigger] states[i]).wall_time is Some ==> {
                let wi = states[i].wall_time.unwrap();
                wi.secs > t.secs || (wi.secs == t.secs && wi.nanos > t.nanos)
            }),
        forall|k: int| #[trigger] is_latest_known_at(states, t, k) ==> {
                &&& 0 <= k < states.len()
                &&& states[k].wall_time is Some
                &&& {
                    let wk = states[k].wall_time.unwrap();
                    &&& (wk.secs < t.secs || (wk.secs == t.secs && wk.nanos <= t.nanos))
                    &&& forall|i: int|
                        0 <= i < states.len() && (#[trigger] states[i]).wall_time is Some && {
                            let wi = states[i].wall_time.unwrap();
                            (wi.secs < t.secs || (wi.secs == t.secs && wi.nanos <= t.nanos))
                        } ==> {
                            let wi = states[i].wall_time.unwrap();
                            wi.secs < wk.secs || (wi.secs == wk.secs && wi.nanos <= wk.nanos)
                        }
                    &&& forall|i: int|
                        k < i < states.len() && (#[trigger] states[i]).wall_time is Some && {
                            let wi = states[i].wall_time.unwrap();
                            (wi.secs < t.secs || (wi.secs == t.secs && wi.nanos <= t.nanos))
                        } ==> {
                            let wi = states[i].wall_time.unwrap();
                            wi.secs < wk.secs || (wi.secs == wk.secs && wi.nanos < wk.nanos)
                        }
                }
            },
{
    assert forall|k: int| #[trigger] is_latest_known_at(states, t, k) implies {
                &&& 0 <= k < states.len()
                &&& states[k].wall_time is Some
                &&& {
                    let wk = states[k].wall_time.unwrap();
                    &&& (wk.secs < t.secs || (wk.secs == t.secs && wk.nanos <= t.nanos))
                    &&& forall|i: int|
                        0 <= i < states.len() && (#[trigger] states[i]).wall_time is Some && {
                            let wi = states[i].wall_time.unwrap();
                            (wi.secs < t.secs || (wi.secs == t.secs && wi.nanos <= t.nanos))
                        } ==> {
                            let wi = states[i].wall_time.unwrap();
                            wi.secs < wk.secs || (wi.secs == wk.secs && wi.nanos <= wk.nanos)
                        }
                    &&& forall|i: int|
                        k < i < states.len() && (#[trigger] states[i]).wall_time is Some && {
                            let wi = states[i].wall_time.unwrap();
                            (wi.secs < t.secs || (wi.secs == t.secs && wi.nanos <= t.nanos))
                        } ==> {
                            let wi = states[i].wall_time.unwrap();
                            wi.secs < wk.secs || (wi.secs == wk.secs && wi.nanos < wk.nanos)
                        }
                }
            } by {
        let wk = states[k].wall_time.unwrap();
        assert forall|i: int|
            0 <= i < states.len() && (#[trigger] states[i]).wall_time is Some && {
                            let wi = states[i].wall_time.unwrap();
                            (wi.secs < t.secs || (wi.secs == t.secs && wi.nanos <= t.nanos))
                        } implies {
                            let wi = states[i].wall_time.unwrap();
                            wi.secs < wk.secs || (wi.secs == wk.secs && wi.nanos <= wk.nanos)
                        } by {
            assert(known_at(states[i], t));
        }
        assert forall|i: int|
            k < i < states.len() && (#[trigger] states[i]).wall_time is Some && {
                            let wi = states[i].wall_time.unwrap();
                            (wi.secs < t.secs || (wi.secs == t.secs && wi.nanos <= t.nanos))
                        } implies {
                            let wi = states[i].wall_time.unwrap();
                            wi.secs < wk.secs || (wi.secs == wk.secs && wi.nanos < wk.nanos)
                        } by {
            assert(known_at(states[i], t));
        }
    }
}

/// `nearest(t)` picks a state whose wall time is at least as close to `t` as every
/// other wall time, measured as the exact absolute difference in nanoseconds
/// (seconds times a billion plus nanoseconds), and strictly closer than every wall
/// time before it in the cohort.
pub proof fn lemma_nearest_is_closest<H>(states: Seq<TemporalState<H>>, t: Timestamp)
    ensures
        forall|k: int|
            #[trigger] is_nearest(states, t, k) ==> {
                &&& 0 <= k < states.len()
                &&& states[k].wall_time is Some
                &&& {
                    let wk = states[k].wall_time.unwrap();
                    let dk = (wk.secs - t.secs) * 1_000_000_000 + (wk.nanos - t.nanos);
                    let ak = if dk >= 0 { dk } else { -dk };
                    &&& forall|i: int|
                        0 <= i < states.len() && (#[trigger] states[i]).wall_time is Some ==> {
                            let wi = states[i].wall_time.unwrap();
                            let di = (wi.secs - t.secs) * 1_000_000_000 + (wi.nanos - t.nanos);
                            ak <= if di >= 0 { di } else { -di }
                        }
                    &&& forall|i: int|
                        0 <= i < k && (#[trigger] states[i]).wall_time is Some ==> {
                            let wi = states[i].wall_time.unwrap();
                            let di = (wi.secs - t.secs) * 1_000_000_000 + (wi.nanos - t.nanos);
                            ak < if di >= 0 { di } else { -di }
                        }
                }
            },
{
}

} // verus!
