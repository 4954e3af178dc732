//! The per-credential hit counter kept in the gateway's flat key-value store.

use vstd::prelude::*;
use vstd::string::StringExecFns;

use crate::strutil::str_eq;

verus! {

/// How often one credential has hit an endpoint.
#[derive(Clone, Debug, PartialEq)]
pub struct HitCounter {
    pub token: String,
    pub hits: u32,
}

/// Bumps the hit count of `token` in the stored counter list: the first
/// matching entry is incremented (saturating), everything else is kept in
/// place; an absent token is appended with one hit.
#[verifier::loop_isolation(false)]
pub fn track_metric_counter(counters: Vec<HitCounter>, token: &str) -> (r: Vec<HitCounter>)
    ensures
        (forall|k: int| 0 <= k < counters@.len() ==> (#[trigger] counters@[k]).token@ != token@)
            ==> {
            &&& r@.len() == counters@.len() + 1
            &&& r@.subrange(0, counters@.len() as int) == counters@
            &&& r@.last().token@ == token@
            &&& r@.last().hits == 1
        },
        forall|i: int|
            (0 <= i < counters@.len() && (#[trigger] counters@[i]).token@ == token@ && (forall|
                k: int,
            | 0 <= k < i ==> (#[trigger] counters@[k]).token@ != token@)) ==> {
                &&& r@.len() == counters@.len()
                &&& (forall|j: int| 0 <= j < r@.len() && j != i ==> r@[j] == counters@[j])
                &&& r@[i].token == counters@[i].token
                &&& r@[i].hits == if counters@[i].hits < u32::MAX {
                    (counters@[i].hits + 1) as u32
                } else {
                    u32::MAX
                }
            },
{
    let ghost orig = counters@;
    let mut counters = counters;
    let n = counters.len();
    let mut i: usize = 0;
    while i < n
        invariant
            n == counters@.len(),
            counters@ == orig,
            i <= n,
            forall|k: int| 0 <= k < i ==> (#[trigger] orig[k]).token@ != token@,
        decreases n - i,
    {
        if str_eq(counters[i].token.as_str(), token) {
            let old_hits = counters[i].hits;
            let bumped: u32 = if old_hits < u32::MAX {
                old_hits + 1
            } else {
                u32::MAX
            };
            counters[i].hits = bumped;
            proof {
                assert(counters@ =~= orig.update(i as int, counters@[i as int]));
            }
            return counters;
        }
        i += 1;
    }
    counters.push(HitCounter { token: String::from_str(token), hits: 1 });
    proof {
        assert(counters@.subrange(0, orig.len() as int) =~= orig);
    }
    counters
}

} // verus!
