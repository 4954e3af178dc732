//! The session registry: the directory of live output channels. Every slot
//! has a permanent identity; the backing list may compact on reaping, but an
//! identity is never reused and survivors keep their relative order.

use tokio::sync::mpsc::{Receiver, Sender};
use vstd::prelude::*;
use vstd::string::StringExecFns;

use crate::channel::{clone_sender, event_try_send, new_event_channel, SendStatus};
use crate::event::WireEvent;

verus! {

/// The fixed buffer capacity of each session channel; bounds the memory a
/// stalled consumer can hold.
pub const CHANNEL_CAPACITY: usize = 10;

/// One registered output channel with its stable identity.
pub struct Slot {
    pub id: u64,
    pub sender: Sender<WireEvent>,
}

/// The subsequence of `s` kept by a same-length boolean mask.
pub open spec fn mask_filter<T>(s: Seq<T>, m: Seq<bool>) -> Seq<T>
    decreases s.len(),
{
    if s.len() == 0 {
        Seq::empty()
    } else {
        mask_filter(s.drop_last(), m.drop_last()) + if m[s.len() - 1] {
            seq![s.last()]
        } else {
            Seq::empty()
        }
    }
}

/// Masking never grows a sequence.
pub proof fn lemma_mask_filter_len<T>(s: Seq<T>, m: Seq<bool>)
    ensures
        mask_filter(s, m).len() <= s.len(),
    decreases s.len(),
{
    if s.len() > 0 {
        lemma_mask_filter_len(s.drop_last(), m.drop_last());
    }
}

/// The position of the original that a kept position came from.
pub open spec fn mask_filter_src<T>(s: Seq<T>, m: Seq<bool>, j: int) -> int
    decreases s.len(),
{
    if s.len() == 0 {
        0
    } else if j < mask_filter(s.drop_last(), m.drop_last()).len() {
        mask_filter_src(s.drop_last(), m.drop_last(), j)
    } else {
        s.len() - 1
    }
}

/// Every kept element comes from a kept position of the original, named by
/// `mask_filter_src`.
pub proof fn lemma_mask_filter_src<T>(s: Seq<T>, m: Seq<bool>, j: int)
    requires
        m.len() == s.len(),
        0 <= j < mask_filter(s, m).len(),
    ensures
        0 <= mask_filter_src(s, m, j) < s.len(),
        m[mask_filter_src(s, m, j)],
        s[mask_filter_src(s, m, j)] == mask_filter(s, m)[j],
    decreases s.len(),
{
    if s.len() > 0 {
        let rprev = mask_filter(s.drop_last(), m.drop_last());
        if j < rprev.len() {
            lemma_mask_filter_src(s.drop_last(), m.drop_last(), j);
        } else {
            assert(m[s.len() - 1] && mask_filter(s, m)[j] == s.last());
        }
    }
}

/// Masking a directory whose identities rise strictly leaves them rising
/// strictly: relative order survives a sweep.
pub proof fn lemma_mask_filter_sorted(s: Seq<Slot>, m: Seq<bool>)
    requires
        m.len() == s.len(),
        forall|i: int, j: int| 0 <= i < j < s.len() ==> s[i].id < s[j].id,
    ensures
        forall|i: int, j: int|
            0 <= i < j < mask_filter(s, m).len() ==> mask_filter(s, m)[i].id < mask_filter(
                s,
                m,
            )[j].id,
    decreases s.len(),
{
    if s.len() > 0 {
        let sp = s.drop_last();
        let mp = m.drop_last();
        lemma_mask_filter_sorted(sp, mp);
        let r = mask_filter(s, m);
        let rprev = mask_filter(sp, mp);
        assert forall|i: int, j: int| 0 <= i < j < r.len() implies r[i].id < r[j].id by {
            if j < rprev.len() {
                assert(r[i] == rprev[i] && r[j] == rprev[j]);
            } else {
                assert(r[j] == s.last());
                assert(r[i] == rprev[i]);
                lemma_mask_filter_src(sp, mp, i);
                let k = mask_filter_src(sp, mp, i);
                assert(s[k] == sp[k]);
                assert(s[k].id < s[s.len() - 1].id);
            }
        }
    }
}

/// Whether an identity occurs in a list of identities.
fn contains_id(ids: &Vec<u64>, id: u64) -> (r: bool)
    ensures
        r == ids@.contains(id),
{
    let n = ids.len();
    let mut j: usize = 0;
    while j < n
        invariant
            n == ids@.len(),
            j <= n,
            forall|k: int| 0 <= k < j ==> ids@[k] != id,
        decreases n - j,
    {
        if ids[j] == id {
            return true;
        }
        j += 1;
    }
    false
}

/// The central directory of live output channels.
pub struct Registry {
    slots: Vec<Slot>,
    next_id: u64,
}

/// Why a registration could not complete.
#[derive(Clone, Copy, Debug, PartialEq, Eq, Structural)]
pub enum RegistryError {
    /// The identity counter is spent; no fresh identity exists.
    IdsExhausted,
    /// The brand-new channel refused its connected marker.
    ConnectRefused,
}

impl Registry {
    /// The registered slots, in directory order.
    pub closed spec fn slots_seq(self) -> Seq<Slot> {
        self.slots@
    }

    /// The registered identities, in directory order.
    pub open spec fn ids(self) -> Seq<u64> {
        self.slots_seq().map(|i: int, s: Slot| s.id)
    }

    /// The identity the next registration will take.
    pub closed spec fn spec_next_id(self) -> u64 {
        self.next_id
    }

    /// The directory invariant: identities rise strictly with position (so
    /// they are distinct and order-preserving under compaction) and stay
    /// below the fresh-identity counter.
    pub open spec fn wf(self) -> bool {
        &&& forall|i: int, j: int|
            0 <= i < j < self.slots_seq().len() ==> self.slots_seq()[i].id < self.slots_seq()[j].id
        &&& forall|i: int|
            0 <= i < self.slots_seq().len() ==> (#[trigger] self.slots_seq()[i]).id
                < self.spec_next_id()
    }

    /// An empty directory.
    pub fn new() -> (r: Registry)
        ensures
            r.wf(),
            r.slots_seq().len() == 0,
            r.spec_next_id() == 0,
    {
        Registry { slots: Vec::new(), next_id: 0 }
    }

    /// How many slots are registered.
    pub fn len(&self) -> (r: usize)
        ensures
            r == self.slots_seq().len(),
    {
        self.slots.len()
    }

    /// Mints a new bounded channel, sends its connected marker, and appends
    /// the sender under a fresh identity. The caller drains the returned
    /// receiver. Registration is refused only when identities are spent or
    /// the fresh channel cannot take one item.
    pub fn register(&mut self) -> (r: Result<(u64, Receiver<WireEvent>), RegistryError>)
        requires
            old(self).wf(),
        ensures
            final(self).wf(),
            match r {
                Ok(p) => {
                    &&& p.0 == old(self).spec_next_id()
                    &&& !old(self).ids().contains(p.0)
                    &&& final(self).spec_next_id() == p.0 + 1
                    &&& final(self).slots_seq().len() == old(self).slots_seq().len() + 1
                    &&& final(self).slots_seq().drop_last() == old(self).slots_seq()
                    &&& final(self).slots_seq().last().id == p.0
                },
                Err(e) => {
                    &&& *final(self) == *old(self)
                    &&& (e == RegistryError::IdsExhausted <==> old(self).spec_next_id()
                        == u64::MAX)
                },
            },
    {
        if self.next_id == u64::MAX {
            return Err(RegistryError::IdsExhausted);
        }
        let (tx, rx) = new_event_channel(CHANNEL_CAPACITY);
        let status = event_try_send(&tx, WireEvent::Connected);
        if !matches!(status, SendStatus::Sent) {
            return Err(RegistryError::ConnectRefused);
        }
        let id = self.next_id;
        self.slots.push(Slot { id, sender: tx });
        self.next_id = id + 1;
        proof {
            assert(final(self).slots_seq().drop_last() =~= old(self).slots_seq());
            assert forall|ii: int| 0 <= ii < old(self).ids().len() implies old(self).ids()[ii] != id
            by {
                assert(old(self).slots_seq()[ii].id < id);
            }
        }
        Ok((id, rx))
    }

    /// The position of a slot identity, when present.
    fn find_slot(&self, id: u64) -> (r: Option<usize>)
        ensures
            match r {
                Some(i) => i < self.slots_seq().len() && self.slots_seq()[i as int].id == id
                    && self.ids().contains(id),
                None => !self.ids().contains(id),
            },
    {
        let n = self.slots.len();
        let mut i: usize = 0;
        while i < n
            invariant
                n == self.slots_seq().len(),
                i <= n,
                forall|k: int| 0 <= k < i ==> (#[trigger] self.slots_seq()[k]).id != id,
            decreases n - i,
        {
            if self.slots[i].id == id {
                proof {
                    assert(self.ids()[i as int] == id);
                }
                return Some(i);
            }
            i += 1;
        }
        proof {
            assert forall|k: int| 0 <= k < self.ids().len() implies self.ids()[k] != id by {
                assert(self.slots_seq()[k].id != id);
            }
        }
        None
    }

    /// Sends one event to the identified slot, without blocking. A missing
    /// slot is a quiet no-op: the target may have legitimately disconnected.
    pub fn send_event_to(&self, id: u64, ev: WireEvent) -> (r: Option<SendStatus>)
        ensures
            r is Some <==> self.ids().contains(id),
    {
        match self.find_slot(id) {
            Some(i) => Some(event_try_send(&self.slots[i].sender, ev)),
            None => None,
        }
    }

    /// Best-effort targeted delivery of one data payload; a missing or dead
    /// slot never becomes the caller's error.
    pub fn send_to(&self, id: u64, payload: &str) -> (r: Option<SendStatus>)
        ensures
            r is Some <==> self.ids().contains(id),
    {
        self.send_event_to(id, WireEvent::Data(String::from_str(payload)))
    }

    /// Best-effort fan-out: one non-blocking data send of `payload` to every
    /// slot registered at call time, in directory order — the attempted
    /// targets are exactly the registered identities, so a slot registered
    /// later is never among them. Failures are reported, never escalated;
    /// cleanup is the reaper's job.
    pub fn broadcast(&self, payload: &str) -> (r: Vec<(u64, SendStatus)>)
        ensures
            r@.len() == self.slots_seq().len(),
            forall|i: int| 0 <= i < r@.len() ==> (#[trigger] r@[i]).0 == self.slots_seq()[i].id,
    {
        let n = self.slots.len();
        let mut statuses: Vec<(u64, SendStatus)> = Vec::new();
        let mut i: usize = 0;
        while i < n
            invariant
                n == self.slots_seq().len(),
                i <= n,
                statuses@.len() == i,
                forall|k: int|
                    0 <= k < i ==> (#[trigger] statuses@[k]).0 == self.slots_seq()[k].id,
            decreases n - i,
        {
            let ev = WireEvent::Data(String::from_str(payload));
            let st = event_try_send(&self.slots[i].sender, ev);
            statuses.push((self.slots[i].id, st));
            i += 1;
        }
        statuses
    }

    /// A fresh handle on the identified slot's channel, for a caller that
    /// must block on buffer space; re-resolved per call since the directory
    /// compacts on reaping.
    pub fn sender_for(&self, id: u64) -> (r: Option<Sender<WireEvent>>)
        ensures
            r is Some <==> self.ids().contains(id),
    {
        match self.find_slot(id) {
            Some(i) => Some(clone_sender(&self.slots[i].sender)),
            None => None,
        }
    }

    /// One non-blocking liveness ping per slot, in order: `true` marks a
    /// channel that accepted it. A refusal — closed, or still full after a
    /// whole probe interval — marks a consumer that stopped draining.
    pub fn probe(&self) -> (r: Vec<bool>)
        ensures
            r@.len() == self.slots_seq().len(),
    {
        let n = self.slots.len();
        let mut alive: Vec<bool> = Vec::new();
        let mut i: usize = 0;
        while i < n
            invariant
                n == self.slots_seq().len(),
                i <= n,
                alive@.len() == i,
            decreases n - i,
        {
            let st = event_try_send(&self.slots[i].sender, WireEvent::Ping);
            alive.push(matches!(st, SendStatus::Sent));
            i += 1;
        }
        alive
    }

    /// Replaces the directory with exactly the slots the mask keeps,
    /// preserving their relative order and every surviving identity.
    pub fn retain_by_mask(&mut self, keep: &Vec<bool>)
        requires
            old(self).wf(),
            keep@.len() == old(self).slots_seq().len(),
        ensures
            final(self).wf(),
            final(self).slots_seq() == mask_filter(old(self).slots_seq(), keep@),
            final(self).spec_next_id() == old(self).spec_next_id(),
    {
        let ghost orig = self.slots@;
        let mut kept: Vec<Slot> = Vec::new();
        let mut idx: usize = 0;
        let n = keep.len();
        while idx < n
            invariant
                n == keep@.len(),
                n == orig.len(),
                idx <= n,
                self.slots@ =~= orig.skip(idx as int),
                self.next_id == old(self).next_id,
                kept@ == mask_filter(orig.take(idx as int), keep@.take(idx as int)),
            decreases n - idx,
        {
            let s = self.slots.remove(0);
            proof {
                assert(s == orig[idx as int]);
                assert(self.slots@ =~= orig.skip(idx as int + 1));
                assert(orig.take(idx as int + 1).drop_last() =~= orig.take(idx as int));
                assert(keep@.take(idx as int + 1).drop_last() =~= keep@.take(idx as int));
            }
            if keep[idx] {
                kept.push(s);
            }
            idx += 1;
            proof {
                assert(kept@ =~= mask_filter(orig.take(idx as int), keep@.take(idx as int)));
            }
        }
        proof {
            assert(orig.take(n as int) =~= orig);
            assert(keep@.take(n as int) =~= keep@);
        }
        self.slots = kept;
        proof {
            lemma_mask_filter_sorted(orig, keep@);
            let r = mask_filter(orig, keep@);
            assert forall|i: int, j: int|
                0 <= i < j < self.slots_seq().len() implies self.slots_seq()[i].id
                < self.slots_seq()[j].id by {
                assert(self.slots_seq()[i] == r[i]);
                assert(self.slots_seq()[j] == r[j]);
            }
            assert forall|i: int|
                0 <= i < self.slots_seq().len() implies (#[trigger] self.slots_seq()[i]).id
                < self.spec_next_id() by {
                assert(self.slots_seq()[i] == r[i]);
                lemma_mask_filter_src(orig, keep@, i);
                let k = mask_filter_src(orig, keep@, i);
                assert(old(self).slots_seq()[k].id < old(self).spec_next_id());
            }
        }
    }

    /// Replaces the directory with the slots whose identities are not in the
    /// dead list, preserving order: the reaper's pruning primitive.
    #[verifier::loop_isolation(false)]
    pub fn prune(&mut self, dead: &Vec<u64>)
        requires
            old(self).wf(),
        ensures
            final(self).wf(),
            final(self).spec_next_id() == old(self).spec_next_id(),
            final(self).slots_seq() == mask_filter(
                old(self).slots_seq(),
                Seq::new(
                    old(self).slots_seq().len(),
                    |i: int| !dead@.contains(old(self).slots_seq()[i].id),
                ),
            ),
    {
        let ghost orig = self.slots@;
        let ghost gmask = Seq::new(orig.len(), |i: int| !dead@.contains(orig[i].id));
        let n = self.slots.len();
        let mut keep: Vec<bool> = Vec::new();
        let mut i: usize = 0;
        while i < n
            invariant
                n == self.slots_seq().len(),
                self.slots@ == orig,
                self.next_id == old(self).next_id,
                i <= n,
                keep@.len() == i,
                forall|k: int| 0 <= k < i ==> keep@[k] == gmask[k],
            decreases n - i,
        {
            let id = self.slots[i].id;
            let found = contains_id(dead, id);
            keep.push(!found);
            i += 1;
        }
        proof {
            assert(keep@ =~= gmask);
        }
        self.retain_by_mask(&keep);
    }

    /// One reaper pass: probes every slot and keeps exactly the subset that
    /// took the ping, in order; reports how many were dropped.
    pub fn sweep(&mut self) -> (reaped: usize)
        requires
            old(self).wf(),
        ensures
            final(self).wf(),
            final(self).spec_next_id() == old(self).spec_next_id(),
            exists|alive: Seq<bool>|
                {
                    &&& alive.len() == old(self).slots_seq().len()
                    &&& final(self).slots_seq() == mask_filter(old(self).slots_seq(), alive)
                    &&& reaped + final(self).slots_seq().len() == old(self).slots_seq().len()
                },
    {
        let mask = self.probe();
        let before = self.slots.len();
        self.retain_by_mask(&mask);
        proof {
            lemma_mask_filter_len(old(self).slots_seq(), mask@);
        }
        before - self.slots.len()
    }
}

/// Law: a live directory never holds two slots with the same identity, so
/// every successful registration hands out an identity distinct from all
/// registered ones.
pub proof fn lemma_ids_distinct(r: Registry)
    requires
        r.wf(),
    ensures
        forall|i: int, j: int|
            0 <= i < r.ids().len() && 0 <= j < r.ids().len() && i != j ==> r.ids()[i] != r.ids()[j],
{
    assert forall|i: int, j: int|
        0 <= i < r.ids().len() && 0 <= j < r.ids().len() && i != j implies r.ids()[i] != r.ids()[j]
    by {
        if i < j {
            assert(r.slots_seq()[i].id < r.slots_seq()[j].id);
        } else {
            assert(r.slots_seq()[j].id < r.slots_seq()[i].id);
        }
    }
}

/// Law: no retroactive delivery. `broadcast` reports its targets: exactly
/// the slots registered when it was called, in order. A slot registered
/// afterwards takes the directory's next identity, and that identity is not
/// among the targets of any broadcast that began earlier.
pub proof fn lemma_no_retroactive_delivery(
    pre: Registry,
    targets: Seq<(u64, SendStatus)>,
    id: u64,
)
    requires
        pre.wf(),
        targets.len() == pre.slots_seq().len(),
        forall|i: int| 0 <= i < targets.len() ==> (#[trigger] targets[i]).0 == pre.slots_seq()[i].id,
        id == pre.spec_next_id(),
    ensures
        !pre.ids().contains(id),
        forall|i: int| 0 <= i < targets.len() ==> (#[trigger] targets[i]).0 != id,
{
    assert forall|i: int| 0 <= i < pre.ids().len() implies pre.ids()[i] != id by {
        assert(pre.slots_seq()[i].id < id);
    }
    assert forall|i: int| 0 <= i < targets.len() implies (#[trigger] targets[i]).0 != id by {
        assert(pre.slots_seq()[i].id < id);
    }
}

/// Law: a reaped slot is never observed again. Once a sweep's mask drops a
/// slot, its identity is absent from the resulting directory — so later
/// broadcasts, which address only directory slots, never reach it — and the
/// surviving slots keep their relative order.
pub proof fn lemma_reaped_not_observed(s: Seq<Slot>, m: Seq<bool>, k: int)
    requires
        m.len() == s.len(),
        forall|i: int, j: int| 0 <= i < j < s.len() ==> s[i].id < s[j].id,
        0 <= k < s.len(),
        !m[k],
    ensures
        forall|j: int| 0 <= j < mask_filter(s, m).len() ==> mask_filter(s, m)[j].id != s[k].id,
        forall|i: int, j: int|
            0 <= i < j < mask_filter(s, m).len() ==> mask_filter(s, m)[i].id < mask_filter(
                s,
                m,
            )[j].id,
{
    lemma_mask_filter_sorted(s, m);
    assert forall|j: int| 0 <= j < mask_filter(s, m).len() implies mask_filter(s, m)[j].id
        != s[k].id by {
        lemma_mask_filter_src(s, m, j);
        let i = mask_filter_src(s, m, j);
        if i < k {
            assert(s[i].id < s[k].id);
        } else {
            assert(s[k].id < s[i].id);
        }
    }
}

} // verus!
