//! Cache storage: entries by partition and key, with a hard expiry.

use vstd::prelude::*;

use crate::text::{same, Text};

verus! {

/// Seconds since the Unix epoch.
pub type UnixSecs = u64;

/// A stored value, when it was fetched, and when it must be dropped.
#[derive(Debug, PartialEq, Eq)]
pub struct CacheEntry {
    pub bytes: Vec<u8>,
    pub fetched_at: UnixSecs,
    pub expires_at: UnixSecs,
}

/// What an entry holds.
pub struct Stored {
    pub bytes: Seq<u8>,
    pub fetched_at: UnixSecs,
    pub expires_at: UnixSecs,
}

impl Stored {
    /// Whether the entry is live at `now`.
    pub open spec fn live_at(self, now: UnixSecs) -> bool {
        now < self.expires_at
    }
}

impl CacheEntry {
    pub open spec fn view(&self) -> Stored {
        Stored { bytes: self.bytes@, fetched_at: self.fetched_at, expires_at: self.expires_at }
    }

    /// Whether the entry is live: its expiry is still to come.
    pub fn live(&self, now: UnixSecs) -> (r: bool)
        ensures
            r == self@.live_at(now),
            r == (now < self.expires_at),
    {
        now < self.expires_at
    }

    /// Copies the entry.
    pub fn copy(&self) -> (r: Self)
        ensures
            r@ == self@,
    {
        let mut bytes: Vec<u8> = Vec::new();
        let mut i: usize = 0;
        while i < self.bytes.len()
            invariant
                i <= self.bytes.len(),
                bytes@ == self.bytes@.take(i as int),
            decreases self.bytes.len() - i,
        {
            bytes.push(self.bytes[i]);
            proof {
                assert(self.bytes@.take(i as int + 1) =~= self.bytes@.take(i as int).push(
                    self.bytes@[i as int],
                ));
            }
            i = i + 1;
        }
        proof {
            assert(self.bytes@.take(i as int) =~= self.bytes@);
        }
        CacheEntry { bytes, fetched_at: self.fetched_at, expires_at: self.expires_at }
    }
}

/// The address of an entry: partition and key.
pub type Address = (Text, Text);

/// The live entry at an address.
pub open spec fn live_entry(m: Map<Address, Stored>, at: Address, now: UnixSecs) -> Option<Stored> {
    if m.contains_key(at) && m[at].live_at(now) {
        Some(m[at])
    } else {
        None
    }
}

/// The entries without the one at an address, when that has expired.
pub open spec fn without_expired(
    m: Map<Address, Stored>,
    at: Address,
    now: UnixSecs,
) -> Map<Address, Stored> {
    if m.contains_key(at) && !m[at].live_at(now) {
        m.remove(at)
    } else {
        m
    }
}

/// The entries of all partitions but one.
pub open spec fn without_partition(m: Map<Address, Stored>, profile: Text) -> Map<Address, Stored> {
    m.restrict(Set::new(|at: Address| m.contains_key(at) && at.0 != profile))
}

/// The entries that are live.
pub open spec fn only_live(m: Map<Address, Stored>, now: UnixSecs) -> Map<Address, Stored> {
    m.restrict(Set::new(|at: Address| m.contains_key(at) && m[at].live_at(now)))
}

/// A place to keep entries.
pub trait CacheStore {
    spec fn wf(&self) -> bool;

    /// The entries kept, live or not.
    spec fn entries(&self) -> Map<Address, Stored>;

    /// The live entry at an address. One that has expired is dropped.
    fn get(&mut self, profile: &str, key: &str, now: UnixSecs) -> (r: Option<CacheEntry>)
        requires
            old(self).wf(),
        ensures
            final(self).wf(),
            match r {
                Some(e) => live_entry(old(self).entries(), (profile@, key@), now) == Some(e@),
                None => live_entry(old(self).entries(), (profile@, key@), now) is None,
            },
            final(self).entries() == without_expired(old(self).entries(), (profile@, key@), now),
    ;

    /// Stores or replaces the entry at an address.
    fn put(&mut self, profile: &str, key: &str, entry: &CacheEntry)
        requires
            old(self).wf(),
        ensures
            final(self).wf(),
            final(self).entries() == old(self).entries().insert((profile@, key@), entry@),
    ;

    /// Drops the entry at an address.
    fn invalidate(&mut self, profile: &str, key: &str)
        requires
            old(self).wf(),
        ensures
            final(self).wf(),
            final(self).entries() == old(self).entries().remove((profile@, key@)),
    ;

    /// Drops every entry of a partition, or all entries.
    fn clear(&mut self, profile: Option<&str>)
        requires
            old(self).wf(),
        ensures
            final(self).wf(),
            final(self).entries() == match profile {
                Some(p) => without_partition(old(self).entries(), p@),
                None => Map::<Address, Stored>::empty(),
            },
    ;

    /// Drops every entry that has expired.
    fn sweep(&mut self, now: UnixSecs)
        requires
            old(self).wf(),
        ensures
            final(self).wf(),
            final(self).entries() == only_live(old(self).entries(), now),
    ;
}

// ===== The store in memory ===============================================

/// An entry at its address.
#[derive(Debug)]
struct Slot {
    profile: String,
    key: String,
    entry: CacheEntry,
}

impl Slot {
    spec fn address(self) -> Address {
        (self.profile@, self.key@)
    }
}

/// A store in memory; nothing outlives the process.
#[derive(Debug)]
pub struct MemoryStore {
    slots: Vec<Slot>,
}

/// Whether no address occurs twice.
spec fn distinct(slots: Seq<Slot>) -> bool {
    forall|i: int, j: int|
        #![trigger slots[i], slots[j]]
        0 <= i < j < slots.len() ==> slots[i].address() != slots[j].address()
}

/// The entries that slots hold.
spec fn held(slots: Seq<Slot>) -> Map<Address, Stored>
    decreases slots.len(),
{
    if slots.len() == 0 {
        Map::empty()
    } else {
        held(slots.drop_last()).insert(slots.last().address(), slots.last().entry@)
    }
}

spec fn occurs(slots: Seq<Slot>, at: Address) -> bool {
    exists|i: int| 0 <= i < slots.len() && (#[trigger] slots[i]).address() == at
}

proof fn held_domain(slots: Seq<Slot>, at: Address)
    ensures
        held(slots).contains_key(at) <==> occurs(slots, at),
    decreases slots.len(),
{
    if slots.len() > 0 {
        let front = slots.drop_last();
        held_domain(front, at);
        if occurs(front, at) {
            let i = choose|i: int| 0 <= i < front.len() && (#[trigger] front[i]).address() == at;
            assert(slots[i].address() == at);
        }
        if slots.last().address() == at {
            assert(slots[slots.len() - 1].address() == at);
        }
        if occurs(slots, at) && slots.last().address() != at {
            let i = choose|i: int| 0 <= i < slots.len() && (#[trigger] slots[i]).address() == at;
            assert(front[i].address() == at);
        }
    }
}

proof fn held_value(slots: Seq<Slot>, i: int)
    requires
        distinct(slots),
        0 <= i < slots.len(),
    ensures
        held(slots).contains_key(slots[i].address()),
        held(slots)[slots[i].address()] == slots[i].entry@,
    decreases slots.len(),
{
    if i < slots.len() - 1 {
        let front = slots.drop_last();
        assert(distinct(front)) by {
            assert forall|a: int, b: int|
                #![trigger front[a], front[b]]
                0 <= a < b < front.len() implies front[a].address() != front[b].address() by {
                assert(slots[a] == front[a] && slots[b] == front[b]);
            }
        }
        held_value(front, i);
        assert(front[i] == slots[i]);
        assert(slots[i].address() != slots[slots.len() - 1].address());
    }
}

proof fn held_size(slots: Seq<Slot>)
    requires
        distinct(slots),
    ensures
        held(slots).dom().finite(),
        held(slots).dom().len() == slots.len(),
    decreases slots.len(),
{
    if slots.len() > 0 {
        let front = slots.drop_last();
        assert(distinct(front)) by {
            assert forall|a: int, b: int|
                #![trigger front[a], front[b]]
                0 <= a < b < front.len() implies front[a].address() != front[b].address() by {
                assert(slots[a] == front[a] && slots[b] == front[b]);
            }
        }
        held_size(front);
        held_domain(front, slots.last().address());
        if occurs(front, slots.last().address()) {
            let i = choose|i: int|
                0 <= i < front.len() && (#[trigger] front[i]).address() == slots.last().address();
            assert(slots[i].address() == slots[slots.len() - 1].address());
        }
        assert(held(slots).dom() =~= held(front).dom().insert(slots.last().address()));
    }
}

/// What slots hold is known by looking at each address.
proof fn held_is(slots: Seq<Slot>, m: Map<Address, Stored>)
    requires
        distinct(slots),
        forall|at: Address| #[trigger] m.contains_key(at) <==> occurs(slots, at),
        forall|i: int| 0 <= i < slots.len() ==> m[(#[trigger] slots[i]).address()] == slots[i].entry@,
    ensures
        held(slots) == m,
{
    assert forall|at: Address| #[trigger] held(slots).contains_key(at) <==> m.contains_key(at) by {
        held_domain(slots, at);
    }
    assert forall|at: Address| #[trigger] held(slots).contains_key(at) implies held(slots)[at]
        == m[at] by {
        held_domain(slots, at);
        let i = choose|i: int| 0 <= i < slots.len() && (#[trigger] slots[i]).address() == at;
        held_value(slots, i);
    }
    assert(held(slots) =~= m);
}

impl MemoryStore {
    /// An empty store.
    pub fn new() -> (r: Self)
        ensures
            r.wf(),
            r.entries() == Map::<Address, Stored>::empty(),
    {
        MemoryStore { slots: Vec::new() }
    }

    /// The number of entries kept, live or not.
    pub fn len(&self) -> (r: usize)
        requires
            self.wf(),
        ensures
            r == self.entries().dom().len(),
            self.entries().dom().finite(),
    {
        proof {
            held_size(self.slots@);
        }
        self.slots.len()
    }

    /// Whether no entry is kept.
    pub fn is_empty(&self) -> (r: bool)
        requires
            self.wf(),
        ensures
            r == (self.entries() == Map::<Address, Stored>::empty()),
    {
        proof {
            if self.slots@.len() > 0 {
                held_value(self.slots@, 0);
            }
        }
        self.slots.len() == 0
    }

    fn find(&self, profile: &str, key: &str) -> (r: usize)
        ensures
            r <= self.slots.len(),
            r < self.slots.len() ==> self.slots@[r as int].address() == (profile@, key@),
            r == self.slots.len() ==> !occurs(self.slots@, (profile@, key@)),
    {
        let mut i: usize = 0;
        while i < self.slots.len()
            invariant
                i <= self.slots.len(),
                forall|j: int|
                    0 <= j < i ==> (#[trigger] self.slots@[j]).address() != (profile@, key@),
            decreases self.slots.len() - i,
        {
            if same(self.slots[i].profile.as_str(), profile) && same(
                self.slots[i].key.as_str(),
                key,
            ) {
                return i;
            }
            i = i + 1;
        }
        i
    }

    /// Keeps only the slots that pass: those of other partitions than `profile`,
    /// or those live at `now`.
    fn keep(&mut self, profile: Option<&str>, now: Option<UnixSecs>)
        requires
            old(self).wf(),
        ensures
            final(self).wf(),
            final(self).entries() == old(self).entries().restrict(
                Set::new(
                    |at: Address|
                        old(self).entries().contains_key(at) && (profile is Some ==> at.0
                            != profile->0@) && (now is Some ==> old(
                            self,
                        ).entries()[at].live_at(now->0)),
                ),
            ),
    {
        let ghost m = self.entries();
        let mut i: usize = 0;
        while i < self.slots.len()
            invariant
                self.wf(),
                i <= self.slots.len(),
                self.entries().submap_of(m),
                forall|at: Address|
                    #[trigger] m.contains_key(at) && !self.entries().contains_key(at) ==> !((
                    profile is Some ==> at.0 != profile->0@) && (now is Some ==> m[at].live_at(
                        now->0,
                    ))),
                forall|k: int|
                    0 <= k < i ==> (profile is Some ==> (#[trigger] self.slots@[k]).address().0
                        != profile->0@) && (now is Some ==> self.slots@[k].entry@.live_at(now->0)),
            decreases self.slots.len() - i,
        {
            let other = match profile {
                Some(p) => !same(self.slots[i].profile.as_str(), p),
                None => true,
            };
            let live = match now {
                Some(t) => self.slots[i].entry.live(t),
                None => true,
            };
            proof {
                held_value(self.slots@, i as int);
            }
            if other && live {
                i = i + 1;
            } else {
                self.drop_at(i);
            }
        }
        proof {
            let kept = m.restrict(
                Set::new(
                    |at: Address|
                        m.contains_key(at) && (profile is Some ==> at.0 != profile->0@) && (
                        now is Some ==> m[at].live_at(now->0)),
                ),
            );
            assert forall|at: Address| #[trigger]
                self.entries().contains_key(at) <==> kept.contains_key(at) by {
                held_domain(self.slots@, at);
                if self.entries().contains_key(at) {
                    let k = choose|k: int|
                        0 <= k < self.slots@.len() && (#[trigger] self.slots@[k]).address() == at;
                    held_value(self.slots@, k);
                    assert(m.contains_key(at));
                    assert(m[at] == self.entries()[at]);
                }
            }
            assert(self.entries() =~= kept);
        }
    }

    /// Drops the slot at a position, leaving those before it in place.
    fn drop_at(&mut self, i: usize)
        requires
            old(self).wf(),
            i < old(self).slots@.len(),
        ensures
            final(self).wf(),
            final(self).entries() == old(self).entries().remove(old(self).slots@[i as int].address()),
            final(self).slots@ == old(self).slots@.remove(i as int),
    {
        let ghost before = self.slots@;
        self.slots.remove(i);
        proof {
            assert(self.slots@ =~= before.remove(i as int));
            removing_drops(before, i as int);
        }
    }
}

proof fn removing_drops(before: Seq<Slot>, i: int)
    requires
        distinct(before),
        0 <= i < before.len(),
    ensures
        distinct(before.remove(i)),
        held(before.remove(i)) == held(before).remove(before[i].address()),
{
    let after = before.remove(i);
    let at = before[i].address();
    assert forall|a: int, b: int|
        #![trigger after[a], after[b]]
        0 <= a < b < after.len() implies after[a].address() != after[b].address() by {
        let p = if a < i { a } else { a + 1 };
        let q = if b < i { b } else { b + 1 };
        assert(after[a] == before[p] && after[b] == before[q]);
    }
    let m = held(before).remove(at);
    assert forall|x: Address| #[trigger] m.contains_key(x) <==> occurs(after, x) by {
        held_domain(before, x);
        if occurs(before, x) && x != at {
            let k = choose|k: int| 0 <= k < before.len() && (#[trigger] before[k]).address() == x;
            if k < i {
                assert(after[k].address() == x);
            } else {
                assert(after[k - 1].address() == x);
            }
        }
        if occurs(after, x) {
            let k = choose|k: int| 0 <= k < after.len() && (#[trigger] after[k]).address() == x;
            let p = if k < i { k } else { k + 1 };
            assert(before[p].address() == x);
            assert(before[p].address() != before[i].address());
        }
    }
    assert forall|k: int| 0 <= k < after.len() implies m[(#[trigger] after[k]).address()]
        == after[k].entry@ by {
        let p = if k < i { k } else { k + 1 };
        assert(after[k] == before[p]);
        assert(before[p].address() != before[i].address());
        held_value(before, p);
    }
    held_is(after, m);
}

impl CacheStore for MemoryStore {
    closed spec fn wf(&self) -> bool {
        distinct(self.slots@)
    }

    closed spec fn entries(&self) -> Map<Address, Stored> {
        held(self.slots@)
    }

    fn get(&mut self, profile: &str, key: &str, now: UnixSecs) -> (r: Option<CacheEntry>) {
        let i = self.find(profile, key);
        proof {
            held_domain(self.slots@, (profile@, key@));
        }
        if i == self.slots.len() {
            return None;
        }
        proof {
            held_value(self.slots@, i as int);
        }
        if self.slots[i].entry.live(now) {
            return Some(self.slots[i].entry.copy());
        }
        self.drop_at(i);
        None
    }

    fn put(&mut self, profile: &str, key: &str, entry: &CacheEntry) {
        let i = self.find(profile, key);
        let ghost at = (profile@, key@);
        let ghost m = self.entries();
        if i < self.slots.len() {
            self.drop_at(i);
        } else {
            proof {
                held_domain(self.slots@, at);
                assert(m.remove(at) =~= m);
            }
        }
        let ghost rest = self.slots@;
        proof {
            assert(held(rest) == m.remove(at));
            held_domain(rest, at);
        }
        self.slots.push(
            Slot { profile: profile.to_owned(), key: key.to_owned(), entry: entry.copy() },
        );
        proof {
            let after = self.slots@;
            assert(after.drop_last() =~= rest);
            assert(after.last().address() == at);
            assert forall|a: int, b: int|
                #![trigger after[a], after[b]]
                0 <= a < b < after.len() implies after[a].address() != after[b].address() by {
                if b == after.len() - 1 {
                    assert(rest[a] == after[a]);
                    if after[a].address() == at {
                        assert(occurs(rest, at));
                    }
                } else {
                    assert(rest[a] == after[a] && rest[b] == after[b]);
                }
            }
            assert(self.entries() =~= m.insert(at, entry@));
        }
    }

    fn invalidate(&mut self, profile: &str, key: &str) {
        let i = self.find(profile, key);
        let ghost at = (profile@, key@);
        if i < self.slots.len() {
            self.drop_at(i);
        } else {
            proof {
                held_domain(self.slots@, at);
                assert(self.entries().remove(at) =~= self.entries());
            }
        }
    }

    fn clear(&mut self, profile: Option<&str>) {
        match profile {
            Some(p) => {
                let ghost m = self.entries();
                self.keep(Some(p), None);
                proof {
                    assert(self.entries() =~= without_partition(m, p@));
                }
            },
            None => {
                self.slots = Vec::new();
                proof {
                    assert(held(self.slots@) =~= Map::<Address, Stored>::empty());
                }
            },
        }
    }

    fn sweep(&mut self, now: UnixSecs) {
        let ghost m = self.entries();
        self.keep(None, Some(now));
        proof {
            assert(self.entries() =~= only_live(m, now));
        }
    }
}

// ===== Laws ==============================================================

/// What was put is what a live lookup gives, and other addresses are untouched.
pub proof fn put_then_get(
    m: Map<Address, Stored>,
    at: Address,
    e: Stored,
    other: Address,
    now: UnixSecs,
)
    ensures
        live_entry(m.insert(at, e), at, now) == if e.live_at(now) {
            Some(e)
        } else {
            None
        },
        other != at ==> live_entry(m.insert(at, e), other, now) == live_entry(m, other, now),
{
}

/// An address that was dropped has no entry, and other addresses are untouched.
pub proof fn invalidate_then_get(
    m: Map<Address, Stored>,
    at: Address,
    other: Address,
    now: UnixSecs,
)
    ensures
        live_entry(m.remove(at), at, now) is None,
        other != at ==> live_entry(m.remove(at), other, now) == live_entry(m, other, now),
{
}

/// Clearing a partition touches that partition alone.
pub proof fn clear_keeps_other_partitions(
    m: Map<Address, Stored>,
    profile: Text,
    at: Address,
    now: UnixSecs,
)
    ensures
        at.0 == profile ==> live_entry(without_partition(m, profile), at, now) is None,
        at.0 != profile ==> live_entry(without_partition(m, profile), at, now) == live_entry(
            m,
            at,
            now,
        ),
{
}

/// Sweeping, and dropping what has expired, change no lookup from then on.
pub proof fn sweeping_is_invisible(
    m: Map<Address, Stored>,
    at: Address,
    swept: Address,
    now: UnixSecs,
    later: UnixSecs,
)
    requires
        now <= later,
    ensures
        live_entry(only_live(m, now), at, later) == live_entry(m, at, later),
        live_entry(without_expired(m, swept, now), at, later) == live_entry(m, at, later),
{
}

} // verus!
