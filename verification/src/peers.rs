//! The peer table: the devices heard on the network, each with the time it
//! was last heard. No identifier occurs twice, and the order is that of
//! first sighting.

use vstd::prelude::*;
use crate::control::{DeviceInfo, DeviceView};
use crate::text::same_text;

verus! {

/// A peer that was not heard for longer than this, in milliseconds, leaves
/// the table at the next pruning.
pub const PEER_TTL_MS: u64 = 10_000;

/// One row of the table, as contracts see it.
pub struct PeerView {
    pub device: DeviceView,
    pub last_seen: u64,
}

struct PeerEntry {
    device: DeviceInfo,
    last_seen: u64,
}

impl View for PeerEntry {
    type V = PeerView;

    closed spec fn view(&self) -> PeerView {
        PeerView { device: self.device@, last_seen: self.last_seen }
    }
}

/// Whether some row of `s` has the identifier `id`.
pub open spec fn has_id(s: Seq<PeerView>, id: Seq<char>) -> bool {
    exists|i: int| 0 <= i < s.len() && #[trigger] s[i].device.id == id
}

/// Whether no identifier occurs in two rows of `s`.
pub open spec fn distinct_ids(s: Seq<PeerView>) -> bool {
    forall|i: int, j: int|
        0 <= i < j < s.len() ==> #[trigger] s[i].device.id != #[trigger] s[j].device.id
}

/// A row of `s` with the identifier `id`, where there is one.
pub open spec fn index_of_id(s: Seq<PeerView>, id: Seq<char>) -> int {
    choose|i: int| 0 <= i < s.len() && #[trigger] s[i].device.id == id
}

/// Whether some row of `s` has the address `ip`.
pub open spec fn has_ip(s: Seq<PeerView>, ip: Seq<char>) -> bool {
    exists|i: int| 0 <= i < s.len() && #[trigger] s[i].device.ip == ip
}

/// Whether `i` is the first row of `s` with the address `ip`.
pub open spec fn first_with_ip(s: Seq<PeerView>, ip: Seq<char>, i: int) -> bool {
    &&& 0 <= i < s.len()
    &&& s[i].device.ip == ip
    &&& forall|j: int| 0 <= j < i ==> #[trigger] s[j].device.ip != ip
}

/// The table after `device` was heard at `now`: its row is refreshed in
/// place, or added at the end when the identifier is new.
pub open spec fn observed(s: Seq<PeerView>, device: DeviceView, now: u64) -> Seq<PeerView> {
    if has_id(s, device.id) {
        s.update(index_of_id(s, device.id), PeerView { device, last_seen: now })
    } else {
        s.push(PeerView { device, last_seen: now })
    }
}

/// Whether a row is still fresh at `now`.
pub open spec fn fresh(p: PeerView, now: u64) -> bool {
    now - p.last_seen <= PEER_TTL_MS
}

/// The table without the rows that are stale at `now`.
pub open spec fn pruned(s: Seq<PeerView>, now: u64) -> Seq<PeerView> {
    s.filter(|p: PeerView| fresh(p, now))
}

/// Pruning keeps the identifiers distinct and keeps a row exactly when it
/// is fresh.
pub proof fn lemma_pruned(s: Seq<PeerView>, now: u64)
    requires
        distinct_ids(s),
    ensures
        distinct_ids(pruned(s, now)),
        forall|p: PeerView| pruned(s, now).contains(p) <==> s.contains(p) && fresh(p, now),
    decreases s.len(),
{
    reveal(Seq::filter);
    let pred = |p: PeerView| fresh(p, now);
    if s.len() > 0 {
        let front = s.drop_last();
        lemma_pruned(front, now);
        let kept = pruned(front, now);
        assert forall|p: PeerView| pruned(s, now).contains(p) <==> s.contains(p) && fresh(
            p,
            now,
        ) by {
            if s.contains(p) {
                let i = choose|i: int| 0 <= i < s.len() && s[i] == p;
                if i < s.len() - 1 {
                    assert(front[i] == p);
                    assert(front.contains(p));
                }
            }
            if front.contains(p) {
                let i = choose|i: int| 0 <= i < front.len() && front[i] == p;
                assert(s[i] == p);
            }
            if pruned(s, now).contains(p) {
                let i = choose|i: int| 0 <= i < pruned(s, now).len() && pruned(s, now)[i] == p;
                if pred(s.last()) && i == kept.len() {
                    assert(p == s.last());
                    assert(s[s.len() - 1] == p);
                } else {
                    assert(kept[i] == p);
                    assert(kept.contains(p));
                }
            }
            if s.contains(p) && fresh(p, now) {
                if front.contains(p) {
                    assert(kept.contains(p));
                    let i = choose|i: int| 0 <= i < kept.len() && kept[i] == p;
                    assert(pruned(s, now)[i] == p);
                } else {
                    assert(p == s.last());
                    assert(pruned(s, now)[kept.len() as int] == p);
                }
            }
        }
        if pred(s.last()) {
            assert forall|i: int, j: int| 0 <= i < j < pruned(s, now).len() implies pruned(
                s,
                now,
            )[i].device.id != pruned(s, now)[j].device.id by {
                if j == kept.len() {
                    assert(kept.contains(kept[i]));
                    assert(front.contains(kept[i]));
                    let k = choose|k: int| 0 <= k < front.len() && front[k] == kept[i];
                    assert(s[k].device.id != s[s.len() - 1].device.id);
                } else {
                    assert(kept[i].device.id != kept[j].device.id);
                }
            }
        }
    }
}

/// Whether some row of `s` has the identifier `id` and is fresh at `now`.
pub open spec fn has_fresh_id(s: Seq<PeerView>, id: Seq<char>, now: u64) -> bool {
    exists|i: int| 0 <= i < s.len() && #[trigger] s[i].device.id == id && fresh(s[i], now)
}

/// Hearing a device keeps the identifiers distinct, and adds its
/// identifier to those of the table and no other.
pub proof fn lemma_observed(s: Seq<PeerView>, device: DeviceView, now: u64)
    requires
        distinct_ids(s),
    ensures
        distinct_ids(observed(s, device, now)),
        has_id(observed(s, device, now), device.id),
        forall|id: Seq<char>|
            has_id(observed(s, device, now), id) <==> has_id(s, id) || id == device.id,
{
    let t = observed(s, device, now);
    let row = PeerView { device, last_seen: now };
    if has_id(s, device.id) {
        let k = index_of_id(s, device.id);
        assert(t[k].device.id == device.id);
        assert forall|i: int, j: int| 0 <= i < j < t.len() implies t[i].device.id
            != t[j].device.id by {
            assert(s[i].device.id != s[j].device.id);
        }
        assert forall|id: Seq<char>| has_id(t, id) <==> has_id(s, id) || id == device.id by {
            if has_id(t, id) {
                let i = choose|i: int| 0 <= i < t.len() && #[trigger] t[i].device.id == id;
                assert(s[i].device.id == t[i].device.id);
            }
            if has_id(s, id) {
                let i = choose|i: int| 0 <= i < s.len() && #[trigger] s[i].device.id == id;
                assert(t[i].device.id == id);
            }
        }
    } else {
        assert(t[s.len() as int].device.id == device.id);
        assert forall|i: int, j: int| 0 <= i < j < t.len() implies t[i].device.id
            != t[j].device.id by {
            if j == s.len() {
                assert(s[i].device.id != device.id);
            } else {
                assert(s[i].device.id != s[j].device.id);
            }
        }
        assert forall|id: Seq<char>| has_id(t, id) <==> has_id(s, id) || id == device.id by {
            if has_id(t, id) {
                let i = choose|i: int| 0 <= i < t.len() && #[trigger] t[i].device.id == id;
                if i < s.len() {
                    assert(s[i].device.id == id);
                }
            }
            if has_id(s, id) {
                let i = choose|i: int| 0 <= i < s.len() && #[trigger] s[i].device.id == id;
                assert(t[i].device.id == id);
            }
        }
    }
}

/// After pruning, the table has an identifier exactly when it had it on a
/// fresh row.
pub proof fn lemma_pruned_ids(s: Seq<PeerView>, now: u64)
    requires
        distinct_ids(s),
    ensures
        distinct_ids(pruned(s, now)),
        forall|id: Seq<char>| has_id(pruned(s, now), id) <==> has_fresh_id(s, id, now),
{
    lemma_pruned(s, now);
    let t = pruned(s, now);
    assert forall|id: Seq<char>| has_id(t, id) <==> has_fresh_id(s, id, now) by {
        if has_id(t, id) {
            let i = choose|i: int| 0 <= i < t.len() && #[trigger] t[i].device.id == id;
            assert(t.contains(t[i]));
            let k = choose|k: int| 0 <= k < s.len() && s[k] == t[i];
            assert(s[k].device.id == id && fresh(s[k], now));
        }
        if has_fresh_id(s, id, now) {
            let k = choose|k: int|
                0 <= k < s.len() && #[trigger] s[k].device.id == id && fresh(s[k], now);
            assert(s.contains(s[k]));
            assert(t.contains(s[k]));
            let i = choose|i: int| 0 <= i < t.len() && t[i] == s[k];
            assert(t[i].device.id == id);
        }
    }
}

/// One announce as it was heard: the device it names, and when.
pub struct Sighting {
    pub device: DeviceView,
    pub at: u64,
}

/// The table after the announces of `heard`, from empty. An announce of
/// `local_id` is this host's own and leaves the table as it is.
pub open spec fn table_after(local_id: Seq<char>, heard: Seq<Sighting>) -> Seq<PeerView>
    decreases heard.len(),
{
    if heard.len() == 0 {
        Seq::empty()
    } else if heard.last().device.id == local_id {
        table_after(local_id, heard.drop_last())
    } else {
        observed(table_after(local_id, heard.drop_last()), heard.last().device, heard.last().at)
    }
}

/// Whether the announces of `heard` came in the order of their times, none
/// later than `now`.
pub open spec fn in_order(heard: Seq<Sighting>, now: u64) -> bool {
    &&& forall|i: int, j: int| 0 <= i <= j < heard.len() ==> heard[i].at <= heard[j].at
    &&& forall|i: int| 0 <= i < heard.len() ==> heard[i].at <= now
}

/// Whether `id` was heard at most [`PEER_TTL_MS`] before `now`, and is not
/// `local_id`.
pub open spec fn heard_recently(local_id: Seq<char>, heard: Seq<Sighting>, now: u64, id: Seq<char>) -> bool {
    id != local_id && exists|i: int|
        0 <= i < heard.len() && #[trigger] heard[i].device.id == id && now - heard[i].at
            <= PEER_TTL_MS
}

/// The identifiers other than `local_id` that were heard at most
/// [`PEER_TTL_MS`] before `now`.
pub open spec fn recent_ids(local_id: Seq<char>, heard: Seq<Sighting>, now: u64) -> Set<Seq<char>> {
    Set::new(|id: Seq<char>| heard_recently(local_id, heard, now, id))
}

/// Whether `i` is the last announce of `id` in `heard`.
pub open spec fn last_heard(heard: Seq<Sighting>, id: Seq<char>, i: int) -> bool {
    &&& 0 <= i < heard.len()
    &&& heard[i].device.id == id
    &&& forall|j: int| i < j < heard.len() ==> #[trigger] heard[j].device.id != id
}

proof fn lemma_table_after(local_id: Seq<char>, heard: Seq<Sighting>)
    ensures
        distinct_ids(table_after(local_id, heard)),
        forall|k: int|
            0 <= k < table_after(local_id, heard).len() ==> {
                &&& (#[trigger] table_after(local_id, heard)[k]).device.id != local_id
                &&& exists|i: int|
                    #[trigger] last_heard(heard, table_after(local_id, heard)[k].device.id, i)
                        && heard[i].at == table_after(local_id, heard)[k].last_seen
            },
        forall|i: int|
            0 <= i < heard.len() && heard[i].device.id != local_id ==> has_id(
                table_after(local_id, heard),
                #[trigger] heard[i].device.id,
            ),
    decreases heard.len(),
{
    let t = table_after(local_id, heard);
    if heard.len() > 0 {
        let front = heard.drop_last();
        let last = heard.last();
        let n = heard.len() - 1;
        let before = table_after(local_id, front);
        lemma_table_after(local_id, front);
        if last.device.id == local_id {
            assert forall|k: int| 0 <= k < t.len() implies {
                &&& (#[trigger] t[k]).device.id != local_id
                &&& exists|i: int| #[trigger]
                    last_heard(heard, t[k].device.id, i) && heard[i].at == t[k].last_seen
            } by {
                let i = choose|i: int| #[trigger]
                    last_heard(front, before[k].device.id, i) && front[i].at == before[k].last_seen;
                assert forall|j: int| i < j < heard.len() implies #[trigger] heard[j].device.id
                    != t[k].device.id by {
                    if j < n {
                        assert(front[j].device.id != before[k].device.id);
                    }
                }
                assert(heard[i] == front[i]);
                assert(last_heard(heard, t[k].device.id, i));
            }
            assert forall|i: int|
                0 <= i < heard.len() && heard[i].device.id != local_id implies has_id(
                t,
                #[trigger] heard[i].device.id,
            ) by {
                assert(front[i].device.id == heard[i].device.id);
            }
        } else {
            lemma_observed(before, last.device, last.at);
            assert forall|k: int| 0 <= k < t.len() implies {
                &&& (#[trigger] t[k]).device.id != local_id
                &&& exists|i: int| #[trigger]
                    last_heard(heard, t[k].device.id, i) && heard[i].at == t[k].last_seen
            } by {
                if t[k].device.id == last.device.id {
                    if has_id(before, last.device.id) {
                        let x = index_of_id(before, last.device.id);
                        if k != x {
                            assert(t[k] == before[k]);
                            if k < x {
                                assert(before[k].device.id != before[x].device.id);
                            } else {
                                assert(before[x].device.id != before[k].device.id);
                            }
                        }
                    } else if k < before.len() {
                        assert(before[k].device.id == last.device.id);
                    }
                    assert(t[k].last_seen == last.at);
                    assert(last_heard(heard, t[k].device.id, n));
                } else {
                    assert(k < before.len());
                    assert(t[k] == before[k]);
                    let i = choose|i: int| #[trigger]
                        last_heard(front, before[k].device.id, i) && front[i].at
                            == before[k].last_seen;
                    assert forall|j: int| i < j < heard.len() implies #[trigger] heard[j].device.id
                        != t[k].device.id by {
                        if j < n {
                            assert(front[j].device.id != before[k].device.id);
                        }
                    }
                    assert(heard[i] == front[i]);
                    assert(last_heard(heard, t[k].device.id, i));
                }
            }
            assert forall|i: int|
                0 <= i < heard.len() && heard[i].device.id != local_id implies has_id(
                t,
                #[trigger] heard[i].device.id,
            ) by {
                if i < n {
                    assert(front[i].device.id == heard[i].device.id);
                }
            }
        }
    }
}

/// After any announces and a pruning at `now`, the table holds exactly the
/// identifiers, other than this host's, that were heard in the last
/// [`PEER_TTL_MS`], each once: its size is their number.
pub proof fn lemma_table_counts_recent(local_id: Seq<char>, heard: Seq<Sighting>, now: u64)
    requires
        in_order(heard, now),
    ensures
        distinct_ids(pruned(table_after(local_id, heard), now)),
        forall|id: Seq<char>|
            has_id(pruned(table_after(local_id, heard), now), id) <==> heard_recently(
                local_id,
                heard,
                now,
                id,
            ),
        recent_ids(local_id, heard, now).finite(),
        pruned(table_after(local_id, heard), now).len() == recent_ids(local_id, heard, now).len(),
{
    let t = table_after(local_id, heard);
    let kept = pruned(t, now);
    lemma_table_after(local_id, heard);
    lemma_pruned_ids(t, now);
    assert forall|id: Seq<char>| has_id(kept, id) <==> heard_recently(
        local_id,
        heard,
        now,
        id,
    ) by {
        if has_fresh_id(t, id, now) {
            let k = choose|k: int|
                0 <= k < t.len() && #[trigger] t[k].device.id == id && fresh(t[k], now);
            let i = choose|i: int| #[trigger]
                last_heard(heard, t[k].device.id, i) && heard[i].at == t[k].last_seen;
            assert(heard[i].device.id == id);
        }
        if heard_recently(local_id, heard, now, id) {
            let i = choose|i: int|
                0 <= i < heard.len() && #[trigger] heard[i].device.id == id && now - heard[i].at
                    <= PEER_TTL_MS;
            assert(has_id(t, heard[i].device.id));
            let k = choose|k: int| 0 <= k < t.len() && #[trigger] t[k].device.id == id;
            let j = choose|j: int| #[trigger]
                last_heard(heard, t[k].device.id, j) && heard[j].at == t[k].last_seen;
            assert(i <= j) by {
                if j < i {
                    assert(heard[i].device.id != id);
                }
            }
            assert(heard[i].at <= heard[j].at);
            assert(t[k].device.id == id && fresh(t[k], now));
        }
    }
    let ids = kept.map_values(|p: PeerView| p.device.id);
    assert(ids.no_duplicates()) by {
        assert forall|i: int, j: int|
            0 <= i < ids.len() && 0 <= j < ids.len() && i != j implies ids[i] != ids[j] by {
            if i < j {
                assert(kept[i].device.id != kept[j].device.id);
            } else {
                assert(kept[j].device.id != kept[i].device.id);
            }
        }
    }
    assert(ids.to_set() =~= recent_ids(local_id, heard, now)) by {
        assert forall|id: Seq<char>| ids.to_set().contains(id) <==> recent_ids(
            local_id,
            heard,
            now,
        ).contains(id) by {
            if ids.contains(id) {
                let i = choose|i: int| 0 <= i < ids.len() && ids[i] == id;
                assert(kept[i].device.id == id);
            }
            if has_id(kept, id) {
                let i = choose|i: int| 0 <= i < kept.len() && #[trigger] kept[i].device.id == id;
                assert(ids[i] == id);
            }
        }
    }
    ids.unique_seq_to_set();
    vstd::seq_lib::seq_to_set_is_finite(ids);
}

/// The devices heard on the network.
pub struct PeerTable {
    entries: Vec<PeerEntry>,
}

impl View for PeerTable {
    type V = Seq<PeerView>;

    closed spec fn view(&self) -> Seq<PeerView> {
        self.entries@.map_values(|e: PeerEntry| e@)
    }
}

impl PeerTable {
    #[verifier::type_invariant]
    spec fn inv(self) -> bool {
        distinct_ids(self@)
    }

    /// The empty table.
    pub fn new() -> (table: Self)
        ensures
            table@ == Seq::<PeerView>::empty(),
    {
        let table = PeerTable { entries: Vec::new() };
        assert(table@ =~= Seq::<PeerView>::empty());
        table
    }

    /// The number of rows.
    pub fn len(&self) -> (n: usize)
        ensures
            n == self@.len(),
            distinct_ids(self@),
    {
        proof {
            use_type_invariant(self);
        }
        self.entries.len()
    }

    /// The row with the identifier `id`.
    pub fn position(&self, id: &str) -> (res: Option<usize>)
        ensures
            res is Some <==> has_id(self@, id@),
            res matches Some(i) ==> i == index_of_id(self@, id@) && i < self@.len() && self@[i as int].device.id
                == id@,
    {
        proof {
            use_type_invariant(self);
        }
        let mut i: usize = 0;
        while i < self.entries.len()
            invariant
                i <= self.entries@.len(),
                self@.len() == self.entries@.len(),
                distinct_ids(self@),
                forall|j: int| 0 <= j < i ==> #[trigger] self@[j].device.id != id@,
            decreases self.entries@.len() - i,
        {
            if same_text(self.entries[i].device.id.as_str(), id) {
                proof {
                    assert(self@[i as int].device.id == id@);
                    let k = index_of_id(self@, id@);
                    if k < i {
                        assert(self@[k].device.id != self@[i as int].device.id);
                    } else if i < k {
                        assert(self@[i as int].device.id != self@[k].device.id);
                    }
                }
                return Some(i);
            }
            i = i + 1;
        }
        None
    }

    /// Records that `device` was heard at `now`, and says whether its
    /// identifier is new to the table.
    pub fn observe(&mut self, device: DeviceInfo, now: u64) -> (is_new: bool)
        ensures
            final(self)@ == observed(old(self)@, device@, now),
            is_new == !has_id(old(self)@, device@.id),
            distinct_ids(final(self)@),
    {
        proof {
            use_type_invariant(&*self);
        }
        let found = self.position(device.id.as_str());
        let ghost before = self@;
        let mut taken = PeerTable { entries: Vec::new() };
        core::mem::swap(self, &mut taken);
        let mut entries = taken.entries;
        let is_new = match found {
            Some(i) => {
                entries.set(i, PeerEntry { device, last_seen: now });
                false
            },
            None => {
                entries.push(PeerEntry { device, last_seen: now });
                true
            },
        };
        assert(entries@.map_values(|e: PeerEntry| e@) =~= observed(before, device@, now));
        self.entries = entries;
        is_new
    }

    /// Drops the rows that are stale at `now`.
    pub fn prune(&mut self, now: u64)
        ensures
            final(self)@ == pruned(old(self)@, now),
            distinct_ids(final(self)@),
    {
        proof {
            use_type_invariant(&*self);
            lemma_pruned(self@, now);
        }
        let ghost before = self@;
        let ghost pred = |p: PeerView| fresh(p, now);
        let mut kept: Vec<PeerEntry> = Vec::new();
        let mut i: usize = 0;
        while i < self.entries.len()
            invariant
                i <= self.entries@.len(),
                self@ == before,
                before.len() == self.entries@.len(),
                pred == |p: PeerView| fresh(p, now),
                kept@.map_values(|e: PeerEntry| e@) == before.subrange(0, i as int).filter(pred),
            decreases self.entries@.len() - i,
        {
            let entry = &self.entries[i];
            proof {
                reveal(Seq::filter);
                assert(before.subrange(0, i + 1).drop_last() =~= before.subrange(0, i as int));
                assert(before.subrange(0, i + 1).last() == entry@);
            }
            let stale = now > entry.last_seen && now - entry.last_seen > PEER_TTL_MS;
            if !stale {
                kept.push(PeerEntry { device: entry.device.clone(), last_seen: entry.last_seen });
                assert(kept@.map_values(|e: PeerEntry| e@) =~= before.subrange(0, i as int).filter(
                    pred,
                ).push(entry@));
            }
            i = i + 1;
        }
        assert(before.subrange(0, i as int) =~= before);
        self.entries = kept;
    }

    /// The devices of the table, in its order.
    pub fn devices(&self) -> (list: Vec<DeviceInfo>)
        ensures
            list@.len() == self@.len(),
            forall|i: int| 0 <= i < list@.len() ==> #[trigger] list@[i]@ == self@[i].device,
    {
        let mut list: Vec<DeviceInfo> = Vec::new();
        let mut i: usize = 0;
        while i < self.entries.len()
            invariant
                i <= self.entries@.len(),
                self@.len() == self.entries@.len(),
                list@.len() == i,
                forall|j: int| 0 <= j < i ==> #[trigger] list@[j]@ == self@[j].device,
            decreases self.entries@.len() - i,
        {
            list.push(self.entries[i].device.clone());
            i = i + 1;
        }
        list
    }

    /// The device with the identifier `id`.
    pub fn find_by_id(&self, id: &str) -> (res: Option<DeviceInfo>)
        ensures
            res is Some <==> has_id(self@, id@),
            res matches Some(d) ==> d@ == self@[index_of_id(self@, id@)].device,
    {
        match self.position(id) {
            Some(i) => Some(self.entries[i].device.clone()),
            None => None,
        }
    }

    /// The first device with the address `ip`.
    pub fn find_by_ip(&self, ip: &str) -> (res: Option<DeviceInfo>)
        ensures
            res is Some <==> has_ip(self@, ip@),
            res matches Some(d) ==> exists|i: int| first_with_ip(self@, ip@, i) && d@ == self@[i].device,
    {
        let mut i: usize = 0;
        while i < self.entries.len()
            invariant
                i <= self.entries@.len(),
                self@.len() == self.entries@.len(),
                forall|j: int| 0 <= j < i ==> #[trigger] self@[j].device.ip != ip@,
            decreases self.entries@.len() - i,
        {
            if same_text(self.entries[i].device.ip.as_str(), ip) {
                assert(first_with_ip(self@, ip@, i as int));
                return Some(self.entries[i].device.clone());
            }
            i = i + 1;
        }
        None
    }
}

} // verus!
