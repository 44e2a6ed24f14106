//! Preferences by key, in the order of the keys: the map that a merge fills.

use crate::text::chars_of;
use crate::types::{entry_views, PrefEntry, PrefEntryView};
use vstd::prelude::*;

verus! {

/// Whether `a` stands before `b` from place `i` on, both agreeing before `i`.
pub open spec fn key_lt_from(a: Seq<char>, b: Seq<char>, i: int) -> bool
    decreases a.len() - i,
{
    if i >= b.len() {
        false
    } else if i >= a.len() {
        true
    } else if a[i] != b[i] {
        a[i] < b[i]
    } else {
        key_lt_from(a, b, i + 1)
    }
}

/// The order of keys: character by character, a shorter key before its
/// extensions. This is the order of `String`.
pub open spec fn key_lt(a: Seq<char>, b: Seq<char>) -> bool {
    key_lt_from(a, b, 0)
}

proof fn key_lt_from_trans(a: Seq<char>, b: Seq<char>, c: Seq<char>, i: int)
    requires
        0 <= i,
        key_lt_from(a, b, i),
        key_lt_from(b, c, i),
    ensures
        key_lt_from(a, c, i),
    decreases a.len() - i,
{
    if i < a.len() && i < b.len() && i < c.len() && a[i] == b[i] && b[i] == c[i] {
        key_lt_from_trans(a, b, c, i + 1);
    }
}

proof fn key_lt_from_total(a: Seq<char>, b: Seq<char>, i: int)
    requires
        0 <= i <= a.len(),
        i <= b.len(),
        a.take(i) == b.take(i),
    ensures
        a == b || key_lt_from(a, b, i) || key_lt_from(b, a, i),
        !(key_lt_from(a, b, i) && key_lt_from(b, a, i)),
        a == b ==> !key_lt_from(a, b, i),
    decreases a.len() - i,
{
    if i < a.len() && i < b.len() {
        if a[i] == b[i] {
            assert(a.take(i + 1) == a.take(i).push(a[i]));
            assert(b.take(i + 1) == b.take(i).push(b[i]));
            key_lt_from_total(a, b, i + 1);
        }
    } else if i == a.len() && i == b.len() {
        assert(a.take(i) == a);
        assert(b.take(i) == b);
    } else if i == a.len() {
        assert(a.take(i) == a);
    } else {
        assert(b.take(i) == b);
    }
}

/// The order of keys is transitive.
pub proof fn key_lt_transitive(a: Seq<char>, b: Seq<char>, c: Seq<char>)
    requires
        key_lt(a, b),
        key_lt(b, c),
    ensures
        key_lt(a, c),
{
    key_lt_from_trans(a, b, c, 0);
}

/// Of two keys exactly one holds: they are equal, the first stands before
/// the second, or the second before the first.
pub proof fn key_lt_total(a: Seq<char>, b: Seq<char>)
    ensures
        a == b || key_lt(a, b) || key_lt(b, a),
        !(key_lt(a, b) && key_lt(b, a)),
        a == b ==> !key_lt(a, b),
{
    assert(a.take(0) == b.take(0));
    key_lt_from_total(a, b, 0);
}

/// Whether the keys of `m` ascend strictly.
pub open spec fn sorted_by_key(m: Seq<PrefEntryView>) -> bool {
    forall|i: int, j: int| 0 <= i < j < m.len() ==> key_lt(#[trigger] m[i].key, #[trigger] m[j].key)
}

/// The first place from `i` on whose key does not stand before `key`.
pub open spec fn lower_bound_from(m: Seq<PrefEntryView>, key: Seq<char>, i: int) -> int
    decreases m.len() - i,
{
    if 0 <= i < m.len() && key_lt(m[i].key, key) {
        lower_bound_from(m, key, i + 1)
    } else {
        i
    }
}

/// `m` with the entry `e` put in its place in the order of keys, instead of
/// the entry of the same key where `m` holds one.
pub open spec fn upsert(m: Seq<PrefEntryView>, e: PrefEntryView) -> Seq<PrefEntryView> {
    let at = lower_bound_from(m, e.key, 0);
    if at < m.len() && m[at].key == e.key {
        m.update(at, e)
    } else {
        m.insert(at, e)
    }
}

/// What putting the entries of `entries` into an empty map, one after the
/// other, leaves: one entry per key, the last of that key, ascending by key.
pub open spec fn overlay(entries: Seq<PrefEntryView>) -> Seq<PrefEntryView>
    decreases entries.len(),
{
    if entries.len() == 0 {
        Seq::empty()
    } else {
        upsert(overlay(entries.drop_last()), entries.last())
    }
}

/// The entry of `m` with the key `key`, if there is one.
pub open spec fn lookup(m: Seq<PrefEntryView>, key: Seq<char>) -> Option<PrefEntryView> {
    if exists|i: int| 0 <= i < m.len() && #[trigger] m[i].key == key {
        let i = choose|i: int| 0 <= i < m.len() && #[trigger] m[i].key == key;
        Some(m[i])
    } else {
        None
    }
}

/// The last entry of `entries` with the key `key`, if there is one.
pub open spec fn last_with_key(entries: Seq<PrefEntryView>, key: Seq<char>) -> Option<
    PrefEntryView,
>
    decreases entries.len(),
{
    if entries.len() == 0 {
        None
    } else if entries.last().key == key {
        Some(entries.last())
    } else {
        last_with_key(entries.drop_last(), key)
    }
}

/// The lower bound is the place before which all keys stand before `key`
/// and at which the key does not.
proof fn lower_bound_is(m: Seq<PrefEntryView>, key: Seq<char>, i: int, at: int)
    requires
        0 <= i <= at <= m.len(),
        forall|j: int| i <= j < at ==> key_lt(#[trigger] m[j].key, key),
        at < m.len() ==> !key_lt(m[at].key, key),
    ensures
        lower_bound_from(m, key, i) == at,
    decreases at - i,
{
    if i < at {
        lower_bound_is(m, key, i + 1, at);
    }
}

/// The lower bound lies in the map, with smaller keys before it only.
proof fn lower_bound_bounds(m: Seq<PrefEntryView>, key: Seq<char>, i: int)
    requires
        0 <= i <= m.len(),
    ensures
        i <= lower_bound_from(m, key, i) <= m.len(),
        forall|j: int| i <= j < lower_bound_from(m, key, i) ==> key_lt(#[trigger] m[j].key, key),
        lower_bound_from(m, key, i) < m.len() ==> !key_lt(
            m[lower_bound_from(m, key, i)].key,
            key,
        ),
    decreases m.len() - i,
{
    if i < m.len() && key_lt(m[i].key, key) {
        lower_bound_bounds(m, key, i + 1);
    }
}

/// Putting an entry into a sorted map leaves it sorted, with the entry
/// under its key and every other key as before.
pub proof fn upsert_keeps_order(m: Seq<PrefEntryView>, e: PrefEntryView)
    requires
        sorted_by_key(m),
    ensures
        sorted_by_key(upsert(m, e)),
        lookup(upsert(m, e), e.key) == Some(e),
        forall|key: Seq<char>| key != e.key ==> lookup(upsert(m, e), key) == lookup(m, key),
{
    let at = lower_bound_from(m, e.key, 0);
    lower_bound_bounds(m, e.key, 0);
    let out = upsert(m, e);
    assert forall|j: int| at <= j < m.len() && m[j].key != e.key implies key_lt(
        e.key,
        #[trigger] m[j].key,
    ) by {
        key_lt_total(e.key, m[j].key);
        if key_lt(m[j].key, e.key) {
            if j > at {
                key_lt_transitive(m[at].key, m[j].key, e.key);
            }
        }
    }
    assert forall|j: int| at < j < m.len() implies m[j].key != e.key by {
        key_lt_total(m[at].key, m[j].key);
        if m[j].key == e.key {
            key_lt_total(m[at].key, e.key);
        }
    }
    assert forall|j: int| 0 <= j < at implies m[j].key != e.key by {
        key_lt_total(m[j].key, e.key);
    }
    let replaced = at < m.len() && m[at].key == e.key;
    assert(sorted_by_key(out)) by {
        assert forall|i: int, j: int| 0 <= i < j < out.len() implies key_lt(
            #[trigger] out[i].key,
            #[trigger] out[j].key,
        ) by {
            if replaced {
                assert(out[i].key == m[i].key);
                assert(out[j].key == m[j].key);
            } else {
                let from_i = if i < at {
                    i
                } else {
                    i - 1
                };
                let from_j = if j < at {
                    j
                } else {
                    j - 1
                };
                if i == at {
                    assert(out[j] == m[from_j]);
                } else if j == at {
                    assert(out[i] == m[from_i]);
                } else {
                    assert(out[i] == m[from_i]);
                    assert(out[j] == m[from_j]);
                }
            }
        }
    }
    sorted_keys_are_unique(out);
    sorted_keys_are_unique(m);
    assert(out[at] == e);
    assert(lookup(out, e.key) == Some(e));
    assert forall|key: Seq<char>| key != e.key implies lookup(out, key) == lookup(m, key) by {
        if exists|i: int| 0 <= i < m.len() && #[trigger] m[i].key == key {
            let i = choose|i: int| 0 <= i < m.len() && #[trigger] m[i].key == key;
            let to = if replaced || i < at {
                i
            } else {
                i + 1
            };
            assert(out[to] == m[i]);
            let k = choose|k: int| 0 <= k < out.len() && #[trigger] out[k].key == key;
            assert(k == to);
        } else if exists|k: int| 0 <= k < out.len() && #[trigger] out[k].key == key {
            let k = choose|k: int| 0 <= k < out.len() && #[trigger] out[k].key == key;
            let from = if replaced || k < at {
                k
            } else {
                k - 1
            };
            assert(out[k] == m[from]);
            assert(false);
        }
    }
}

/// In a sorted map no key stands twice.
pub proof fn sorted_keys_are_unique(m: Seq<PrefEntryView>)
    requires
        sorted_by_key(m),
    ensures
        forall|i: int, j: int|
            0 <= i < m.len() && 0 <= j < m.len() && #[trigger] m[i].key == #[trigger] m[j].key
                ==> i == j,
{
    assert forall|i: int, j: int|
        0 <= i < m.len() && 0 <= j < m.len() && #[trigger] m[i].key == #[trigger] m[j].key implies i
        == j by {
        key_lt_total(m[i].key, m[j].key);
    }
}

/// The overlay of any entries is sorted by key, and holds under each key the
/// last entry of that key.
pub proof fn overlay_holds_the_last(entries: Seq<PrefEntryView>)
    ensures
        sorted_by_key(overlay(entries)),
        forall|key: Seq<char>| lookup(overlay(entries), key) == last_with_key(entries, key),
    decreases entries.len(),
{
    if entries.len() > 0 {
        let before = entries.drop_last();
        overlay_holds_the_last(before);
        upsert_keeps_order(overlay(before), entries.last());
        assert forall|key: Seq<char>| #[trigger]
            lookup(overlay(entries), key) == last_with_key(entries, key) by {
            if key != entries.last().key {
                assert(lookup(overlay(before), key) == last_with_key(before, key));
            }
        }
    } else {
        assert forall|key: Seq<char>| #[trigger]
            lookup(overlay(entries), key) == last_with_key(entries, key) by {}
    }
}

/// Whether the key `a` stands before the key `b`.
pub fn key_before(a: &Vec<char>, b: &Vec<char>) -> (yes: bool)
    ensures
        yes == key_lt(a@, b@),
{
    let mut i: usize = 0;
    while i < a.len() && i < b.len() && a[i] == b[i]
        invariant
            i <= a.len(),
            i <= b.len(),
            key_lt(a@, b@) == key_lt_from(a@, b@, i as int),
        decreases a.len() - i,
    {
        i += 1;
    }
    if i >= b.len() {
        false
    } else if i >= a.len() {
        true
    } else {
        a[i] < b[i]
    }
}

/// Preferences by key: one entry per key, ascending by key.
pub struct PrefMap {
    entries: Vec<PrefEntry>,
    keys: Vec<Vec<char>>,
}

impl View for PrefMap {
    type V = Seq<PrefEntryView>;

    closed spec fn view(&self) -> Seq<PrefEntryView> {
        entry_views(self.entries@)
    }
}

impl PrefMap {
    /// The map's invariant: the keys ascend strictly.
    pub closed spec fn wf(&self) -> bool {
        &&& self.keys.len() == self.entries.len()
        &&& forall|i: int|
            0 <= i < self.keys.len() ==> (#[trigger] self.keys[i])@ == self.entries[i].key@
        &&& sorted_by_key(self@)
    }

    /// The empty map.
    pub fn new() -> (m: PrefMap)
        ensures
            m.wf(),
            m@ == Seq::<PrefEntryView>::empty(),
    {
        let m = PrefMap { entries: Vec::new(), keys: Vec::new() };
        assert(entry_views(m.entries@) == Seq::<PrefEntryView>::empty());
        m
    }

    /// The number of entries.
    pub fn len(&self) -> (n: usize)
        ensures
            n == self@.len(),
    {
        self.entries.len()
    }

    /// The first place whose key does not stand before `key`.
    fn lower_bound(&self, key: &Vec<char>) -> (at: usize)
        requires
            self.wf(),
        ensures
            at == lower_bound_from(self@, key@, 0),
            at <= self.entries.len(),
    {
        let ghost m = self@;
        let mut lo: usize = 0;
        let mut hi: usize = self.keys.len();
        while lo < hi
            invariant
                self.wf(),
                m == self@,
                lo <= hi <= self.keys.len(),
                forall|j: int| 0 <= j < lo ==> key_lt(#[trigger] m[j].key, key@),
                forall|j: int| hi <= j < m.len() ==> !key_lt(#[trigger] m[j].key, key@),
            decreases hi - lo,
        {
            let mid = lo + (hi - lo) / 2;
            assert(self.keys[mid as int]@ == m[mid as int].key);
            if key_before(&self.keys[mid], key) {
                assert forall|j: int| 0 <= j < mid + 1 implies key_lt(#[trigger] m[j].key, key@) by {
                    if j < mid {
                        key_lt_transitive(m[j].key, m[mid as int].key, key@);
                    }
                }
                lo = mid + 1;
            } else {
                assert forall|j: int| mid <= j < m.len() implies !key_lt(
                    #[trigger] m[j].key,
                    key@,
                ) by {
                    if j > mid && key_lt(m[j].key, key@) {
                        key_lt_transitive(m[mid as int].key, m[j].key, key@);
                    }
                }
                hi = mid;
            }
        }
        proof {
            lower_bound_is(m, key@, 0, lo as int);
        }
        lo
    }

    /// Puts `entry` under its key, instead of the entry that was there.
    pub fn insert(&mut self, entry: PrefEntry)
        requires
            old(self).wf(),
        ensures
            final(self).wf(),
            final(self)@ == upsert(old(self)@, entry@),
    {
        let key = chars_of(entry.key.as_str());
        let at = self.lower_bound(&key);
        let ghost before = self@;
        proof {
            upsert_keeps_order(before, entry@);
        }
        if at < self.keys.len() && crate::text::same_chars(&self.keys[at], &key) {
            assert(self.keys[at as int]@ == before[at as int].key);
            self.entries.remove(at);
            self.keys.remove(at);
            self.entries.insert(at, entry);
            self.keys.insert(at, key);
            assert(self@ == before.update(at as int, entry@));
        } else {
            assert(at < before.len() ==> self.keys[at as int]@ == before[at as int].key);
            self.entries.insert(at, entry);
            self.keys.insert(at, key);
            assert(self@ == before.insert(at as int, entry@));
        }
    }

    /// The entries, ascending by key.
    pub fn into_entries(self) -> (entries: Vec<PrefEntry>)
        ensures
            entry_views(entries@) == self@,
    {
        self.entries
    }
}

} // verus!
