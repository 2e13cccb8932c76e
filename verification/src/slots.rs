use vstd::prelude::*;

use crate::copy::DeepCopy;

use crate::ids::{ChartSlotId, InstanceId};

verus! {

/// Slot entries in insertion order; well formed when no slot occurs twice.
#[derive(Debug, PartialEq, Eq)]
struct SlotList {
    entries: Vec<(ChartSlotId, InstanceId)>,
}

/// Keys of a list of slot entries, by their text.
pub open spec fn entry_keys(entries: Seq<(ChartSlotId, InstanceId)>) -> Seq<Seq<char>> {
    entries.map_values(|e: (ChartSlotId, InstanceId)| e.0@)
}

/// No text occurs twice in `s`.
pub open spec fn distinct_texts(s: Seq<Seq<char>>) -> bool {
    forall|i: int, j: int| 0 <= i < s.len() && 0 <= j < s.len() && i != j ==> s[i] != s[j]
}

/// Some element of `v` has the text `k`.
pub open spec fn lists_text(v: Seq<ChartSlotId>, k: Seq<char>) -> bool {
    exists|m: int| 0 <= m < v.len() && v[m]@ == k
}

/// Whether the text `a` sorts strictly before `b`: at the first position where they differ the
/// character of `a` is smaller, or `a` is a proper prefix of `b`. This is the order of `String`,
/// whose bytes in UTF-8 order as the characters they encode.
pub open spec fn text_before(a: Seq<char>, b: Seq<char>) -> bool
    decreases a.len(),
{
    if b.len() == 0 {
        false
    } else if a.len() == 0 {
        true
    } else if a[0] != b[0] {
        a[0] < b[0]
    } else {
        text_before(a.drop_first(), b.drop_first())
    }
}

pub proof fn lemma_text_before_irreflexive(a: Seq<char>)
    ensures
        !text_before(a, a),
    decreases a.len(),
{
    if a.len() > 0 {
        lemma_text_before_irreflexive(a.drop_first());
    }
}

pub proof fn lemma_text_before_total(a: Seq<char>, b: Seq<char>)
    requires
        a != b,
    ensures
        text_before(a, b) || text_before(b, a),
    decreases a.len(),
{
    if a.len() > 0 && b.len() > 0 && a[0] == b[0] {
        if a.drop_first() == b.drop_first() {
            assert(a =~= seq![a[0]] + a.drop_first());
            assert(b =~= seq![b[0]] + b.drop_first());
        }
        lemma_text_before_total(a.drop_first(), b.drop_first());
    } else if a.len() == 0 && b.len() == 0 {
        assert(a =~= b);
    }
}

pub proof fn lemma_text_before_transitive(a: Seq<char>, b: Seq<char>, c: Seq<char>)
    requires
        text_before(a, b),
        text_before(b, c),
    ensures
        text_before(a, c),
    decreases a.len(),
{
    if a.len() > 0 && b.len() > 0 && c.len() > 0 && a[0] == b[0] && b[0] == c[0] {
        lemma_text_before_transitive(a.drop_first(), b.drop_first(), c.drop_first());
    }
}

/// Whether `a` sorts strictly before `b`.
pub fn text_precedes(a: &str, b: &str) -> (r: bool)
    ensures
        r == text_before(a@, b@),
{
    let na = a.unicode_len();
    let nb = b.unicode_len();
    let mut i: usize = 0;
    assert(a@.skip(0) =~= a@);
    assert(b@.skip(0) =~= b@);
    while i < na && i < nb && a.get_char(i) == b.get_char(i)
        invariant
            na == a@.len(),
            nb == b@.len(),
            i <= na,
            i <= nb,
            text_before(a@, b@) == text_before(a@.skip(i as int), b@.skip(i as int)),
        decreases na - i,
    {
        assert(a@.skip(i as int).drop_first() =~= a@.skip(i + 1));
        assert(b@.skip(i as int).drop_first() =~= b@.skip(i + 1));
        assert(a@.skip(i as int)[0] == a@[i as int]);
        assert(b@.skip(i as int)[0] == b@[i as int]);
        i += 1;
    }
    if i == nb {
        false
    } else if i == na {
        true
    } else {
        let ca = a.get_char(i);
        let cb = b.get_char(i);
        assert(a@.skip(i as int)[0] == ca);
        assert(b@.skip(i as int)[0] == cb);
        ca < cb
    }
}

/// The slot key that sorts before every other key of `m`.
pub open spec fn is_first_slot(m: Map<Seq<char>, InstanceId>, k: Seq<char>) -> bool {
    &&& m.dom().contains(k)
    &&& forall|other: Seq<char>| #[trigger] m.dom().contains(other) && other != k ==> text_before(k, other)
}

/// The chart in the slot whose key sorts first, if any slot is assigned.
pub open spec fn first_slot_chart(m: Map<Seq<char>, InstanceId>) -> Option<InstanceId> {
    if exists|k: Seq<char>| is_first_slot(m, k) {
        Some(m[choose|k: Seq<char>| is_first_slot(m, k)])
    } else {
        None
    }
}

/// At most one key of a map sorts before all others.
pub proof fn lemma_first_slot_unique(m: Map<Seq<char>, InstanceId>, a: Seq<char>, b: Seq<char>)
    requires
        is_first_slot(m, a),
        is_first_slot(m, b),
    ensures
        a == b,
{
    if a != b {
        assert(text_before(a, b));
        assert(text_before(b, a));
        lemma_text_before_transitive(a, b, a);
        lemma_text_before_irreflexive(a);
    }
}

impl SlotList {
    /// Well-formedness: no slot occurs twice.
    pub closed spec fn wf(self) -> bool {
        distinct_texts(entry_keys(self.entries@))
    }

    closed spec fn has_key(self, key: Seq<char>) -> bool {
        exists|i: int| 0 <= i < self.entries@.len() && self.entries@[i].0@ == key
    }

    closed spec fn index_of(self, key: Seq<char>) -> int {
        choose|i: int| 0 <= i < self.entries@.len() && self.entries@[i].0@ == key
    }

    /// The assignments as a map from slot text to chart.
    pub closed spec fn spec_map(self) -> Map<Seq<char>, InstanceId> {
        Map::new(|k: Seq<char>| self.has_key(k), |k: Seq<char>| self.entries@[self.index_of(k)].1)
    }

    proof fn lemma_entry(self, i: int)
        requires
            self.wf(),
            0 <= i < self.entries@.len(),
        ensures
            self.spec_map().dom().contains(self.entries@[i].0@),
            self.spec_map()[self.entries@[i].0@] == self.entries@[i].1,
    {
        let k = self.entries@[i].0@;
        assert(self.has_key(k));
        let j = self.index_of(k);
        assert(entry_keys(self.entries@)[j] == k);
        assert(entry_keys(self.entries@)[i] == k);
    }

    proof fn lemma_absent(self, k: Seq<char>)
        requires
            forall|j: int| 0 <= j < self.entries@.len() ==> self.entries@[j].0@ != k,
        ensures
            !self.spec_map().dom().contains(k),
    {
    }

    proof fn lemma_key_has_entry(self, k: Seq<char>) -> (i: int)
        requires
            self.spec_map().dom().contains(k),
        ensures
            0 <= i < self.entries@.len(),
            self.entries@[i].0@ == k,
    {
        self.index_of(k)
    }

    /// Whether no slot occurs twice.
    pub fn is_well_formed(&self) -> (r: bool)
        ensures
            r == self.wf(),
    {
        let mut i: usize = 0;
        while i < self.entries.len()
            invariant
                i <= self.entries@.len(),
                forall|a: int, b: int| 0 <= a < i && 0 <= b < self.entries@.len() && a != b
                    ==> #[trigger] entry_keys(self.entries@)[a] != #[trigger] entry_keys(self.entries@)[b],
            decreases self.entries@.len() - i,
        {
            let mut j: usize = 0;
            while j < self.entries.len()
                invariant
                    i < self.entries@.len(),
                    j <= self.entries@.len(),
                    forall|b: int| 0 <= b < j && b != i ==> entry_keys(self.entries@)[i as int] != #[trigger] entry_keys(self.entries@)[b],
                decreases self.entries@.len() - j,
            {
                if j != i && self.entries[i].0 == self.entries[j].0 {
                    assert(entry_keys(self.entries@)[i as int] == entry_keys(self.entries@)[j as int]);
                    return false;
                }
                j += 1;
            }
            i += 1;
        }
        true
    }

    pub fn new() -> (r: Self)
        ensures
            r.wf(),
            r.spec_map() =~= Map::<Seq<char>, InstanceId>::empty(),
    {
        SlotList { entries: Vec::new() }
    }

    /// The chart in the slot whose key sorts first, as a sorted map yields it first; none when
    /// no slot is assigned.
    pub fn first_by_slot(&self) -> (r: Option<InstanceId>)
        requires
            self.wf(),
        ensures
            r == first_slot_chart(self.spec_map()),
            r is None <==> self.spec_map().dom() =~= Set::<Seq<char>>::empty(),
    {
        let n = self.entries.len();
        if n == 0 {
            proof {
                assert forall|k: Seq<char>| !self.spec_map().dom().contains(k) by {}
                assert(!exists|k: Seq<char>| is_first_slot(self.spec_map(), k));
            }
            return None;
        }
        let mut best: usize = 0;
        let mut i: usize = 1;
        while i < n
            invariant
                self.wf(),
                n == self.entries@.len(),
                1 <= i <= n,
                best < i,
                forall|j: int| 0 <= j < i && j != best ==> text_before(
                    self.entries@[best as int].0@,
                    #[trigger] self.entries@[j].0@,
                ),
            decreases n - i,
        {
            let ghost old_best = best;
            assert(entry_keys(self.entries@)[i as int] != entry_keys(self.entries@)[best as int]);
            if text_precedes(self.entries[i].0.as_str(), self.entries[best].0.as_str()) {
                proof {
                    assert forall|j: int| 0 <= j < i + 1 && j != i implies text_before(
                        self.entries@[i as int].0@,
                        #[trigger] self.entries@[j].0@,
                    ) by {
                        if j != old_best {
                            lemma_text_before_transitive(
                                self.entries@[i as int].0@,
                                self.entries@[old_best as int].0@,
                                self.entries@[j].0@,
                            );
                        }
                    }
                }
                best = i;
            } else {
                proof {
                    lemma_text_before_total(self.entries@[i as int].0@, self.entries@[best as int].0@);
                }
            }
            i += 1;
        }
        let chart = self.entries[best].1;
        proof {
            let m = self.spec_map();
            let k = self.entries@[best as int].0@;
            self.lemma_entry(best as int);
            assert forall|other: Seq<char>| #[trigger] m.dom().contains(other) && other != k implies text_before(k, other) by {
                let j = self.lemma_key_has_entry(other);
                assert(j != best);
            }
            assert(is_first_slot(m, k));
            let c = choose|c: Seq<char>| is_first_slot(m, c);
            lemma_first_slot_unique(m, k, c);
            assert(m.dom().contains(k));
        }
        Some(chart)
    }

    /// The chart assigned to `slot`, if any.
    pub fn get(&self, slot: &ChartSlotId) -> (r: Option<InstanceId>)
        requires
            self.wf(),
        ensures
            r == (if self.spec_map().dom().contains(slot@) {
                Some(self.spec_map()[slot@])
            } else {
                None::<InstanceId>
            }),
    {
        let mut i: usize = 0;
        while i < self.entries.len()
            invariant
                self.wf(),
                i <= self.entries@.len(),
                forall|j: int| 0 <= j < i ==> self.entries@[j].0@ != slot@,
            decreases self.entries@.len() - i,
        {
            if self.entries[i].0 == *slot {
                proof { self.lemma_entry(i as int); }
                return Some(self.entries[i].1);
            }
            i += 1;
        }
        proof { self.lemma_absent(slot@); }
        None
    }

    /// Assigns `chart` to `slot`, replacing any chart assigned to it.
    pub fn insert(&mut self, slot: ChartSlotId, chart: InstanceId)
        requires
            old(self).wf(),
        ensures
            final(self).wf(),
            final(self).spec_map() =~= old(self).spec_map().insert(slot@, chart),
    {
        let ghost before = *self;
        let ghost old_entries = self.entries@;
        let ghost key = slot@;
        let mut i: usize = 0;
        while i < self.entries.len()
            invariant
                self.entries@ == old_entries,
                before.entries@ == old_entries,
                before == *old(self),
                before.wf(),
                key == slot@,
                i <= self.entries@.len(),
                forall|j: int| 0 <= j < i ==> self.entries@[j].0@ != key,
            decreases self.entries@.len() - i,
        {
            if self.entries[i].0 == slot {
                self.entries.set(i, (slot, chart));
                proof {
                    let ii = i as int;
                    assert(entry_keys(self.entries@) =~= entry_keys(old_entries));
                    assert forall|k: Seq<char>| #[trigger] self.spec_map().dom().contains(k) == before.spec_map().insert(key, chart).dom().contains(k) by {
                        if before.spec_map().dom().contains(k) {
                            let w = before.lemma_key_has_entry(k);
                            self.lemma_entry(w);
                        }
                        if k == key {
                            self.lemma_entry(ii);
                        }
                        if self.spec_map().dom().contains(k) {
                            let w = self.lemma_key_has_entry(k);
                            before.lemma_entry(w);
                        }
                    }
                    assert forall|k: Seq<char>| #[trigger] self.spec_map().dom().contains(k) implies self.spec_map()[k]
                        == before.spec_map().insert(key, chart)[k] by {
                        let w = self.lemma_key_has_entry(k);
                        self.lemma_entry(w);
                        if k != key {
                            before.lemma_entry(w);
                        } else {
                            self.lemma_entry(ii);
                        }
                    }
                    assert(self.spec_map() =~= before.spec_map().insert(key, chart));
                }
                return;
            }
            i += 1;
        }
        self.entries.push((slot, chart));
        proof {
            let n = old_entries.len() as int;
            assert(entry_keys(self.entries@) =~= entry_keys(old_entries).push(key));
            assert forall|a: int, b: int| 0 <= a < entry_keys(self.entries@).len() && 0 <= b < entry_keys(self.entries@).len() && a != b implies entry_keys(self.entries@)[a] != entry_keys(self.entries@)[b] by {
                if a < n && b < n {
                    assert(entry_keys(old_entries)[a] != entry_keys(old_entries)[b]);
                }
            }
            assert forall|k: Seq<char>| #[trigger] self.spec_map().dom().contains(k) == before.spec_map().insert(key, chart).dom().contains(k) by {
                if before.spec_map().dom().contains(k) {
                    let w = before.lemma_key_has_entry(k);
                    assert(self.entries@[w] == old_entries[w]);
                    self.lemma_entry(w);
                }
                if k == key {
                    self.lemma_entry(n);
                }
                if self.spec_map().dom().contains(k) && k != key {
                    let w = self.lemma_key_has_entry(k);
                    assert(old_entries[w] == self.entries@[w]);
                    before.lemma_entry(w);
                }
            }
            assert forall|k: Seq<char>| #[trigger] self.spec_map().dom().contains(k) implies self.spec_map()[k]
                == before.spec_map().insert(key, chart)[k] by {
                let w = self.lemma_key_has_entry(k);
                self.lemma_entry(w);
                if k != key {
                    assert(old_entries[w] == self.entries@[w]);
                    before.lemma_entry(w);
                } else {
                    self.lemma_entry(n);
                }
            }
        }
    }

    /// Clears `slot`.
    pub fn remove(&mut self, slot: &ChartSlotId)
        requires
            old(self).wf(),
        ensures
            final(self).wf(),
            final(self).spec_map() =~= old(self).spec_map().remove(slot@),
    {
        let ghost before = *self;
        let ghost old_entries = self.entries@;
        let mut i: usize = 0;
        while i < self.entries.len()
            invariant
                self.entries@ == old_entries,
                before.entries@ == old_entries,
                before == *old(self),
                before.wf(),
                i <= self.entries@.len(),
                forall|j: int| 0 <= j < i ==> self.entries@[j].0@ != slot@,
            decreases self.entries@.len() - i,
        {
            if self.entries[i].0 == *slot {
                let _ = self.entries.remove(i);
                proof {
                    let ii = i as int;
                    assert(entry_keys(self.entries@) =~= entry_keys(old_entries).remove(ii));
                    assert forall|a: int, b: int| 0 <= a < entry_keys(self.entries@).len() && 0 <= b < entry_keys(self.entries@).len() && a != b implies entry_keys(self.entries@)[a] != entry_keys(self.entries@)[b] by {
                        let a0 = if a < ii { a } else { a + 1 };
                        let b0 = if b < ii { b } else { b + 1 };
                        assert(entry_keys(old_entries)[a0] != entry_keys(old_entries)[b0]);
                    }
                    assert forall|k: Seq<char>| #[trigger] self.spec_map().dom().contains(k) == before.spec_map().remove(slot@).dom().contains(k) by {
                        if before.spec_map().dom().contains(k) && k != slot@ {
                            let w = before.lemma_key_has_entry(k);
                            assert(w != ii);
                            let w2 = if w < ii { w } else { w - 1 };
                            assert(self.entries@[w2] == old_entries[w]);
                            self.lemma_entry(w2);
                        }
                        if self.spec_map().dom().contains(k) {
                            let w = self.lemma_key_has_entry(k);
                            let w0 = if w < ii { w } else { w + 1 };
                            assert(old_entries[w0] == self.entries@[w]);
                            assert(entry_keys(old_entries)[w0] != entry_keys(old_entries)[ii]);
                            before.lemma_entry(w0);
                        }
                    }
                    assert forall|k: Seq<char>| #[trigger] self.spec_map().dom().contains(k) implies self.spec_map()[k]
                        == before.spec_map().remove(slot@)[k] by {
                        let w = self.lemma_key_has_entry(k);
                        self.lemma_entry(w);
                        let w0 = if w < ii { w } else { w + 1 };
                        assert(old_entries[w0] == self.entries@[w]);
                        before.lemma_entry(w0);
                    }
                    assert(self.spec_map() =~= before.spec_map().remove(slot@));
                }
                return;
            }
            i += 1;
        }
        proof {
            before.lemma_absent(slot@);
            assert(before.spec_map().remove(slot@) =~= before.spec_map());
        }
    }

    closed spec fn assigned_among(self, i: int, chart: InstanceId, k: Seq<char>) -> bool {
        exists|j: int| 0 <= j < i && self.entries@[j].0@ == k && self.entries@[j].1 == chart
    }

    /// The slots assigned to `chart`.
    pub fn slots_of(&self, chart: InstanceId) -> (r: Vec<ChartSlotId>)
        requires
            self.wf(),
        ensures
            forall|k: Seq<char>| #[trigger] lists_text(r@, k) <==> (
            self.spec_map().dom().contains(k) && self.spec_map()[k] == chart),
    {
        let mut out: Vec<ChartSlotId> = Vec::new();
        let mut i: usize = 0;
        while i < self.entries.len()
            invariant
                i <= self.entries@.len(),
                forall|k: Seq<char>| #[trigger] lists_text(out@, k) <==> self.assigned_among(i as int, chart, k),
            decreases self.entries@.len() - i,
        {
            let ghost prev = out@;
            if self.entries[i].1 == chart {
                let s = self.entries[i].0.clone();
                out.push(s);
            }
            proof {
                assert forall|k: Seq<char>| #[trigger] lists_text(out@, k) <==> self.assigned_among(i + 1, chart, k) by {
                    if lists_text(out@, k) {
                        let m = choose|m: int| 0 <= m < out@.len() && out@[m]@ == k;
                        if m < prev.len() {
                            assert(prev[m] == out@[m]);
                            assert(lists_text(prev, k));
                            let j = choose|j: int| 0 <= j < i && self.entries@[j].0@ == k && self.entries@[j].1 == chart;
                            assert(self.assigned_among(i + 1, chart, k));
                        } else {
                            assert(self.entries@[i as int].0@ == k);
                            assert(self.assigned_among(i + 1, chart, k));
                        }
                    }
                    if self.assigned_among(i + 1, chart, k) {
                        let j = choose|j: int| 0 <= j < i + 1 && self.entries@[j].0@ == k && self.entries@[j].1 == chart;
                        if j < i {
                            assert(self.assigned_among(i as int, chart, k));
                            assert(lists_text(prev, k));
                            let m = choose|m: int| 0 <= m < prev.len() && prev[m]@ == k;
                            assert(out@[m] == prev[m]);
                        } else {
                            assert(out@[prev.len() as int]@ == k);
                        }
                    }
                }
            }
            i += 1;
        }
        proof {
            assert forall|k: Seq<char>| #[trigger] lists_text(out@, k) <==> (
            self.spec_map().dom().contains(k) && self.spec_map()[k] == chart) by {
                let n = self.entries@.len() as int;
                if self.assigned_among(n, chart, k) {
                    let j = choose|j: int| 0 <= j < n && self.entries@[j].0@ == k && self.entries@[j].1 == chart;
                    self.lemma_entry(j);
                }
                if self.spec_map().dom().contains(k) && self.spec_map()[k] == chart {
                    let w = self.lemma_key_has_entry(k);
                    self.lemma_entry(w);
                    assert(self.assigned_among(n, chart, k));
                }
            }
        }
        out
    }
}

impl DeepCopy for SlotList {
    closed spec fn copy_of(self, other: Self) -> bool {
        self.entries@ == other.entries@
    }

    fn deep_copy(&self) -> (r: Self) {
        let mut entries: Vec<(ChartSlotId, InstanceId)> = Vec::new();
        let mut i: usize = 0;
        while i < self.entries.len()
            invariant
                i <= self.entries@.len(),
                entries@ =~= self.entries@.subrange(0, i as int),
            decreases self.entries@.len() - i,
        {
            let entry = (self.entries[i].0.clone(), self.entries[i].1);
            entries.push(entry);
            i += 1;
        }
        assert(entries@ =~= self.entries@);
        SlotList { entries }
    }
}

impl SlotList {
    /// A copy holds the same assignments and is well formed exactly when the original is.
    pub proof fn lemma_copy_of(self, other: Self)
        requires
            self.copy_of(other),
        ensures
            self.wf() == other.wf(),
            self.spec_map() == other.spec_map(),
    {
        assert(self.spec_map() =~= other.spec_map());
    }
}

/// Assignment of charts to the slots of a view: at most one chart per slot.
#[derive(Debug, PartialEq, Eq)]
pub struct SlotAssignments {
    list: SlotList,
}

impl SlotAssignments {
    /// Well-formedness: no slot occurs twice. Every assignment holds it.
    #[verifier::type_invariant]
    pub closed spec fn wf(self) -> bool {
        self.list.wf()
    }

    /// The assignments as a map from slot text to chart.
    pub closed spec fn spec_map(self) -> Map<Seq<char>, InstanceId> {
        self.list.spec_map()
    }

    /// Whether no slot occurs twice.
    pub fn is_well_formed(&self) -> (r: bool)
        ensures
            r == self.wf(),
    {
        self.list.is_well_formed()
    }

    pub fn new() -> (r: Self)
        ensures
            r.wf(),
            r.spec_map() =~= Map::<Seq<char>, InstanceId>::empty(),
    {
        SlotAssignments { list: SlotList::new() }
    }

    /// The chart in the slot whose key sorts first, as a sorted map yields it first; none when
    /// no slot is assigned.
    pub fn first_by_slot(&self) -> (r: Option<InstanceId>)
        ensures
            self.wf(),
            r == first_slot_chart(self.spec_map()),
            r is None <==> self.spec_map().dom() =~= Set::<Seq<char>>::empty(),
    {
        proof { use_type_invariant(self); }
        self.list.first_by_slot()
    }

    /// The chart assigned to `slot`, if any.
    pub fn get(&self, slot: &ChartSlotId) -> (r: Option<InstanceId>)
        ensures
            self.wf(),
            r == (if self.spec_map().dom().contains(slot@) {
                Some(self.spec_map()[slot@])
            } else {
                None::<InstanceId>
            }),
    {
        proof { use_type_invariant(self); }
        self.list.get(slot)
    }

    /// Assigns `chart` to `slot`, replacing any chart assigned to it.
    pub fn insert(&mut self, slot: ChartSlotId, chart: InstanceId)
        ensures
            final(self).wf(),
            final(self).spec_map() =~= old(self).spec_map().insert(slot@, chart),
    {
        proof { use_type_invariant(&*self); }
        let mut list = SlotList::new();
        core::mem::swap(&mut list, &mut self.list);
        list.insert(slot, chart);
        self.list = list;
    }

    /// Clears `slot`.
    pub fn remove(&mut self, slot: &ChartSlotId)
        ensures
            final(self).wf(),
            final(self).spec_map() =~= old(self).spec_map().remove(slot@),
    {
        proof { use_type_invariant(&*self); }
        let mut list = SlotList::new();
        core::mem::swap(&mut list, &mut self.list);
        list.remove(slot);
        self.list = list;
    }
}

impl SlotAssignments {
    /// The slots that hold `chart`.
    pub fn slots_of(&self, chart: InstanceId) -> (r: Vec<ChartSlotId>)
        ensures
            self.wf(),
            forall|k: Seq<char>| #[trigger] lists_text(r@, k) <==> (
            self.spec_map().dom().contains(k) && self.spec_map()[k] == chart),
    {
        proof { use_type_invariant(self); }
        self.list.slots_of(chart)
    }

    /// A copy holds the same assignments and is well formed exactly when the original is.
    pub proof fn lemma_copy_of(self, other: Self)
        requires
            self.copy_of(other),
        ensures
            self.wf() == other.wf(),
            self.spec_map() == other.spec_map(),
    {
        self.list.lemma_copy_of(other.list);
    }
}

impl DeepCopy for SlotAssignments {
    closed spec fn copy_of(self, other: Self) -> bool {
        self.list.copy_of(other.list)
    }

    fn deep_copy(&self) -> (r: Self) {
        proof { use_type_invariant(self); }
        let list = self.list.deep_copy();
        proof { list.lemma_copy_of(self.list); }
        SlotAssignments { list }
    }
}

} // verus!
