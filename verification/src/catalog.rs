use vstd::prelude::*;

use std::collections::BTreeMap;

use crate::chart::{ChartDefinition, ChartRecord};
use crate::ids::{ResourceId, Revision};
use crate::resource::{AspectSet, CanonicalResource, ResourceBinding, ResourceEnvelope};
use crate::workspace::Workspace;

verus! {

broadcast use vstd::laws_cmp::group_laws_cmp;

/// The canonical resources known to the application: every revision seen, keyed by identity and
/// revision, and which revision of each identity is current.
#[derive(Debug)]
pub struct Catalog {
    history: BTreeMap<(u128, u64), CanonicalResource>,
    heads: BTreeMap<u128, u64>,
    order: Vec<u128>,
}

/// The values of `s` increase strictly.
pub open spec fn increasing(s: Seq<u128>) -> bool {
    forall|i: int, j: int| 0 <= i < j < s.len() ==> s[i] < s[j]
}

/// `v` increases strictly and holds `x`: the position where `x` goes, shifting what follows.
pub fn insert_increasing(v: &mut Vec<u128>, x: u128)
    requires
        increasing(old(v)@),
    ensures
        increasing(final(v)@),
        forall|y: u128| #[trigger] final(v)@.contains(y) <==> (old(v)@.contains(y) || y == x),
{
    let mut i: usize = 0;
    while i < v.len() && v[i] < x
        invariant
            v@ == old(v)@,
            i <= v@.len(),
            forall|j: int| 0 <= j < i ==> v@[j] < x,
        decreases v@.len() - i,
    {
        i += 1;
    }
    if i < v.len() && v[i] == x {
        assert(v@[i as int] == x);
        return;
    }
    let ghost before = v@;
    v.insert(i, x);
    proof {
        assert forall|y: u128| #[trigger] v@.contains(y) <==> (before.contains(y) || y == x) by {
            if v@.contains(y) {
                let k = choose|k: int| 0 <= k < v@.len() && v@[k] == y;
                if k < i {
                    assert(before[k] == y);
                } else if k > i {
                    assert(before[k - 1] == y);
                }
            }
            if before.contains(y) {
                let k = choose|k: int| 0 <= k < before.len() && before[k] == y;
                if k < i {
                    assert(v@[k] == y);
                } else {
                    assert(v@[k + 1] == y);
                }
            }
            if y == x {
                assert(v@[i as int] == x);
            }
        }
    }
}

impl Catalog {
    /// The revisions seen, by identity and revision.
    pub closed spec fn spec_history(self) -> Map<(u128, u64), CanonicalResource> {
        self.history@
    }

    /// The current revision of each identity.
    pub closed spec fn spec_heads(self) -> Map<u128, u64> {
        self.heads@
    }

    /// The identities with a current revision, in increasing order.
    pub closed spec fn spec_order(self) -> Seq<u128> {
        self.order@
    }

    /// Every entry is stored under its own identity and revision, and every current revision
    /// has been seen. Every catalog holds it.
    #[verifier::type_invariant]
    pub open spec fn wf(self) -> bool {
        &&& forall|k: (u128, u64)| #[trigger] self.spec_history().contains_key(k) ==> (
            self.spec_history()[k].spec_id()@ == k.0 && self.spec_history()[k].spec_revision()@ == k.1)
        &&& forall|id: u128| #[trigger] self.spec_heads().contains_key(id) ==> self.spec_history().contains_key((id, self.spec_heads()[id]))
        &&& increasing(self.spec_order())
        &&& forall|id: u128| #[trigger] self.spec_heads().contains_key(id) <==> self.spec_order().contains(id)
    }

    /// The current resource of an identity.
    pub open spec fn spec_current(self, id: u128) -> Option<CanonicalResource> {
        if self.spec_heads().contains_key(id) {
            Some(self.spec_history()[(id, self.spec_heads()[id])])
        } else {
            None
        }
    }

    pub fn new() -> (r: Self)
        ensures
            r.wf(),
            r.spec_history() == Map::<(u128, u64), CanonicalResource>::empty(),
            r.spec_heads() == Map::<u128, u64>::empty(),
    {
        Catalog { history: BTreeMap::new(), heads: BTreeMap::new(), order: Vec::new() }
    }

    /// Records `resource` as a seen revision and as the current revision of its identity.
    pub fn insert_current(&mut self, resource: CanonicalResource)
        ensures
            final(self).wf(),
            final(self).spec_history() == old(self).spec_history().insert((resource.spec_id()@, resource.spec_revision()@), resource),
            final(self).spec_heads() == old(self).spec_heads().insert(resource.spec_id()@, resource.spec_revision()@),
    {
        proof {
            use_type_invariant(&*self);
        }
        let mut taken = Catalog::new();
        core::mem::swap(&mut taken, self);
        proof {
            use_type_invariant(&taken);
        }
        let ghost (h0, c0, o0) = (taken.spec_history(), taken.spec_heads(), taken.spec_order());
        let Catalog { mut history, mut heads, mut order } = taken;
        let id = resource.id().as_u128();
        let revision = resource.revision().get();
        history.insert((id, revision), resource);
        heads.insert(id, revision);
        insert_increasing(&mut order, id);
        proof {
            assert forall|i: u128| #[trigger] heads@.contains_key(i) <==> order@.contains(i) by {
                if i != id {
                    assert(c0.contains_key(i) <==> o0.contains(i));
                }
            }
            assert forall|k: (u128, u64)| #[trigger] history@.contains_key(k) implies (
                history@[k].spec_id()@ == k.0 && history@[k].spec_revision()@ == k.1) by {
                if k != (id, revision) {
                    assert(h0.contains_key(k));
                }
            }
            assert forall|i: u128| #[trigger] heads@.contains_key(i) implies history@.contains_key((i, heads@[i])) by {
                if i != id {
                    assert(c0.contains_key(i));
                    assert(h0.contains_key((i, c0[i])));
                }
            }
        }
        *self = Catalog { history, heads, order };
    }

    /// Records `resource` as a seen revision without changing which revision is current.
    pub fn insert_history(&mut self, resource: CanonicalResource)
        ensures
            final(self).wf(),
            final(self).spec_history() == old(self).spec_history().insert((resource.spec_id()@, resource.spec_revision()@), resource),
            final(self).spec_heads() == old(self).spec_heads(),
    {
        proof {
            use_type_invariant(&*self);
        }
        let mut taken = Catalog::new();
        core::mem::swap(&mut taken, self);
        proof {
            use_type_invariant(&taken);
        }
        let ghost (h0, c0) = (taken.spec_history(), taken.spec_heads());
        let Catalog { mut history, heads, order } = taken;
        let id = resource.id().as_u128();
        let revision = resource.revision().get();
        history.insert((id, revision), resource);
        proof {
            assert forall|k: (u128, u64)| #[trigger] history@.contains_key(k) implies (
                history@[k].spec_id()@ == k.0 && history@[k].spec_revision()@ == k.1) by {
                if k != (id, revision) {
                    assert(h0.contains_key(k));
                }
            }
            assert forall|i: u128| #[trigger] heads@.contains_key(i) implies history@.contains_key((i, heads@[i])) by {
                assert(c0.contains_key(i));
                assert(h0.contains_key((i, heads@[i])));
            }
        }
        *self = Catalog { history, heads, order };
    }

    /// The identities with a current revision, in increasing order.
    pub fn order_ids(&self) -> (r: Vec<u128>)
        ensures
            r@ == self.spec_order(),
    {
        let mut out: Vec<u128> = Vec::new();
        let mut i: usize = 0;
        while i < self.order.len()
            invariant
                i <= self.order@.len(),
                out@ =~= self.order@.subrange(0, i as int),
            decreases self.order@.len() - i,
        {
            out.push(self.order[i]);
            i += 1;
        }
        assert(out@ =~= self.order@);
        out
    }

    /// The current resource of `id`.
    pub fn current(&self, id: ResourceId) -> (r: Option<&CanonicalResource>)
        ensures
            match self.spec_current(id@) {
                Some(c) => r matches Some(x) && *x == c,
                None => r is None,
            },
    {
        proof {
            use_type_invariant(self);
        }
        match self.heads.get(&id.0) {
            Some(revision) => self.history.get(&(id.0, *revision)),
            None => None,
        }
    }

    /// The revision `revision` of `id`, if it has been seen.
    pub fn revision(&self, id: ResourceId, revision: Revision) -> (r: Option<&CanonicalResource>)
        ensures
            match self.spec_history().contains_key((id@, revision@)) {
                true => r matches Some(x) && *x == self.spec_history()[(id@, revision@)],
                false => r is None,
            },
    {
        self.history.get(&(id.0, revision.get()))
    }

    /// Whether the revision `revision` of `id` has been seen.
    pub fn has_revision(&self, id: ResourceId, revision: Revision) -> (r: bool)
        ensures
            r == self.spec_history().contains_key((id@, revision@)),
    {
        self.history.contains_key(&(id.0, revision.get()))
    }

    /// The current Aspect Set of `id`; none if the current resource is of another kind.
    pub fn aspect_set(&self, id: ResourceId) -> (r: Option<&ResourceEnvelope<AspectSet>>)
        ensures
            match self.spec_current(id@) {
                Some(CanonicalResource::AspectSet(e)) => r matches Some(x) && *x == e,
                _ => r is None,
            },
    {
        match self.current(id) {
            Some(CanonicalResource::AspectSet(value)) => Some(value),
            _ => None,
        }
    }

    /// The current chart definition of `id`; none if the current resource is of another kind.
    pub fn chart_definition(&self, id: ResourceId) -> (r: Option<&ResourceEnvelope<ChartDefinition>>)
        ensures
            match self.spec_current(id@) {
                Some(CanonicalResource::ChartDefinition(e)) => r matches Some(x) && *x == e,
                _ => r is None,
            },
    {
        match self.current(id) {
            Some(CanonicalResource::ChartDefinition(value)) => Some(value),
            _ => None,
        }
    }

    /// The current chart record of `id`; none if the current resource is of another kind.
    pub fn chart_record(&self, id: ResourceId) -> (r: Option<&ResourceEnvelope<ChartRecord>>)
        ensures
            match self.spec_current(id@) {
                Some(CanonicalResource::ChartRecord(e)) => r matches Some(x) && *x == e,
                _ => r is None,
            },
    {
        match self.current(id) {
            Some(CanonicalResource::ChartRecord(value)) => Some(value),
            _ => None,
        }
    }

    /// The current workspace of `id`; none if the current resource is of another kind.
    pub fn workspace(&self, id: ResourceId) -> (r: Option<&ResourceEnvelope<Workspace>>)
        ensures
            match self.spec_current(id@) {
                Some(CanonicalResource::Workspace(e)) => r matches Some(x) && *x == e,
                _ => r is None,
            },
    {
        match self.current(id) {
            Some(CanonicalResource::Workspace(value)) => Some(value),
            _ => None,
        }
    }
}

/// The pin of a binding: its identity and revision where it is pinned to one.
pub open spec fn binding_pins<T>(binding: ResourceBinding<T>) -> Set<(u128, u64)> {
    match binding {
        ResourceBinding::Pinned { id, revision } => set![(id@, revision@)],
        _ => Set::empty(),
    }
}

/// The pinned revisions a workspace refers to: those of its profile and of its views' documents.
pub open spec fn workspace_pins(w: Workspace) -> Set<(u128, u64)> {
    binding_pins(w.profile.displayed_points) + binding_pins(w.profile.aspected_points)
        + binding_pins(w.profile.transit_points) + binding_pins(w.profile.aspects)
        + binding_pins(w.profile.analysis) + binding_pins(w.profile.theme) + binding_pins(w.profile.wheel)
        + Set::new(|p: (u128, u64)| exists|i: int| 0 <= i < w.views@.len() && #[trigger] binding_pins(w.views@[i].document).contains(p))
}

/// A pin as a pair of plain values.
pub open spec fn pin_key(pin: (ResourceId, Revision)) -> (u128, u64) {
    (pin.0@, pin.1@)
}

/// Pins ordered by identity, then by revision.
pub open spec fn pin_less(a: (u128, u64), b: (u128, u64)) -> bool {
    a.0 < b.0 || (a.0 == b.0 && a.1 < b.1)
}

/// The pins of `s` increase strictly.
pub open spec fn pins_increasing(s: Seq<(ResourceId, Revision)>) -> bool {
    forall|i: int, j: int| 0 <= i < j < s.len() ==> pin_less(pin_key(s[i]), pin_key(s[j]))
}

/// Some pin of `s` is `p`.
pub open spec fn lists_pin(s: Seq<(ResourceId, Revision)>, p: (u128, u64)) -> bool {
    exists|i: int| 0 <= i < s.len() && pin_key(s[i]) == p
}

/// Adds the pin of `binding`, if it has one, keeping the pins ordered and distinct.
fn push_pin<T>(binding: &ResourceBinding<T>, out: &mut Vec<(ResourceId, Revision)>)
    requires
        pins_increasing(old(out)@),
    ensures
        pins_increasing(final(out)@),
        forall|p: (u128, u64)| #[trigger] lists_pin(final(out)@, p) <==> (lists_pin(old(out)@, p) || binding_pins(*binding).contains(p)),
{
    let (id, revision) = match binding {
        ResourceBinding::Pinned { id, revision } => (*id, *revision),
        _ => return,
    };
    let key = (id.as_u128(), revision.get());
    let mut i: usize = 0;
    while i < out.len() && (out[i].0.as_u128() < key.0 || (out[i].0.as_u128() == key.0 && out[i].1.get() < key.1))
        invariant
            out@ == old(out)@,
            i <= out@.len(),
            forall|j: int| 0 <= j < i ==> pin_less(#[trigger] pin_key(out@[j]), key),
        decreases out@.len() - i,
    {
        i += 1;
    }
    if i < out.len() && out[i].0.as_u128() == key.0 && out[i].1.get() == key.1 {
        proof {
            assert(pin_key(out@[i as int]) == key);
            assert forall|p: (u128, u64)| #[trigger] lists_pin(out@, p) <==> (lists_pin(old(out)@, p) || binding_pins(*binding).contains(p)) by {
                if binding_pins(*binding).contains(p) {
                    assert(p == key);
                }
            }
        }
        return;
    }
    let ghost before = out@;
    out.insert(i, (id, revision));
    proof {
        assert forall|a: int, b: int| 0 <= a < b < out@.len() implies pin_less(pin_key(out@[a]), pin_key(out@[b])) by {
            if b < i {
            } else if a < i && b == i {
            } else if a < i && b > i {
                assert(pin_key(out@[b]) == pin_key(before[b - 1]));
                if i < before.len() {
                    assert(!pin_less(pin_key(before[i as int]), key));
                    assert(pin_key(before[i as int]) != key);
                }
            } else if a == i {
                assert(pin_key(out@[b]) == pin_key(before[b - 1]));
                assert(!pin_less(pin_key(before[i as int]), key));
                assert(pin_key(before[i as int]) != key);
                if b - 1 > i {
                    assert(pin_less(pin_key(before[i as int]), pin_key(before[b - 1])));
                }
            } else {
                assert(pin_key(out@[a]) == pin_key(before[a - 1]));
                assert(pin_key(out@[b]) == pin_key(before[b - 1]));
            }
        }
        assert forall|p: (u128, u64)| #[trigger] lists_pin(out@, p) <==> (lists_pin(before, p) || binding_pins(*binding).contains(p)) by {
            if lists_pin(out@, p) {
                let k = choose|k: int| 0 <= k < out@.len() && pin_key(out@[k]) == p;
                if k < i {
                    assert(pin_key(before[k]) == p);
                } else if k > i {
                    assert(pin_key(before[k - 1]) == p);
                }
            }
            if lists_pin(before, p) {
                let k = choose|k: int| 0 <= k < before.len() && pin_key(before[k]) == p;
                if k < i {
                    assert(pin_key(out@[k]) == p);
                } else {
                    assert(pin_key(out@[k + 1]) == p);
                }
            }
            if binding_pins(*binding).contains(p) {
                assert(pin_key(out@[i as int]) == p);
            }
        }
    }
}

impl Catalog {
    /// Whether the current resource of `id` is a workspace that pins `p`.
    pub open spec fn pins_through(self, id: u128, p: (u128, u64)) -> bool {
        match self.spec_current(id) {
            Some(CanonicalResource::Workspace(e)) => workspace_pins(e.payload).contains(p),
            _ => false,
        }
    }

    /// Every revision that the current workspaces pin.
    pub open spec fn spec_pins(self) -> Set<(u128, u64)> {
        Set::new(|p: (u128, u64)| exists|id: u128| #[trigger] self.spec_heads().contains_key(id) && self.pins_through(id, p))
    }

    /// The revisions that the current workspaces pin, ordered by identity and revision, each
    /// once.
    pub fn pinned_references(&self) -> (r: Vec<(ResourceId, Revision)>)
        ensures
            pins_increasing(r@),
            forall|p: (u128, u64)| lists_pin(r@, p) <==> self.spec_pins().contains(p),
    {
        proof {
            use_type_invariant(self);
        }
        let mut out: Vec<(ResourceId, Revision)> = Vec::new();
        let mut k: usize = 0;
        while k < self.order.len()
            invariant
                self.wf(),
                k <= self.order@.len(),
                pins_increasing(out@),
                forall|p: (u128, u64)| #[trigger] lists_pin(out@, p) <==> exists|m: int| 0 <= m < k
                    && self.pins_through(self.order@[m], p),
            decreases self.order@.len() - k,
        {
            let id = self.order[k];
            let ghost before = out@;
            assert(self.spec_heads().contains_key(id));
            match self.current(ResourceId::from_u128(id)) {
                Some(CanonicalResource::Workspace(envelope)) => {
                    let w = &envelope.payload;
                    push_pin(&w.profile.displayed_points, &mut out);
                    push_pin(&w.profile.aspected_points, &mut out);
                    push_pin(&w.profile.transit_points, &mut out);
                    push_pin(&w.profile.aspects, &mut out);
                    push_pin(&w.profile.analysis, &mut out);
                    push_pin(&w.profile.theme, &mut out);
                    push_pin(&w.profile.wheel, &mut out);
                    let ghost profile_done = out@;
                    let mut v: usize = 0;
                    while v < w.views.len()
                        invariant
                            v <= w.views@.len(),
                            pins_increasing(out@),
                            forall|p: (u128, u64)| #[trigger] lists_pin(out@, p) <==> (lists_pin(profile_done, p)
                                || exists|i: int| 0 <= i < v && #[trigger] binding_pins(w.views@[i].document).contains(p)),
                        decreases w.views@.len() - v,
                    {
                        push_pin(&w.views[v].document, &mut out);
                        v += 1;
                    }
                    proof {
                        assert forall|p: (u128, u64)| #[trigger] lists_pin(out@, p) <==> (lists_pin(before, p)
                            || workspace_pins(*w).contains(p)) by {
                        }
                    }
                },
                _ => {},
            }
            proof {
                assert forall|p: (u128, u64)| #[trigger] lists_pin(out@, p) <==> exists|m: int| 0 <= m < k + 1
                    && self.pins_through(self.order@[m], p) by {
                    if lists_pin(out@, p) && !lists_pin(before, p) {
                        assert(self.order@[k as int] == id);
                    }
                }
            }
            k += 1;
        }
        proof {
            assert forall|p: (u128, u64)| lists_pin(out@, p) <==> self.spec_pins().contains(p) by {
                if self.spec_pins().contains(p) {
                    let id = choose|id: u128| #[trigger] self.spec_heads().contains_key(id) && self.pins_through(id, p);
                    assert(self.spec_order().contains(id));
                    let m = choose|m: int| 0 <= m < self.order@.len() && self.order@[m] == id;
                    assert(self.order@[m] == id);
                }
                if lists_pin(out@, p) {
                    let m = choose|m: int| 0 <= m < self.order@.len()
                        && self.pins_through(self.order@[m], p);
                    assert(self.spec_order().contains(self.order@[m]));
                    assert(self.spec_heads().contains_key(self.order@[m]));
                }
            }
        }
        out
    }
}

/// When a resource was last modified, in Unix milliseconds.
pub fn resource_modified_at(resource: &CanonicalResource) -> (r: i64)
    ensures
        r == resource.spec_modified_at()@,
{
    resource.modified_at().unix_millis()
}

/// The revisions seen after recording `resources` in order as current.
pub open spec fn history_after(resources: Seq<CanonicalResource>) -> Map<(u128, u64), CanonicalResource>
    decreases resources.len(),
{
    if resources.len() == 0 {
        Map::empty()
    } else {
        let r = resources.last();
        history_after(resources.drop_last()).insert((r.spec_id()@, r.spec_revision()@), r)
    }
}

/// The current revisions after recording `resources` in order as current.
pub open spec fn heads_after(resources: Seq<CanonicalResource>) -> Map<u128, u64>
    decreases resources.len(),
{
    if resources.len() == 0 {
        Map::empty()
    } else {
        let r = resources.last();
        heads_after(resources.drop_last()).insert(r.spec_id()@, r.spec_revision()@)
    }
}

/// The latest modification time among `resources`, and at least 1.
pub open spec fn latest_modified(resources: Seq<CanonicalResource>) -> int
    decreases resources.len(),
{
    if resources.len() == 0 {
        1
    } else {
        let rest = latest_modified(resources.drop_last());
        let t = resources.last().spec_modified_at()@ as int;
        if t > rest { t } else { rest }
    }
}

impl Catalog {
    /// The catalog of a listing of canonical resources, each recorded as current in order, and
    /// the time to stamp the next write with: one past the latest modification, saturating.
    pub fn from_resources(resources: Vec<CanonicalResource>) -> (r: (Catalog, i64))
        ensures
            r.0.wf(),
            r.0.spec_history() == history_after(resources@),
            r.0.spec_heads() == heads_after(resources@),
            r.1 == (if latest_modified(resources@) < i64::MAX { latest_modified(resources@) + 1 } else { i64::MAX as int }),
    {
        let mut catalog = Catalog::new();
        let mut latest: i64 = 1;
        let mut remaining = resources;
        let ghost all = remaining@;
        let ghost mut consumed: Seq<CanonicalResource> = Seq::empty();
        while remaining.len() > 0
            invariant
                all == consumed + remaining@,
                catalog.wf(),
                catalog.spec_history() == history_after(consumed),
                catalog.spec_heads() == heads_after(consumed),
                latest == latest_modified(consumed),
            decreases remaining@.len(),
        {
            let resource = remaining.remove(0);
            let modified = resource_modified_at(&resource);
            if modified > latest {
                latest = modified;
            }
            let ghost before = consumed;
            proof {
                consumed = consumed.push(resource);
                assert(consumed.drop_last() =~= before);
                assert(all =~= consumed + remaining@);
            }
            catalog.insert_current(resource);
        }
        proof {
            assert(consumed =~= all);
        }
        let next = if latest < i64::MAX { latest + 1 } else { i64::MAX };
        (catalog, next)
    }
}

} // verus!
