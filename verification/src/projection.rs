use vstd::prelude::*;

use crate::binding::{
    followed_envelope, pinned_envelope, resolution_message, resolve_typed_binding, spec_resolve, BoundPayload,
};
use crate::catalog::Catalog;
use crate::chart::{ChartDefinition, ChartRecord, ChartSource};
use crate::copy::copy_vec;
use crate::ids::{uuid_text, InstanceId, ResourceId, Revision, ViewInstanceId};
use crate::intents::{failed_with, find_view};
use crate::read_model::{
    ActiveChartInspector, AppError, AppErrorKind, AppNotice, AppReadModel, AspectDraftValue,
    AspectSetDraftReadModel, AspectSetSummary, BindingMode, ChartPersistence, ChartSlotAssignment,
    InspectorReadModel, LibraryChartSummary, LibraryReadModel, OpenChartSummary, ResourceBindingSummary,
    ResourceEditorReadModel, ViewComputationState, ViewReadModel, ViewSummary, WorkspaceReadModel,
};
use crate::resource::{AspectDefinition, CanonicalResource, ResourceBinding, ResourceEnvelope};
use crate::session::{
    concat3, conjunction, is_first_aspect, lacks_aspect, not_found, not_found_message, AspectSetEditor, Session, ViewRuntime,
};
use crate::slots::SlotAssignments;
use crate::decimal::{decimal_text, format_decimal, format_signed, signed_text};
use crate::view::{ChartSlot, ViewDocument, ViewInstance};
use crate::workspace::{Workspace, WorkspaceChart};
use crate::workspace_commands::is_first_view;

verus! {

/// The English abbreviation of a month; `?` outside 1 to 12.
pub open spec fn month_abbreviation(month: int) -> Seq<char> {
    if month == 1 {
        "Jan"@
    } else if month == 2 {
        "Feb"@
    } else if month == 3 {
        "Mar"@
    } else if month == 4 {
        "Apr"@
    } else if month == 5 {
        "May"@
    } else if month == 6 {
        "Jun"@
    } else if month == 7 {
        "Jul"@
    } else if month == 8 {
        "Aug"@
    } else if month == 9 {
        "Sep"@
    } else if month == 10 {
        "Oct"@
    } else if month == 11 {
        "Nov"@
    } else if month == 12 {
        "Dec"@
    } else {
        "?"@
    }
}

fn month_text(month: u8) -> (r: &'static str)
    ensures
        r@ == month_abbreviation(month as int),
{
    match month {
        1 => "Jan",
        2 => "Feb",
        3 => "Mar",
        4 => "Apr",
        5 => "May",
        6 => "Jun",
        7 => "Jul",
        8 => "Aug",
        9 => "Sep",
        10 => "Oct",
        11 => "Nov",
        12 => "Dec",
        _ => "?",
    }
}

/// How a chart record is described: its birth date and place, `Mon D, YYYY · Place`.
pub open spec fn subtitle_of(record: ResourceEnvelope<ChartRecord>) -> Seq<char> {
    let date = record.payload.time.civil_datetime.date;
    month_abbreviation(date.spec_month() as int) + " "@ + decimal_text(date.spec_day() as int) + ", "@
        + signed_text(date.spec_year() as int) + " · "@ + record.payload.location.display_name@
}

/// The subtitle of a chart record.
pub fn chart_subtitle(record: &ResourceEnvelope<ChartRecord>) -> (r: String)
    ensures
        r@ == subtitle_of(*record),
{
    let date = record.payload.time.civil_datetime.date;
    let mut text = month_text(date.month()).to_owned();
    text.append(" ");
    text.append(format_decimal(date.day() as u64).as_str());
    text.append(", ");
    text.append(format_signed(date.year()).as_str());
    text.append(" · ");
    text.append(record.payload.location.display_name.as_str());
    text
}

/// How a library chart definition is described: by its source record, or as derived.
pub open spec fn definition_subtitle(catalog: Catalog, definition: ChartDefinition) -> Seq<char> {
    match definition.source {
        ChartSource::Radix { record } => match catalog.spec_current(record@) {
            Some(CanonicalResource::ChartRecord(e)) => subtitle_of(e),
            _ => "Missing source record"@,
        },
        ChartSource::Derived { .. } => "Derived chart"@,
    }
}

fn definition_subtitle_text(catalog: &Catalog, definition: &ChartDefinition) -> (r: String)
    ensures
        r@ == definition_subtitle(*catalog, *definition),
{
    proof {
        use_type_invariant(catalog);
    }
    match &definition.source {
        ChartSource::Radix { record } => match catalog.chart_record(*record) {
            Some(envelope) => chart_subtitle(envelope),
            None => "Missing source record".to_owned(),
        },
        ChartSource::Derived { .. } => "Derived chart".to_owned(),
    }
}

/// The identities among `ids` whose current resource is a chart definition, in order.
pub open spec fn definition_ids(catalog: Catalog, ids: Seq<u128>) -> Seq<u128>
    decreases ids.len(),
{
    if ids.len() == 0 {
        ids
    } else {
        let rest = definition_ids(catalog, ids.drop_last());
        if catalog.spec_current(ids.last()) matches Some(CanonicalResource::ChartDefinition(_)) {
            rest.push(ids.last())
        } else {
            rest
        }
    }
}

/// `summary` lists the chart definition `id` of the catalog.
pub open spec fn lists_definition(catalog: Catalog, id: u128, summary: LibraryChartSummary) -> bool {
    &&& summary.resource_id@ == id
    &&& match catalog.spec_current(id) {
        Some(CanonicalResource::ChartDefinition(e)) => summary.title@ == e.title@
            && summary.subtitle@ == definition_subtitle(catalog, e.payload),
        _ => false,
    }
}

/// The identities among `ids` whose current resource is an Aspect Set, in order.
pub open spec fn aspect_set_ids(catalog: Catalog, ids: Seq<u128>) -> Seq<u128>
    decreases ids.len(),
{
    if ids.len() == 0 {
        ids
    } else {
        let rest = aspect_set_ids(catalog, ids.drop_last());
        if catalog.spec_current(ids.last()) matches Some(CanonicalResource::AspectSet(_)) {
            rest.push(ids.last())
        } else {
            rest
        }
    }
}

/// The first conjunction of a list of aspects.
pub open spec fn first_conjunction(aspects: Seq<AspectDefinition>) -> AspectDefinition {
    aspects[choose|i: int| is_first_aspect(aspects, "conjunction"@, i)]
}

/// Whether some current Aspect Set among `ids` has no conjunction.
pub open spec fn some_set_lacks_conjunction(catalog: Catalog, ids: Seq<u128>) -> bool {
    exists|i: int| 0 <= i < ids.len() && match catalog.spec_current(#[trigger] ids[i]) {
        Some(CanonicalResource::AspectSet(e)) => lacks_aspect(e.payload.aspects@, "conjunction"@),
        _ => false,
    }
}

/// `summary` lists the Aspect Set `id` of the catalog with its conjunction orb.
pub open spec fn lists_aspect_set(catalog: Catalog, id: u128, summary: AspectSetSummary) -> bool {
    &&& summary.resource_id@ == id
    &&& match catalog.spec_current(id) {
        Some(CanonicalResource::AspectSet(e)) => summary.title@ == e.title@ && summary.revision == e.revision
            && summary.conjunction_orb == first_conjunction(e.payload.aspects@).orbs.maximum,
        _ => false,
    }
}

/// The title of `id` at `revision`: the current revision where it matches or no revision is
/// asked for, and otherwise the revision seen.
pub open spec fn title_of(catalog: Catalog, id: ResourceId, revision: Option<Revision>) -> Option<Seq<char>> {
    let current = catalog.spec_current(id@);
    if current is Some && (revision is None || revision == Some(current->0.spec_revision())) {
        Some(current->0.spec_title())
    } else {
        match revision {
            Some(rev) => if catalog.spec_history().contains_key((id@, rev@)) {
                Some(catalog.spec_history()[(id@, rev@)].spec_title())
            } else {
                None
            },
            None => None,
        }
    }
}

/// The outcome owed when looking up a title.
pub open spec fn titled(r: Result<String, AppError>, title: Option<Seq<char>>, id: ResourceId) -> bool {
    match title {
        Some(t) => r matches Ok(s) && s@ == t,
        None => failed_with(r, AppErrorKind::NotFound, not_found_message("bound resource"@, id)),
    }
}

/// The title of a bound resource.
pub fn resource_title(catalog: &Catalog, id: ResourceId, revision: Option<Revision>) -> (r: Result<String, AppError>)
    ensures
        titled(r, title_of(*catalog, id, revision), id),
{
    proof {
        use_type_invariant(catalog);
    }
    match catalog.current(id) {
        Some(current) => {
            let matches_revision = match revision {
                None => true,
                Some(expected) => current.revision() == expected,
            };
            if matches_revision {
                return Ok(current.title().to_owned());
            }
        },
        None => {},
    }
    match revision {
        Some(expected) => match catalog.revision(id, expected) {
            Some(seen) => Ok(seen.title().to_owned()),
            None => Err(not_found("bound resource", id)),
        },
        None => Err(not_found("bound resource", id)),
    }
}

/// The title a view is shown with: the title of its document, or `Single wheel` for an inline
/// document.
pub open spec fn view_title_of(view: ViewInstance, catalog: Catalog) -> Option<Seq<char>> {
    match view.document {
        ResourceBinding::Inline { .. } => Some("Single wheel"@),
        ResourceBinding::Follow { id } => title_of(catalog, id, None),
        ResourceBinding::Pinned { id, revision } => title_of(catalog, id, Some(revision)),
    }
}

/// The identity a view's title is looked up under.
pub open spec fn view_document_id(view: ViewInstance) -> ResourceId {
    match view.document {
        ResourceBinding::Follow { id } => id,
        ResourceBinding::Pinned { id, .. } => id,
        ResourceBinding::Inline { .. } => ResourceId(0),
    }
}

pub fn view_title(view: &ViewInstance, catalog: &Catalog) -> (r: Result<String, AppError>)
    ensures
        titled(r, view_title_of(*view, *catalog), view_document_id(*view)),
{
    proof {
        use_type_invariant(catalog);
    }
    match &view.document {
        ResourceBinding::Inline { .. } => Ok("Single wheel".to_owned()),
        ResourceBinding::Follow { id } => resource_title(catalog, *id, None),
        ResourceBinding::Pinned { id, revision } => resource_title(catalog, *id, Some(*revision)),
    }
}

/// The summary owed for an open chart.
pub open spec fn open_chart_outcome(catalog: Catalog, chart: WorkspaceChart, r: Result<OpenChartSummary, AppError>) -> bool {
    match chart {
        WorkspaceChart::Saved { instance_id, definition } => match catalog.spec_current(definition@) {
            Some(CanonicalResource::ChartDefinition(e)) => r matches Ok(s) && s.instance_id == instance_id
                && s.title@ == e.title@ && s.subtitle@ == definition_subtitle(catalog, e.payload)
                && s.persistence == (ChartPersistence::Saved { resource_id: definition }),
            _ => failed_with(r, AppErrorKind::NotFound, not_found_message("ChartDefinition"@, definition)),
        },
        WorkspaceChart::Ephemeral { instance_id, definition } => r matches Ok(s) && s.instance_id == instance_id
            && s.title@ == "Unsaved chart"@ && s.subtitle@ == (if definition.source is Radix {
                "Ephemeral radix definition"@
            } else {
                "Ephemeral derived definition"@
            }) && s.persistence == ChartPersistence::Ephemeral,
    }
}

/// How an open chart is listed.
pub fn open_chart_summary(catalog: &Catalog, chart: &WorkspaceChart) -> (r: Result<OpenChartSummary, AppError>)
    ensures
        open_chart_outcome(*catalog, *chart, r),
{
    proof {
        use_type_invariant(catalog);
    }
    match chart {
        WorkspaceChart::Saved { instance_id, definition } => {
            let envelope = match catalog.chart_definition(*definition) {
                Some(envelope) => envelope,
                None => return Err(not_found("ChartDefinition", *definition)),
            };
            Ok(OpenChartSummary {
                instance_id: *instance_id,
                title: envelope.title.clone(),
                subtitle: definition_subtitle_text(catalog, &envelope.payload),
                persistence: ChartPersistence::Saved { resource_id: *definition },
            })
        },
        WorkspaceChart::Ephemeral { instance_id, definition } => Ok(OpenChartSummary {
            instance_id: *instance_id,
            title: "Unsaved chart".to_owned(),
            subtitle: match definition.source {
                ChartSource::Radix { .. } => "Ephemeral radix definition".to_owned(),
                ChartSource::Derived { .. } => "Ephemeral derived definition".to_owned(),
            },
            persistence: ChartPersistence::Ephemeral,
        }),
    }
}

impl Catalog {
    /// The chart definitions of the library, in identity order.
    pub fn library_charts(&self) -> (r: Vec<LibraryChartSummary>)
        ensures
            r@.len() == definition_ids(*self, self.spec_order()).len(),
            forall|i: int| 0 <= i < r@.len() ==> lists_definition(*self, definition_ids(*self, self.spec_order())[i], #[trigger] r@[i]),
    {
        proof {
            use_type_invariant(self);
        }
        let ids = self.order_ids();
        let mut out: Vec<LibraryChartSummary> = Vec::new();
        let mut k: usize = 0;
        while k < ids.len()
            invariant
                self.wf(),
                ids@ == self.spec_order(),
                k <= ids@.len(),
                out@.len() == definition_ids(*self, ids@.subrange(0, k as int)).len(),
                forall|i: int| 0 <= i < out@.len() ==> lists_definition(*self, definition_ids(*self, ids@.subrange(0, k as int))[i], #[trigger] out@[i]),
            decreases ids@.len() - k,
        {
            let id = ids[k];
            let ghost prefix = ids@.subrange(0, k as int);
            assert(ids@.subrange(0, k + 1).drop_last() =~= prefix);
            match self.current(ResourceId::from_u128(id)) {
                Some(CanonicalResource::ChartDefinition(envelope)) => {
                    let summary = LibraryChartSummary {
                        resource_id: envelope.id,
                        title: envelope.title.clone(),
                        subtitle: definition_subtitle_text(self, &envelope.payload),
                    };
                    proof {
                        assert(self.spec_heads().contains_key(id)) by {
                            assert(self.spec_order()[k as int] == id);
                        }
                    }
                    out.push(summary);
                },
                _ => {},
            }
            k += 1;
        }
        assert(ids@.subrange(0, ids@.len() as int) =~= ids@);
        out
    }

    /// The Aspect Sets of the library with their conjunction orbs, in identity order; refused
    /// where one of them has no conjunction.
    pub fn aspect_set_summaries(&self) -> (r: Result<Vec<AspectSetSummary>, AppError>)
        ensures
            r is Err <==> some_set_lacks_conjunction(*self, self.spec_order()),
            r matches Err(e) ==> e.kind == AppErrorKind::NotFound && e.message@ == "Aspect Set has no conjunction definition"@,
            r matches Ok(v) ==> v@.len() == aspect_set_ids(*self, self.spec_order()).len()
                && forall|i: int| 0 <= i < v@.len() ==> lists_aspect_set(*self, aspect_set_ids(*self, self.spec_order())[i], #[trigger] v@[i]),
    {
        proof {
            use_type_invariant(self);
        }
        let ids = self.order_ids();
        let mut out: Vec<AspectSetSummary> = Vec::new();
        let mut k: usize = 0;
        while k < ids.len()
            invariant
                self.wf(),
                ids@ == self.spec_order(),
                k <= ids@.len(),
                !some_set_lacks_conjunction(*self, ids@.subrange(0, k as int)),
                out@.len() == aspect_set_ids(*self, ids@.subrange(0, k as int)).len(),
                forall|i: int| 0 <= i < out@.len() ==> lists_aspect_set(*self, aspect_set_ids(*self, ids@.subrange(0, k as int))[i], #[trigger] out@[i]),
            decreases ids@.len() - k,
        {
            let id = ids[k];
            let ghost prefix = ids@.subrange(0, k as int);
            let ghost next = ids@.subrange(0, k + 1);
            assert(next.drop_last() =~= prefix);
            assert(next[k as int] == id);
            match self.current(ResourceId::from_u128(id)) {
                Some(CanonicalResource::AspectSet(envelope)) => {
                    let orb = match conjunction(&envelope.payload) {
                        Ok(found) => found.orbs.maximum,
                        Err(error) => {
                            proof {
                                assert(ids@[k as int] == id);
                                assert(some_set_lacks_conjunction(*self, ids@));
                            }
                            return Err(error);
                        },
                    };
                    proof {
                        reveal_strlit("conjunction");
                        let w = choose|w: int| is_first_aspect(envelope.payload.aspects@, "conjunction"@, w)
                            && orb == envelope.payload.aspects@[w].orbs.maximum;
                        let c = choose|c: int| is_first_aspect(envelope.payload.aspects@, "conjunction"@, c);
                        assert(is_first_aspect(envelope.payload.aspects@, "conjunction"@, c));
                        assert(w == c);
                        assert(self.spec_heads().contains_key(id)) by {
                            assert(self.spec_order()[k as int] == id);
                        }
                    }
                    out.push(AspectSetSummary {
                        resource_id: envelope.id,
                        title: envelope.title.clone(),
                        revision: envelope.revision,
                        conjunction_orb: orb,
                    });
                },
                _ => {},
            }
            proof {
                assert forall|i: int| 0 <= i < next.len() implies !(match self.spec_current(#[trigger] next[i]) {
                    Some(CanonicalResource::AspectSet(e)) => lacks_aspect(e.payload.aspects@, "conjunction"@),
                    _ => false,
                }) by {
                    if i < k {
                        assert(next[i] == prefix[i]);
                    }
                }
            }
            k += 1;
        }
        assert(ids@.subrange(0, ids@.len() as int) =~= ids@);
        Ok(out)
    }
}

/// A binding summary as plain values: label, resource, its title, revision and mode.
pub type BindingItem = (Seq<char>, ResourceId, Seq<char>, Revision, BindingMode);

/// A binding summary as plain values.
pub open spec fn summary_item(s: ResourceBindingSummary) -> BindingItem {
    (s.label@, s.resource_id, s.resource_title@, s.revision, s.mode)
}

/// The resource and revision a bound binding resolves to, with how it binds; none inline or
/// where it does not resolve.
pub open spec fn bound_revision<T: BoundPayload>(binding: ResourceBinding<T>, catalog: Catalog) -> Option<(ResourceId, Revision, BindingMode)> {
    match binding {
        ResourceBinding::Inline { .. } => None,
        ResourceBinding::Follow { id } => match followed_envelope::<T>(catalog, id) {
            Some(e) => Some((id, e.revision, BindingMode::Follow)),
            None => None,
        },
        ResourceBinding::Pinned { id, revision } => match pinned_envelope::<T>(catalog, id, revision) {
            Some(_) => Some((id, revision, BindingMode::Pinned)),
            None => None,
        },
    }
}

/// The summaries owed for a binding labelled `label`: one for a binding that resolves to a
/// library resource, none for an inline value.
pub open spec fn summarized<T: BoundPayload>(label: Seq<char>, binding: ResourceBinding<T>, catalog: Catalog) -> Seq<BindingItem> {
    match bound_revision(binding, catalog) {
        Some((id, revision, mode)) => seq![(label, id, title_of(catalog, id, Some(revision))->0, revision, mode)],
        None => Seq::empty(),
    }
}

/// Why a binding cannot be summarized; none where it can.
pub open spec fn binding_failure<T: BoundPayload>(binding: ResourceBinding<T>, catalog: Catalog) -> Option<Seq<char>> {
    match spec_resolve(binding, catalog) {
        Err(e) => Some(resolution_message(e)),
        Ok(_) => None,
    }
}

/// A summary of a binding, labelled `label`: none for an inline value; refused where the bound
/// resource cannot be resolved.
pub fn binding_summary<T: BoundPayload>(label: &str, binding: &ResourceBinding<T>, catalog: &Catalog) -> (r: Result<
    Option<ResourceBindingSummary>,
    AppError,
>)
    ensures
        match binding_failure(*binding, *catalog) {
            Some(message) => failed_with(r, AppErrorKind::NotFound, message),
            None => r matches Ok(found) && match found {
                Some(summary) => seq![summary_item(summary)] == summarized(label@, *binding, *catalog),
                None => summarized(label@, *binding, *catalog) == Seq::<BindingItem>::empty(),
            },
        },
{
    proof {
        use_type_invariant(catalog);
    }
    let resolved = match resolve_typed_binding(binding, catalog) {
        Ok(resolved) => resolved,
        Err(error) => return Err(AppError { kind: AppErrorKind::NotFound, message: error.to_string() }),
    };
    let (id, revision, mode) = match binding {
        ResourceBinding::Inline { .. } => return Ok(None),
        ResourceBinding::Follow { id } => {
            let revision = match resolved.revision {
                Some(revision) => revision,
                None => return Ok(None),
            };
            (*id, revision, BindingMode::Follow)
        },
        ResourceBinding::Pinned { id, revision } => (*id, *revision, BindingMode::Pinned),
    };
    proof {
        match *binding {
            ResourceBinding::Follow { id } => {
                let c = catalog.spec_current(id@)->0;
                T::lemma_envelope_header(c);
            },
            ResourceBinding::Pinned { id, revision } => {
                if catalog.spec_current(id@) is Some {
                    T::lemma_envelope_header(catalog.spec_current(id@)->0);
                }
                T::lemma_envelope_header(catalog.spec_history()[(id@, revision@)]);
            },
            _ => {},
        }
    }
    let title = match resource_title(catalog, id, Some(revision)) {
        Ok(title) => title,
        Err(error) => return Err(error),
    };
    let summary = ResourceBindingSummary { label: label.to_owned(), resource_id: id, resource_title: title, revision, mode };
    proof {
        assert(seq![summary_item(summary)] =~= summarized(label@, *binding, *catalog));
    }
    Ok(Some(summary))
}

/// The editor's view of a draft: its resource, title, state and conjunction.
pub open spec fn editor_model_of(editor: AspectSetEditor, m: AspectSetDraftReadModel) -> bool {
    let c = first_conjunction(editor.draft.aspects@);
    &&& m.resource_id == editor.base.id
    &&& m.title@ == editor.base.title@
    &&& m.state == editor.state
    &&& m.conjunction.aspect_id == c.id
    &&& m.conjunction.label@ == c.name@
    &&& m.conjunction.enabled == c.enabled
    &&& m.conjunction.maximum_orb == c.orbs.maximum
}

/// The draft as the resource editor shows it; refused where the draft has no conjunction.
pub fn aspect_editor_read_model(editor: &AspectSetEditor) -> (r: Result<AspectSetDraftReadModel, AppError>)
    ensures
        lacks_aspect(editor.draft.aspects@, "conjunction"@) ==> failed_with(
            r,
            AppErrorKind::NotFound,
            "Aspect Set has no conjunction definition"@,
        ),
        !lacks_aspect(editor.draft.aspects@, "conjunction"@) ==> (r matches Ok(m) && editor_model_of(*editor, m)),
{
    let found = match conjunction(&editor.draft) {
        Ok(found) => found,
        Err(error) => return Err(error),
    };
    proof {
        reveal_strlit("conjunction");
        let w = choose|w: int| is_first_aspect(editor.draft.aspects@, "conjunction"@, w) && *found == editor.draft.aspects@[w];
        let c = choose|c: int| is_first_aspect(editor.draft.aspects@, "conjunction"@, c);
        assert(is_first_aspect(editor.draft.aspects@, "conjunction"@, c));
        assert(w == c);
    }
    Ok(AspectSetDraftReadModel {
        resource_id: editor.base.id,
        title: editor.base.title.clone(),
        state: editor.state,
        conjunction: AspectDraftValue {
            aspect_id: found.id.clone(),
            label: found.name.clone(),
            enabled: found.enabled,
            maximum_orb: found.orbs.maximum,
        },
    })
}

/// The runtime of a view as its read model shows it: a copy of its last good scene and its
/// computation state; a view without a runtime is loading.
pub open spec fn runtime_shown<S: Clone>(views: Map<u128, ViewRuntime<S>>, id: ViewInstanceId, scene: Option<S>, computation: ViewComputationState) -> bool {
    if views.contains_key(id@) {
        &&& computation == views[id@].computation
        &&& match (scene, views[id@].scene) {
            (Some(a), Some(b)) => cloned::<S>(b, a),
            (None, None) => true,
            _ => false,
        }
    } else {
        scene is None && computation == ViewComputationState::Loading
    }
}

/// The slots of a document as a view shows them, each with the chart assigned to it.
pub open spec fn slots_shown(slots: Seq<ChartSlot>, charts: SlotAssignments, shown: Seq<ChartSlotAssignment>) -> bool {
    &&& shown.len() == slots.len()
    &&& forall|i: int| 0 <= i < shown.len() ==> {
        &&& (#[trigger] shown[i]).slot == slots[i].id
        &&& shown[i].label@ == slots[i].label@
        &&& shown[i].required == slots[i].required
        &&& shown[i].chart == (if charts.spec_map().dom().contains(slots[i].id@) {
            Some(charts.spec_map()[slots[i].id@])
        } else {
            None
        })
    }
}

/// Why the view `view_id` of `w` cannot be shown; none where it can.
pub open spec fn view_model_failure<S>(session: Session<S>, w: Workspace, view_id: ViewInstanceId) -> Option<Seq<char>> {
    if exists|vi: int| is_first_view(w.views@, view_id, vi) {
        let view = w.views@[choose|vi: int| is_first_view(w.views@, view_id, vi)];
        match spec_resolve(view.document, session.catalog) {
            Err(e) => Some(resolution_message(e)),
            Ok(_) => match view_title_of(view, session.catalog) {
                None => Some(not_found_message("bound resource"@, view_document_id(view))),
                Some(_) => None,
            },
        }
    } else {
        Some("View "@ + uuid_text(view_id@) + " was not found"@)
    }
}

/// `m` shows the view `view_id` of `w`.
pub open spec fn view_model_of<S: Clone>(session: Session<S>, w: Workspace, view_id: ViewInstanceId, m: ViewReadModel<S>) -> bool {
    let view = w.views@[choose|vi: int| is_first_view(w.views@, view_id, vi)];
    &&& m.view_id == view_id
    &&& Some(m.title@) == view_title_of(view, session.catalog)
    &&& runtime_shown(session.views@, view_id, m.scene, m.computation)
    &&& slots_shown(spec_resolve(view.document, session.catalog)->Ok_0.chart_slots@, view.charts, m.slots@)
}

/// The first message among `charts` that cannot be summarized.
pub open spec fn first_chart_failure(catalog: Catalog, charts: Seq<WorkspaceChart>) -> Option<Seq<char>>
    decreases charts.len(),
{
    if charts.len() == 0 {
        None
    } else {
        match first_chart_failure(catalog, charts.drop_last()) {
            Some(m) => Some(m),
            None => match charts.last() {
                WorkspaceChart::Saved { definition, .. } => if catalog.spec_current(definition@) matches Some(
                    CanonicalResource::ChartDefinition(_),
                ) {
                    None
                } else {
                    Some(not_found_message("ChartDefinition"@, definition))
                },
                WorkspaceChart::Ephemeral { .. } => None,
            },
        }
    }
}

/// The first message among `views` whose title cannot be found.
pub open spec fn first_title_failure(catalog: Catalog, views: Seq<ViewInstance>) -> Option<Seq<char>>
    decreases views.len(),
{
    if views.len() == 0 {
        None
    } else {
        match first_title_failure(catalog, views.drop_last()) {
            Some(m) => Some(m),
            None => if view_title_of(views.last(), catalog) is None {
                Some(not_found_message("bound resource"@, view_document_id(views.last())))
            } else {
                None
            },
        }
    }
}

/// The first of two possible failures.
pub open spec fn either(a: Option<Seq<char>>, b: Option<Seq<char>>) -> Option<Seq<char>> {
    if a is Some { a } else { b }
}

/// The document binding of the active view of `w`, where it has one.
pub open spec fn active_document(w: Workspace) -> Option<ResourceBinding<ViewDocument>> {
    match w.active_view {
        Some(id) => if exists|vi: int| is_first_view(w.views@, id, vi) {
            Some(w.views@[choose|vi: int| is_first_view(w.views@, id, vi)].document)
        } else {
            None
        },
        None => None,
    }
}

/// Why the profile bindings of `w` cannot be summarized; none where they can.
pub open spec fn bindings_failure(catalog: Catalog, w: Workspace) -> Option<Seq<char>> {
    either(binding_failure(w.profile.displayed_points, catalog),
    either(binding_failure(w.profile.aspected_points, catalog),
    either(binding_failure(w.profile.transit_points, catalog),
    either(binding_failure(w.profile.aspects, catalog),
    either(binding_failure(w.profile.analysis, catalog),
    either(binding_failure(w.profile.theme, catalog),
    either(binding_failure(w.profile.wheel, catalog),
    match active_document(w) {
        Some(document) => binding_failure(document, catalog),
        None => None,
    })))))))
}

/// The binding summaries owed for `w`: the profile's, then the active view's document.
pub open spec fn bindings_of(catalog: Catalog, w: Workspace) -> Seq<BindingItem> {
    summarized("Displayed points"@, w.profile.displayed_points, catalog)
        + summarized("Aspected points"@, w.profile.aspected_points, catalog)
        + summarized("Transit points"@, w.profile.transit_points, catalog)
        + summarized("Aspect set"@, w.profile.aspects, catalog)
        + summarized("Analysis profile"@, w.profile.analysis, catalog)
        + summarized("Theme"@, w.profile.theme, catalog)
        + summarized("Wheel template"@, w.profile.wheel, catalog)
        + match active_document(w) {
            Some(document) => summarized("View document"@, document, catalog),
            None => Seq::empty(),
        }
}

/// Why the read model of a ready session with workspace `w` cannot be built; none where it can.
/// The parts are looked at in this order: open charts, view titles, the active view, the
/// bindings, the library's Aspect Sets and the open draft.
pub open spec fn read_failure<S>(session: Session<S>, w: Workspace) -> Option<Seq<char>> {
    either(first_chart_failure(session.catalog, w.chart_instances@),
    either(first_title_failure(session.catalog, w.views@),
    either(match w.active_view {
        Some(id) => view_model_failure(session, w, id),
        None => None,
    },
    either(bindings_failure(session.catalog, w),
    either(if some_set_lacks_conjunction(session.catalog, session.catalog.spec_order()) {
        Some("Aspect Set has no conjunction definition"@)
    } else {
        None
    },
    match session.editor {
        Some(e) => if lacks_aspect(e.draft.aspects@, "conjunction"@) {
            Some("Aspect Set has no conjunction definition"@)
        } else {
            None
        },
        None => None,
    })))))
}

/// `inspector` shows the open chart `active` as listed in `charts`.
pub open spec fn active_chart_shown(charts: Seq<OpenChartSummary>, active: Option<InstanceId>, inspector: Option<ActiveChartInspector>) -> bool {
    match active {
        None => inspector is None,
        Some(id) => if exists|i: int| 0 <= i < charts.len() && charts[i].instance_id == id {
            let i = choose|i: int| 0 <= i < charts.len() && charts[i].instance_id == id && forall|j: int| 0 <= j < i ==> charts[j].instance_id != id;
            inspector matches Some(x) && x.instance_id == charts[i].instance_id && x.title@ == charts[i].title@
                && x.subtitle@ == charts[i].subtitle@ && x.persistence == charts[i].persistence
        } else {
            inspector is None
        },
    }
}

/// `m` is the read model of the ready session `session` with workspace `w`.
pub open spec fn model_of<S: Clone>(session: Session<S>, w: Workspace, m: AppReadModel<S>) -> bool {
    &&& m.status == session.status
    &&& m.library.charts@.len() == definition_ids(session.catalog, session.catalog.spec_order()).len()
    &&& forall|i: int| 0 <= i < m.library.charts@.len() ==> lists_definition(session.catalog,
        definition_ids(session.catalog, session.catalog.spec_order())[i], #[trigger] m.library.charts@[i])
    &&& m.library.aspect_sets@.len() == aspect_set_ids(session.catalog, session.catalog.spec_order()).len()
    &&& forall|i: int| 0 <= i < m.library.aspect_sets@.len() ==> lists_aspect_set(session.catalog,
        aspect_set_ids(session.catalog, session.catalog.spec_order())[i], #[trigger] m.library.aspect_sets@[i])
    &&& m.workspace.charts@.len() == w.chart_instances@.len()
    &&& forall|i: int| 0 <= i < m.workspace.charts@.len() ==> open_chart_outcome(session.catalog, w.chart_instances@[i],
        Ok(#[trigger] m.workspace.charts@[i]))
    &&& m.workspace.active_chart == w.active_chart
    &&& m.workspace.selected_charts@ == w.selected_charts@
    &&& m.workspace.views@.len() == w.views@.len()
    &&& forall|i: int| 0 <= i < m.workspace.views@.len() ==> (#[trigger] m.workspace.views@[i]).view_id == w.views@[i].id
        && Some(m.workspace.views@[i].title@) == view_title_of(w.views@[i], session.catalog)
    &&& m.workspace.active_view == w.active_view
    &&& match w.active_view {
        None => m.active_view is None,
        Some(id) => m.active_view matches Some(v) && view_model_of(session, w, id, v),
    }
    &&& active_chart_shown(m.workspace.charts@, w.active_chart, m.inspector.active_chart)
    &&& m.inspector.bindings@.map_values(|b: ResourceBindingSummary| summary_item(b)) == bindings_of(session.catalog, w)
    &&& m.inspector.active_aspect_set == w.profile.aspects.spec_id()
    &&& match session.editor {
        None => m.resource_editor.aspect_set is None,
        Some(e) => m.resource_editor.aspect_set matches Some(x) && editor_model_of(e, x),
    }
    &&& session.capabilities_of(m.capabilities@)
    &&& m.notice == session.notice
}

/// A copy of an optional notice.
pub fn copy_notice(notice: &Option<AppNotice>) -> (r: Option<AppNotice>)
    ensures
        r == *notice,
{
    match notice {
        Some(n) => Some(AppNotice { kind: n.kind, message: n.message.clone() }),
        None => None,
    }
}

/// A failure among the first `k` charts is the first failure among all of them.
pub proof fn lemma_chart_failure_prefix(catalog: Catalog, charts: Seq<WorkspaceChart>, k: int)
    requires
        0 <= k <= charts.len(),
        first_chart_failure(catalog, charts.subrange(0, k)) is Some,
    ensures
        first_chart_failure(catalog, charts) == first_chart_failure(catalog, charts.subrange(0, k)),
    decreases charts.len(),
{
    if k < charts.len() {
        assert(charts.drop_last().subrange(0, k) =~= charts.subrange(0, k));
        lemma_chart_failure_prefix(catalog, charts.drop_last(), k);
    } else {
        assert(charts.subrange(0, k) =~= charts);
    }
}

/// A failure among the first `k` views is the first failure among all of them.
pub proof fn lemma_title_failure_prefix(catalog: Catalog, views: Seq<ViewInstance>, k: int)
    requires
        0 <= k <= views.len(),
        first_title_failure(catalog, views.subrange(0, k)) is Some,
    ensures
        first_title_failure(catalog, views) == first_title_failure(catalog, views.subrange(0, k)),
    decreases views.len(),
{
    if k < views.len() {
        assert(views.drop_last().subrange(0, k) =~= views.subrange(0, k));
        lemma_title_failure_prefix(catalog, views.drop_last(), k);
    } else {
        assert(views.subrange(0, k) =~= views);
    }
}

/// Appends a binding summary where there is one.
fn push_summary(out: &mut Vec<ResourceBindingSummary>, found: Option<ResourceBindingSummary>)
    ensures
        final(out)@.map_values(|b: ResourceBindingSummary| summary_item(b)) == old(out)@.map_values(
            |b: ResourceBindingSummary| summary_item(b),
        ) + match found {
            Some(summary) => seq![summary_item(summary)],
            None => Seq::<BindingItem>::empty(),
        },
{
    match found {
        Some(summary) => {
            out.push(summary);
            assert(out@.map_values(|b: ResourceBindingSummary| summary_item(b)) =~= old(out)@.map_values(
                |b: ResourceBindingSummary| summary_item(b),
            ) + seq![summary_item(summary)]);
        },
        None => {
            assert(out@.map_values(|b: ResourceBindingSummary| summary_item(b)) =~= old(out)@.map_values(
                |b: ResourceBindingSummary| summary_item(b),
            ) + Seq::<BindingItem>::empty());
        },
    }
}

/// The projection before the session is ready: nothing but its status and notice.
pub open spec fn initial_projection<S>(m: AppReadModel<S>) -> bool {
    &&& m.library.charts@.len() == 0
    &&& m.library.aspect_sets@.len() == 0
    &&& m.workspace.charts@.len() == 0
    &&& m.workspace.active_chart is None
    &&& m.workspace.selected_charts@.len() == 0
    &&& m.workspace.views@.len() == 0
    &&& m.workspace.active_view is None
    &&& m.active_view is None
    &&& m.inspector.active_chart is None
    &&& m.inspector.bindings@.len() == 0
    &&& m.inspector.active_aspect_set is None
    &&& m.resource_editor.aspect_set is None
    &&& m.capabilities@.len() == 0
}

impl<S: Clone> Session<S> {
    /// The read model of the view `view_id` of the workspace.
    pub fn view_read_model(&self, view_id: ViewInstanceId) -> (r: Result<ViewReadModel<S>, AppError>)
        ensures
            self.spec_workspace() is None ==> failed_with(r, AppErrorKind::Unavailable,
                "Ready application has no workspace"@),
            self.spec_workspace() is Some ==> match view_model_failure(*self, self.spec_workspace()->0, view_id) {
                Some(message) => failed_with(r, AppErrorKind::NotFound, message),
                None => r matches Ok(m) && view_model_of(*self, self.spec_workspace()->0, view_id, m),
            },
    {
        self.hold_wf();
        let w = match self.workspace() {
            Some(w) => w,
            None => return Err(AppError::new(AppErrorKind::Unavailable, "Ready application has no workspace")),
        };
        let vi = match find_view(&w.views, view_id) {
            Some(vi) => vi,
            None => {
                let id_text = view_id.to_string();
                let message = concat3("View ", id_text.as_str(), " was not found");
                return Err(AppError { kind: AppErrorKind::NotFound, message });
            },
        };
        proof {
            let c = choose|x: int| is_first_view(w.views@, view_id, x);
            assert(is_first_view(w.views@, view_id, c));
            assert(c == vi);
        }
        let view = &w.views[vi];
        let document = match resolve_typed_binding(&view.document, &self.catalog) {
            Ok(resolved) => resolved.value,
            Err(error) => return Err(AppError { kind: AppErrorKind::NotFound, message: error.to_string() }),
        };
        let (scene, computation) = match self.views.get(&view_id.0) {
            Some(runtime) => (
                match &runtime.scene {
                    Some(scene) => Some(scene.clone()),
                    None => None,
                },
                runtime.computation.clone(),
            ),
            None => (None, ViewComputationState::Loading),
        };
        let title = match view_title(view, &self.catalog) {
            Ok(title) => title,
            Err(error) => return Err(error),
        };
        assert(view.charts.wf());
        let mut slots: Vec<ChartSlotAssignment> = Vec::new();
        let mut i: usize = 0;
        while i < document.chart_slots.len()
            invariant
                view.charts.wf(),
                i <= document.chart_slots@.len(),
                slots@.len() == i,
                forall|j: int| 0 <= j < i ==> {
                    &&& (#[trigger] slots@[j]).slot == document.chart_slots@[j].id
                    &&& slots@[j].label@ == document.chart_slots@[j].label@
                    &&& slots@[j].required == document.chart_slots@[j].required
                    &&& slots@[j].chart == (if view.charts.spec_map().dom().contains(document.chart_slots@[j].id@) {
                        Some(view.charts.spec_map()[document.chart_slots@[j].id@])
                    } else {
                        None
                    })
                },
            decreases document.chart_slots@.len() - i,
        {
            let slot = &document.chart_slots[i];
            slots.push(ChartSlotAssignment {
                slot: slot.id.clone(),
                label: slot.label.clone(),
                required: slot.required,
                chart: view.charts.get(&slot.id),
            });
            i += 1;
        }
        Ok(ViewReadModel { view_id, title, scene, computation, slots })
    }
}

impl<S: Clone> Session<S> {
    /// The projection the presentation renders. Before the session is ready it holds only the
    /// status and the notice.
    #[verifier::rlimit(50)]
    #[verifier::spinoff_prover]
    #[verifier::loop_isolation(false)]
    pub fn read_model(&self) -> (r: Result<AppReadModel<S>, AppError>)
        ensures
            !(self.status is Ready) ==> (r matches Ok(m) && m.status == self.status && m.notice == self.notice
                && initial_projection(m)),
            self.status is Ready && self.spec_workspace() is None ==> failed_with(r, AppErrorKind::Unavailable,
                "Ready application has no workspace"@),
            self.status is Ready && self.spec_workspace() is Some ==> match read_failure(*self, self.spec_workspace()->0) {
                Some(message) => failed_with(r, AppErrorKind::NotFound, message),
                None => r matches Ok(m) && model_of(*self, self.spec_workspace()->0, m),
            },
    {
        self.hold_wf();
        if !self.is_ready() {
            let mut model = AppReadModel::initializing();
            model.status = self.status.clone();
            model.notice = copy_notice(&self.notice);
            return Ok(model);
        }
        let w = match self.workspace() {
            Some(w) => w,
            None => return Err(AppError::new(AppErrorKind::Unavailable, "Ready application has no workspace")),
        };
        let library_charts = self.catalog.library_charts();
        let mut open_charts: Vec<OpenChartSummary> = Vec::new();
        let mut i: usize = 0;
        while i < w.chart_instances.len()
            invariant
                self.catalog.wf(),
                i <= w.chart_instances@.len(),
                first_chart_failure(self.catalog, w.chart_instances@.subrange(0, i as int)) is None,
                open_charts@.len() == i,
                forall|j: int| 0 <= j < i ==> open_chart_outcome(self.catalog, w.chart_instances@[j], Ok(#[trigger] open_charts@[j])),
            decreases w.chart_instances@.len() - i,
        {
            let ghost next = w.chart_instances@.subrange(0, i + 1);
            assert(next.drop_last() =~= w.chart_instances@.subrange(0, i as int));
            let summary = match open_chart_summary(&self.catalog, &w.chart_instances[i]) {
                Ok(summary) => summary,
                Err(error) => {
                    proof {
                        lemma_chart_failure_prefix(self.catalog, w.chart_instances@, i + 1);
                    }
                    return Err(error);
                },
            };
            open_charts.push(summary);
            i += 1;
        }
        assert(w.chart_instances@.subrange(0, w.chart_instances@.len() as int) =~= w.chart_instances@);
        let active_chart = match w.active_chart {
            Some(active) => {
                let mut j: usize = 0;
                while j < open_charts.len() && open_charts[j].instance_id != active
                    invariant
                        j <= open_charts@.len(),
                        forall|k: int| 0 <= k < j ==> open_charts@[k].instance_id != active,
                    decreases open_charts@.len() - j,
                {
                    j += 1;
                }
                if j < open_charts.len() {
                    let chart = &open_charts[j];
                    proof {
                        let c = choose|c: int| 0 <= c < open_charts@.len() && open_charts@[c].instance_id == active
                            && forall|k: int| 0 <= k < c ==> open_charts@[k].instance_id != active;
                        assert(0 <= c < open_charts@.len() && open_charts@[c].instance_id == active
                            && forall|k: int| 0 <= k < c ==> open_charts@[k].instance_id != active);
                        assert(c == j);
                    }
                    Some(ActiveChartInspector {
                        instance_id: chart.instance_id,
                        title: chart.title.clone(),
                        subtitle: chart.subtitle.clone(),
                        persistence: chart.persistence,
                    })
                } else {
                    None
                }
            },
            None => None,
        };
        let mut views: Vec<ViewSummary> = Vec::new();
        let mut v: usize = 0;
        while v < w.views.len()
            invariant
                self.catalog.wf(),
                v <= w.views@.len(),
                first_title_failure(self.catalog, w.views@.subrange(0, v as int)) is None,
                views@.len() == v,
                forall|j: int| 0 <= j < v ==> (#[trigger] views@[j]).view_id == w.views@[j].id
                    && Some(views@[j].title@) == view_title_of(w.views@[j], self.catalog),
            decreases w.views@.len() - v,
        {
            let ghost next = w.views@.subrange(0, v + 1);
            assert(next.drop_last() =~= w.views@.subrange(0, v as int));
            let title = match view_title(&w.views[v], &self.catalog) {
                Ok(title) => title,
                Err(error) => {
                    proof {
                        lemma_title_failure_prefix(self.catalog, w.views@, v + 1);
                    }
                    return Err(error);
                },
            };
            views.push(ViewSummary { view_id: w.views[v].id, title });
            v += 1;
        }
        assert(w.views@.subrange(0, w.views@.len() as int) =~= w.views@);
        let active_view = match w.active_view {
            Some(id) => match self.view_read_model(id) {
                Ok(model) => Some(model),
                Err(error) => return Err(error),
            },
            None => None,
        };
        let mut bindings: Vec<ResourceBindingSummary> = Vec::new();
        match binding_summary("Displayed points", &w.profile.displayed_points, &self.catalog) {
            Ok(found) => push_summary(&mut bindings, found),
            Err(error) => return Err(error),
        }
        match binding_summary("Aspected points", &w.profile.aspected_points, &self.catalog) {
            Ok(found) => push_summary(&mut bindings, found),
            Err(error) => return Err(error),
        }
        match binding_summary("Transit points", &w.profile.transit_points, &self.catalog) {
            Ok(found) => push_summary(&mut bindings, found),
            Err(error) => return Err(error),
        }
        match binding_summary("Aspect set", &w.profile.aspects, &self.catalog) {
            Ok(found) => push_summary(&mut bindings, found),
            Err(error) => return Err(error),
        }
        match binding_summary("Analysis profile", &w.profile.analysis, &self.catalog) {
            Ok(found) => push_summary(&mut bindings, found),
            Err(error) => return Err(error),
        }
        match binding_summary("Theme", &w.profile.theme, &self.catalog) {
            Ok(found) => push_summary(&mut bindings, found),
            Err(error) => return Err(error),
        }
        match binding_summary("Wheel template", &w.profile.wheel, &self.catalog) {
            Ok(found) => push_summary(&mut bindings, found),
            Err(error) => return Err(error),
        }
        match w.active_view {
            Some(id) => match find_view(&w.views, id) {
                Some(vi) => {
                    proof {
                        let c = choose|x: int| is_first_view(w.views@, id, x);
                        assert(is_first_view(w.views@, id, c));
                        assert(c == vi);
                    }
                    match binding_summary("View document", &w.views[vi].document, &self.catalog) {
                        Ok(found) => push_summary(&mut bindings, found),
                        Err(error) => return Err(error),
                    }
                },
                None => {},
            },
            None => {},
        }
        let aspect_sets = match self.catalog.aspect_set_summaries() {
            Ok(summaries) => summaries,
            Err(error) => return Err(error),
        };
        let editor = match &self.editor {
            Some(editor) => match aspect_editor_read_model(editor) {
                Ok(model) => Some(model),
                Err(error) => return Err(error),
            },
            None => None,
        };
        let selected_charts = copy_vec(&w.selected_charts);
        assert(selected_charts@ =~= w.selected_charts@);
        let model = AppReadModel {
            status: self.status.clone(),
            library: LibraryReadModel { charts: library_charts, aspect_sets },
            workspace: WorkspaceReadModel {
                charts: open_charts,
                active_chart: w.active_chart,
                selected_charts,
                views,
                active_view: w.active_view,
            },
            active_view,
            inspector: InspectorReadModel {
                active_chart,
                bindings,
                active_aspect_set: w.profile.aspects.id(),
            },
            resource_editor: ResourceEditorReadModel { aspect_set: editor },
            capabilities: self.capabilities(),
            notice: copy_notice(&self.notice),
        };
        Ok(model)
    }
}

} // verus!
