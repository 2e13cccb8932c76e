use vstd::prelude::*;

use crate::binding::{resolution_message, resolve_typed_binding, spec_resolve};
use crate::chart::{ChartDefinition, ChartRecord, ChartSource};
use crate::ids::{uuid_text, InstanceId, ViewInstanceId};
use crate::intents::failed_with;
use crate::read_model::{AppError, AppErrorKind};
use crate::resource::{CanonicalResource, ResourceEnvelope};
use crate::session::{concat3, Session};
use crate::slots::first_slot_chart;
use crate::view::{ChartSlot, ViewDocument, ViewInstance};
use crate::workspace::WorkspaceChart;
use crate::workspace_commands::{is_first_view, is_first_with_id};

verus! {

/// The chart of the first required slot of `slots`, in document order, that holds one.
pub open spec fn first_required_assigned(slots: Seq<ChartSlot>, m: Map<Seq<char>, InstanceId>) -> Option<InstanceId>
    decreases slots.len(),
{
    if slots.len() == 0 {
        None
    } else if slots[0].required && m.dom().contains(slots[0].id@) {
        Some(m[slots[0].id@])
    } else {
        first_required_assigned(slots.drop_first(), m)
    }
}

/// The chart a view is calculated for: that of its first assigned required slot, else that of
/// the assigned slot whose key sorts first, else none.
pub open spec fn view_chart(document: ViewDocument, m: Map<Seq<char>, InstanceId>) -> Option<InstanceId> {
    match first_required_assigned(document.chart_slots@, m) {
        Some(c) => Some(c),
        None => first_slot_chart(m),
    }
}

/// What the calculation of a view starts from: the view, the chart it shows, and that chart's
/// definition and record.
#[derive(Debug)]
pub struct SceneSource<'a> {
    pub view: &'a ViewInstance,
    pub chart: InstanceId,
    pub definition: &'a ResourceEnvelope<ChartDefinition>,
    pub record: &'a ResourceEnvelope<ChartRecord>,
}

/// The chart a view shows, decided for its document and slot assignments.
pub fn chart_for_view(view: &ViewInstance, document: &ViewDocument) -> (r: Option<InstanceId>)
    ensures
        r == view_chart(*document, view.charts.spec_map()),
{
    proof {
        use_type_invariant(&view.charts);
    }
    let slots = &document.chart_slots;
    let ghost m = view.charts.spec_map();
    let mut i: usize = 0;
    assert(slots@.skip(0) =~= slots@);
    while i < slots.len()
        invariant
            view.charts.wf(),
            m == view.charts.spec_map(),
            slots@ == document.chart_slots@,
            i <= slots@.len(),
            first_required_assigned(slots@, m) == first_required_assigned(slots@.skip(i as int), m),
        decreases slots@.len() - i,
    {
        assert(slots@.skip(i as int)[0] == slots@[i as int]);
        assert(slots@.skip(i as int).drop_first() =~= slots@.skip(i + 1));
        if slots[i].required {
            match view.charts.get(&slots[i].id) {
                Some(chart) => return Some(chart),
                None => {},
            }
        }
        i += 1;
    }
    assert(slots@.skip(i as int).len() == 0);
    view.charts.first_by_slot()
}

/// What deciding the source of a view's calculation owes: the view, the resolved document, the
/// chart it shows, the chart's saved definition and that definition's radix record, each
/// reported as missing where it is, in this order; ephemeral charts and derived definitions are
/// refused as not calculated.
pub open spec fn scene_source_for<S>(session: Session<S>, view_id: ViewInstanceId, r: Result<SceneSource, AppError>) -> bool {
    let kind = AppErrorKind::ViewComputation;
    match session.spec_workspace() {
        None => failed_with(r, kind, "No workspace is hydrated"@),
        Some(w) => if !(exists|i: int| is_first_view(w.views@, view_id, i)) {
            failed_with(r, kind, "View "@ + uuid_text(view_id@) + " was not found in the workspace"@)
        } else {
            let vi = choose|i: int| is_first_view(w.views@, view_id, i);
            let view = w.views@[vi];
            match spec_resolve(view.document, session.catalog) {
                Err(e) => failed_with(r, kind, "Effective configuration could not be resolved: "@ + resolution_message(e)),
                Ok(document) => match view_chart(document, view.charts.spec_map()) {
                    None => failed_with(r, kind, "The active view has no assigned chart"@),
                    Some(chart) => if !(exists|ci: int| is_first_with_id(w.chart_instances@, chart, ci)) {
                        failed_with(r, kind, "Assigned chart "@ + uuid_text(chart@) + " is not open"@)
                    } else {
                        let ci = choose|ci: int| is_first_with_id(w.chart_instances@, chart, ci);
                        match w.chart_instances@[ci] {
                            WorkspaceChart::Ephemeral { .. } => failed_with(
                                r,
                                kind,
                                "Ephemeral chart calculation is not implemented in this integration slice"@,
                            ),
                            WorkspaceChart::Saved { definition: definition_id, .. } => match session.catalog.spec_current(definition_id@) {
                                Some(CanonicalResource::ChartDefinition(definition)) => match definition.payload.source {
                                    ChartSource::Derived { .. } => failed_with(
                                        r,
                                        kind,
                                        "Derived chart calculation remains intentionally deferred"@,
                                    ),
                                    ChartSource::Radix { record: record_id } => match session.catalog.spec_current(record_id@) {
                                        Some(CanonicalResource::ChartRecord(record)) => r matches Ok(source) && *source.view == view
                                            && source.chart == chart && *source.definition == definition && *source.record == record,
                                        _ => failed_with(r, kind, "ChartRecord "@ + uuid_text(record_id@) + " was not found"@),
                                    },
                                },
                                _ => failed_with(r, kind, "ChartDefinition "@ + uuid_text(definition_id@) + " was not found"@),
                            },
                        }
                    },
                },
            }
        },
    }
}

fn computation_error(message: String) -> (r: AppError)
    ensures
        r.kind == AppErrorKind::ViewComputation,
        r.message@ == message@,
{
    AppError { kind: AppErrorKind::ViewComputation, message }
}

impl<S> Session<S> {
    /// Decides what the calculation of the view `view_id` starts from.
    pub fn scene_source(&self, view_id: ViewInstanceId) -> (r: Result<SceneSource<'_>, AppError>)
        ensures
            scene_source_for(*self, view_id, r),
    {
        self.hold_wf();
        let w = match self.workspace() {
            Some(w) => w,
            None => return Err(AppError::new(AppErrorKind::ViewComputation, "No workspace is hydrated")),
        };
        let mut vi: usize = 0;
        while vi < w.views.len() && w.views[vi].id != view_id
            invariant
                vi <= w.views@.len(),
                forall|j: int| 0 <= j < vi ==> (#[trigger] w.views@[j]).id != view_id,
            decreases w.views@.len() - vi,
        {
            vi += 1;
        }
        if vi == w.views.len() {
            let message = concat3("View ", view_id.to_string().as_str(), " was not found in the workspace");
            return Err(computation_error(message));
        }
        proof {
            assert(is_first_view(w.views@, view_id, vi as int));
            let c = choose|i: int| is_first_view(w.views@, view_id, i);
            assert(c == vi as int) by {
                if c < vi as int {
                    assert(w.views@[c].id != view_id);
                } else if c > vi as int {
                    assert(w.views@[vi as int].id != view_id);
                }
            }
        }
        let view = &w.views[vi];
        let document = match resolve_typed_binding(&view.document, &self.catalog) {
            Ok(resolved) => resolved.value,
            Err(error) => {
                let mut message = "Effective configuration could not be resolved: ".to_owned();
                message.append(error.to_string().as_str());
                return Err(computation_error(message));
            },
        };
        let chart = match chart_for_view(view, document) {
            Some(chart) => chart,
            None => return Err(AppError::new(AppErrorKind::ViewComputation, "The active view has no assigned chart")),
        };
        let mut ci: usize = 0;
        while ci < w.chart_instances.len() && w.chart_instances[ci].instance_id() != chart
            invariant
                ci <= w.chart_instances@.len(),
                forall|j: int| 0 <= j < ci ==> (#[trigger] w.chart_instances@[j]).spec_instance_id() != chart,
            decreases w.chart_instances@.len() - ci,
        {
            ci += 1;
        }
        if ci == w.chart_instances.len() {
            let message = concat3("Assigned chart ", chart.to_string().as_str(), " is not open");
            return Err(computation_error(message));
        }
        proof {
            assert(is_first_with_id(w.chart_instances@, chart, ci as int));
            let c = choose|i: int| is_first_with_id(w.chart_instances@, chart, i);
            assert(c == ci as int) by {
                if c < ci as int {
                    assert(w.chart_instances@[c].spec_instance_id() != chart);
                } else if c > ci as int {
                    assert(w.chart_instances@[ci as int].spec_instance_id() != chart);
                }
            }
        }
        let definition_id = match &w.chart_instances[ci] {
            WorkspaceChart::Saved { definition, .. } => *definition,
            WorkspaceChart::Ephemeral { .. } => return Err(
                AppError::new(
                    AppErrorKind::ViewComputation,
                    "Ephemeral chart calculation is not implemented in this integration slice",
                ),
            ),
        };
        let definition = match self.catalog.chart_definition(definition_id) {
            Some(definition) => definition,
            None => {
                let message = concat3("ChartDefinition ", definition_id.to_string().as_str(), " was not found");
                return Err(computation_error(message));
            },
        };
        let record_id = match &definition.payload.source {
            ChartSource::Radix { record } => *record,
            ChartSource::Derived { .. } => return Err(
                AppError::new(AppErrorKind::ViewComputation, "Derived chart calculation remains intentionally deferred"),
            ),
        };
        let record = match self.catalog.chart_record(record_id) {
            Some(record) => record,
            None => {
                let message = concat3("ChartRecord ", record_id.to_string().as_str(), " was not found");
                return Err(computation_error(message));
            },
        };
        Ok(SceneSource { view, chart, definition, record })
    }
}

} // verus!
