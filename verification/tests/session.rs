use astra::bootstrap::{bootstrap_ids, bootstrap_resources};
use astra::chart::{
    CalculationSpec, ChartDefinition, ChartRecord, ChartSource, EventKind, LocationAssertion,
    SourceProvenance, SourceType,
};
use astra::demo;
use astra::binding::ResolutionLayer;
use astra::copy::DeepCopy;
use astra::ids::{AspectId, ChartSlotId, InstanceId, PointId, ResourceId, Revision, Timestamp, ViewInstanceId};
use astra::intents::StagedWorkspace;
use astra::lifecycle::{HydratedLibrary, WaitStep};
use astra::read_model::{
    AppError, AppErrorKind, AppIntent, AppNoticeKind, ApplicationStatus, AspectSetDraftMutation,
    Availability, BindingMode, ChartPersistence, DraftState, ViewComputationState,
};
use astra::resource::{
    AspectClass, AspectDefinition, AspectSet, CanonicalResource, OrbPolicy, ResourceBinding,
    ResourceEnvelope,
};
use astra::session::{PendingWork, RemoteAspectSet, SaveOutcome, Session};
use astra::slots::SlotAssignments;
use astra::time::{CalendarSpec, CivilDate, CivilDateTime, CivilTime, TemporalAssertion, TimeZoneAssertion};
use astra::units::{Angle, Binary64, Latitude, Longitude, Offset};
use astra::view::{
    AnalysisProfile, AspectFieldSpec, ChartSlot, HouseDisplaySpec, LabelSpec, ObjectFrame,
    PageLayout, PointRole, RingGeometry, RingSpec, Theme, ViewDocument, ViewInstance, ViewObject,
    ViewOverrides, WheelObject, WheelTemplate, ZodiacDisplaySpec,
};
use astra::workspace::{Workspace, WorkspaceChart, WorkspaceProfile};

fn bits(value: f64) -> Binary64 {
    Binary64 { bits: value.to_bits() }
}

fn angle(value: f64) -> Angle {
    Angle::from_bits(value.to_bits()).expect("angle is finite")
}

fn slot(name: &str) -> ChartSlotId {
    ChartSlotId::new(name).expect("slot ID is valid")
}

fn now() -> Timestamp {
    Timestamp::from_unix_millis(1)
}

fn aspect(id: &str, name: &str, degrees: f64, orb: f64) -> AspectDefinition {
    AspectDefinition {
        id: AspectId::new(id).expect("aspect ID"),
        name: name.into(),
        angle: angle(degrees),
        enabled: true,
        orbs: OrbPolicy { maximum: angle(orb), applying_multiplier: bits(1.0) },
        classification: AspectClass::Major,
    }
}

fn aspect_set(conjunction_orb: f64, square_orb: f64) -> AspectSet {
    AspectSet {
        aspects: vec![
            aspect("conjunction", "Conjunction", 0.0, conjunction_orb),
            aspect("square", "Square", 90.0, square_orb),
        ],
    }
}

/// The workspace the bootstrap library holds.
fn bootstrap_workspace() -> Workspace {
    match &bootstrap_resources()[6] {
        CanonicalResource::Workspace(workspace) => workspace.payload.deep_copy(),
        _ => panic!("last bootstrap resource is the workspace"),
    }
}

fn ready_session() -> Session<u32> {
    let mut session = Session::new(bootstrap_ids().workspace);
    session
        .initialize(Ok(HydratedLibrary::from_resources(bootstrap_resources())))
        .expect("initialization advances");
    session
}

fn stage(session: &mut Session<u32>, intent: AppIntent) -> StagedWorkspace {
    session.dispatch(intent).expect("intent accepted").expect("workspace intent is staged")
}

fn commit(session: &mut Session<u32>, intent: AppIntent) {
    let staged = stage(session, intent);
    session.commit_workspace(staged).expect("commit advances");
}

fn notice_text(session: &Session<u32>) -> String {
    session.notice.as_ref().expect("notice").message.clone()
}

fn standard_id() -> ResourceId {
    bootstrap_ids().aspect_set_standard
}

#[test]
fn hydration_makes_the_session_ready_and_schedules_the_active_view() {
    let session = ready_session();
    let ids = bootstrap_ids();
    assert_eq!(session.status, ApplicationStatus::Ready);
    assert_eq!(session.version, 2);
    assert_eq!(session.next_timestamp, 2);
    assert_eq!(session.active_view(), Some(ids.view));
    assert_eq!(session.pending.len(), 1);
    assert!(matches!(session.pending[0], PendingWork::ComputeView { view_id } if view_id == ids.view));
    assert_eq!(session.views.get(&ids.view.as_u128()).expect("runtime").computation, ViewComputationState::Loading);
    assert_eq!(notice_text(&session), "Canonical library and workspace hydrated; calculating the active view");
}

#[test]
fn hydration_without_the_workspace_reports_an_initialization_error() {
    let mut session: Session<u32> = Session::new(bootstrap_ids().workspace);
    let mut resources = bootstrap_resources();
    resources.pop();
    session.initialize(Ok(HydratedLibrary::from_resources(resources))).expect("advances");
    match &session.status {
        ApplicationStatus::Error(error) => {
            assert_eq!(error.kind, AppErrorKind::Initialization);
            assert_eq!(
                error.message,
                "Bootstrap workspace 14000000-0000-4000-8000-000000000001 was not available after hydration"
            );
        },
        other => panic!("unexpected status {other:?}"),
    }
    assert!(session.notice.is_none());
}

#[test]
fn failed_hydration_is_reported_and_intents_are_refused() {
    let mut session: Session<u32> = Session::new(bootstrap_ids().workspace);
    let failure = AppError::new(AppErrorKind::Initialization, "Could not load canonical resources: offline");
    session.initialize(Err(failure.clone())).expect("advances");
    assert_eq!(session.status, ApplicationStatus::Error(failure));
    let refused = session.dispatch(AppIntent::SaveDraft).expect_err("not ready");
    assert_eq!(refused.kind, AppErrorKind::Unavailable);
    assert_eq!(refused.message, "The application must be ready before it can accept intents");
}

#[test]
fn initialization_of_a_ready_session_changes_nothing() {
    let mut session = ready_session();
    let version = session.version;
    session.initialize(Err(AppError::new(AppErrorKind::Initialization, "ignored"))).expect("ready");
    assert_eq!(session.version, version);
    assert_eq!(session.status, ApplicationStatus::Ready);
}

#[test]
fn staging_leaves_the_session_unchanged_until_commit() {
    let mut session = ready_session();
    let ids = bootstrap_ids();
    let version = session.version;
    let staged = stage(&mut session, AppIntent::SetChartSelection { instance_id: ids.chart_instance_a, selected: true });
    assert_eq!(session.version, version);
    assert!(session.workspace().expect("workspace").selected_charts.is_empty());
    assert_eq!(staged.expected_revision(), Revision::initial());
    assert_eq!(staged.next().revision.get(), 2);
    assert_eq!(staged.next().modified_at, Timestamp::from_unix_millis(2));
    assert!(!staged.refresh());
    session.commit_workspace(staged).expect("commit");
    assert_eq!(session.version, version + 1);
    let workspace = session.workspace().expect("workspace");
    assert_eq!(workspace.selected_charts, vec![ids.chart_instance_a]);
    assert_eq!(workspace.active_chart, Some(ids.chart_instance_a));
    assert_eq!(session.next_timestamp, 3);
    assert_eq!(notice_text(&session), "Chart selection changed independently of activation");
}

#[test]
fn opening_a_library_chart_activates_a_fresh_instance() {
    let mut session = ready_session();
    let ids = bootstrap_ids();
    commit(&mut session, AppIntent::OpenChart { resource_id: ids.chart_definition_b });
    let workspace = session.workspace().expect("workspace");
    assert_eq!(workspace.chart_instances.len(), 2);
    let opened = workspace.chart_instances[1].instance_id();
    assert_eq!(workspace.active_chart, Some(opened));
    let text = opened.to_string();
    assert_eq!(text.as_bytes()[14], b'4');
    assert_eq!(notice_text(&session), "Chart opened and activated; selection was preserved");
}

#[test]
fn opening_an_unknown_chart_definition_is_refused() {
    let mut session = ready_session();
    let missing = ResourceId::from_u128(7);
    let error = session.dispatch(AppIntent::OpenChart { resource_id: missing }).expect_err("refused");
    assert_eq!(error.kind, AppErrorKind::NotFound);
    assert_eq!(error.message, "ChartDefinition 00000000-0000-0000-0000-000000000007 was not found");
}

#[test]
fn closing_the_only_chart_clears_its_slot_and_refreshes() {
    let mut session = ready_session();
    let ids = bootstrap_ids();
    commit(&mut session, AppIntent::CloseChart { instance_id: ids.chart_instance_a });
    let workspace = session.workspace().expect("workspace");
    assert!(workspace.chart_instances.is_empty());
    assert_eq!(workspace.active_chart, None);
    assert_eq!(workspace.views[0].charts.get(&slot("radix")), None);
    assert_eq!(notice_text(&session), "Chart closed; selection and chart slots were repaired by workspace policy");
    assert_eq!(session.pending.len(), 1);
}

#[test]
fn closing_a_chart_that_is_not_open_is_refused_with_the_command_error() {
    let mut session = ready_session();
    let stranger = InstanceId::from_u128(9);
    let error = session.dispatch(AppIntent::CloseChart { instance_id: stranger }).expect_err("refused");
    assert_eq!(error.kind, AppErrorKind::InvalidIntent);
    assert_eq!(error.message, "chart instance 00000000-0000-0000-0000-000000000009 is not open");
}

#[test]
fn slot_assignment_rules_are_checked_before_persistence() {
    let mut session = ready_session();
    let ids = bootstrap_ids();
    let cleared = session
        .dispatch(AppIntent::AssignChartSlot { view_id: ids.view, slot: slot("radix"), chart: None })
        .expect_err("required slot");
    assert_eq!(cleared.kind, AppErrorKind::InvalidIntent);
    assert_eq!(cleared.message, "A required chart slot cannot be cleared");
    let unknown = session
        .dispatch(AppIntent::AssignChartSlot { view_id: ids.view, slot: slot("transit"), chart: None })
        .expect_err("unknown slot");
    assert_eq!(unknown.message, "Chart slot transit was not found");
    let missing_view = session
        .dispatch(AppIntent::AssignChartSlot {
            view_id: astra::ids::ViewInstanceId::from_u128(3),
            slot: slot("radix"),
            chart: None,
        })
        .expect_err("unknown view");
    assert_eq!(missing_view.message, "View 00000000-0000-0000-0000-000000000003 was not found");
    commit(
        &mut session,
        AppIntent::AssignChartSlot { view_id: ids.view, slot: slot("comparison"), chart: Some(ids.chart_instance_a) },
    );
    let workspace = session.workspace().expect("workspace");
    assert_eq!(workspace.views[0].charts.get(&slot("comparison")), Some(ids.chart_instance_a));
}

#[test]
fn changing_the_workspace_aspect_set_closes_the_draft() {
    let mut session = ready_session();
    let ids = bootstrap_ids();
    session.dispatch(AppIntent::BeginAspectSetEdit { resource_id: ids.aspect_set_standard }).expect("edit");
    assert!(session.editor.is_some());
    commit(&mut session, AppIntent::SetWorkspaceAspectSet { resource_id: ids.aspect_set_tight });
    assert!(session.editor.is_none());
    let workspace = session.workspace().expect("workspace");
    assert_eq!(workspace.profile.aspects, ResourceBinding::Follow { id: ids.aspect_set_tight });
    let unknown = session
        .dispatch(AppIntent::SetWorkspaceAspectSet { resource_id: ids.chart_definition_a })
        .expect_err("not an aspect set");
    assert_eq!(unknown.message, "Aspect Set 12000000-0000-4000-8000-000000000001 was not found");
}

#[test]
fn aspect_draft_saves_as_the_next_canonical_revision() {
    let mut session = ready_session();
    session.dispatch(AppIntent::BeginAspectSetEdit { resource_id: standard_id() }).expect("edit");
    assert_eq!(session.editor.as_ref().expect("editor").state, DraftState::Clean { revision: Revision::initial() });
    session
        .dispatch(AppIntent::UpdateAspectSetDraft(AspectSetDraftMutation::SetOrb {
            aspect_id: AspectId::new("conjunction").expect("id"),
            maximum: angle(10.0),
        }))
        .expect("update");
    assert_eq!(
        session.editor.as_ref().expect("editor").state,
        DraftState::Dirty { base_revision: Revision::initial() }
    );
    session.dispatch(AppIntent::SaveDraft).expect("save");
    assert_eq!(
        session.editor.as_ref().expect("editor").state,
        DraftState::Saving { base_revision: Revision::initial() }
    );
    let refused = session.dispatch(AppIntent::RefreshActiveView).expect_err("save pending");
    assert_eq!(refused.message, "Wait for the pending Aspect Set save to finish");
    let work = session.pending.iter().position(|work| matches!(work, PendingWork::SaveAspectSet { .. })).expect("save queued");
    let saved = session.pending.remove(work).expect("queued work");
    let PendingWork::SaveAspectSet { expected_revision, next } = saved else { unreachable!() };
    assert_eq!(expected_revision, Revision::initial());
    assert_eq!(next.revision.get(), 2);
    assert_eq!(next.payload.aspects[0].orbs.maximum, angle(10.0));
    session.complete_aspect_set_save(expected_revision, next, SaveOutcome::Saved).expect("settled");
    let editor = session.editor.as_ref().expect("editor");
    assert_eq!(editor.state, DraftState::Clean { revision: Revision::new(2).expect("revision") });
    assert_eq!(notice_text(&session), "Aspect Set saved as canonical revision 2");
    let current = session.catalog.aspect_set(standard_id()).expect("current");
    assert_eq!(current.revision.get(), 2);
    assert_eq!(session.notice.as_ref().expect("notice").kind, AppNoticeKind::Success);
}

fn dirty_session_with_queued_save() -> (Session<u32>, Revision, ResourceEnvelope<AspectSet>) {
    let mut session = ready_session();
    session.dispatch(AppIntent::BeginAspectSetEdit { resource_id: standard_id() }).expect("edit");
    session
        .dispatch(AppIntent::UpdateAspectSetDraft(AspectSetDraftMutation::SetEnabled {
            aspect_id: AspectId::new("square").expect("id"),
            enabled: false,
        }))
        .expect("update");
    session.dispatch(AppIntent::SaveDraft).expect("save");
    let position = session.pending.iter().position(|work| matches!(work, PendingWork::SaveAspectSet { .. })).expect("queued");
    let PendingWork::SaveAspectSet { expected_revision, next } = session.pending.remove(position).expect("queued work") else { unreachable!() };
    (session, expected_revision, next)
}

#[test]
fn optimistic_conflict_keeps_the_local_draft_and_cancel_adopts_the_remote() {
    let (mut session, expected, next) = dirty_session_with_queued_save();
    let remote_base = session.catalog.aspect_set(standard_id()).expect("current").clone();
    let remote = remote_base.next_with_payload(aspect_set(2.0, 2.0), Timestamp::from_unix_millis(50)).expect("remote");
    let actual = remote.revision;
    session
        .complete_aspect_set_save(expected, next, SaveOutcome::Conflict { actual, remote: RemoteAspectSet::Found(remote) })
        .expect("settled");
    let editor = session.editor.as_ref().expect("editor");
    assert_eq!(editor.state, DraftState::Conflict { base_revision: expected, remote_revision: actual });
    assert!(!editor.draft.aspects[1].enabled);
    assert_eq!(session.notice.as_ref().expect("notice").kind, AppNoticeKind::Conflict);
    assert_eq!(
        notice_text(&session),
        "Aspect Set save conflict: draft revision 1, remote revision 2; the local draft was retained"
    );
    session.dispatch(AppIntent::CancelDraft).expect("cancel");
    let editor = session.editor.as_ref().expect("editor");
    assert_eq!(editor.state, DraftState::Clean { revision: actual });
    assert_eq!(editor.draft.aspects[0].orbs.maximum, angle(2.0));
    assert_eq!(
        notice_text(&session),
        "Draft canceled; canonical Aspect Set semantics restored without a repository write"
    );
}

#[test]
fn conflict_with_an_unreadable_remote_settles_dirty() {
    let (mut session, expected, next) = dirty_session_with_queued_save();
    let actual = Revision::new(3).expect("revision");
    session
        .complete_aspect_set_save(
            expected,
            next,
            SaveOutcome::Conflict { actual, remote: RemoteAspectSet::ReadFailed("offline".into()) },
        )
        .expect("settled");
    assert_eq!(session.editor.as_ref().expect("editor").state, DraftState::Dirty { base_revision: expected });
    assert_eq!(
        notice_text(&session),
        "Aspect Set save conflict was detected, but the remote revision could not be loaded; the local draft was retained: offline"
    );
    assert_eq!(session.notice.as_ref().expect("notice").kind, AppNoticeKind::Warning);
}

#[test]
fn conflict_with_a_remote_of_another_kind_names_it() {
    let (mut session, expected, next) = dirty_session_with_queued_save();
    let actual = Revision::new(3).expect("revision");
    session
        .complete_aspect_set_save(
            expected,
            next,
            SaveOutcome::Conflict { actual, remote: RemoteAspectSet::OtherKind(astra::resource::ResourceKind::Theme) },
        )
        .expect("settled");
    assert_eq!(
        notice_text(&session),
        "Aspect Set save conflict was detected, but the remote revision could not be loaded; the local draft was retained: resource 13000000-0000-4000-8000-000000000001 was Theme, not an AspectSet"
    );
}

#[test]
fn failed_save_keeps_the_draft_and_can_be_retried() {
    let (mut session, expected, next) = dirty_session_with_queued_save();
    session.complete_aspect_set_save(expected, next, SaveOutcome::Failed("disk full".into())).expect("settled");
    assert_eq!(session.editor.as_ref().expect("editor").state, DraftState::Dirty { base_revision: expected });
    assert_eq!(notice_text(&session), "Aspect Set save failed; the draft was retained: disk full");
    session.dispatch(AppIntent::SaveDraft).expect("retry");
    assert!(session.save_pending());
}

#[test]
fn a_save_for_a_closed_editor_is_reported() {
    let (mut session, expected, next) = dirty_session_with_queued_save();
    session.editor = None;
    session.complete_aspect_set_save(expected, next, SaveOutcome::Saved).expect("settled");
    assert_eq!(notice_text(&session), "Aspect Set revision 2 was saved, but its editor was no longer open");
}

#[test]
fn refresh_keeps_the_last_good_scene_through_failure() {
    let mut session = ready_session();
    let ids = bootstrap_ids();
    let refused = session.dispatch(AppIntent::RefreshActiveView).expect_err("computing");
    assert_eq!(refused.message, "The active view is already computing");
    session.take_next_pending().expect("queued view");
    session.complete_view(ids.view, Ok(7)).expect("completed");
    let runtime = session.views.get(&ids.view.as_u128()).expect("runtime");
    assert_eq!(runtime.scene, Some(7));
    assert_eq!(runtime.computation, ViewComputationState::Fresh);
    session.dispatch(AppIntent::RefreshActiveView).expect("refresh");
    assert_eq!(session.views.get(&ids.view.as_u128()).expect("runtime").computation, ViewComputationState::Refreshing);
    let failure = AppError::new(AppErrorKind::ViewComputation, "ephemeris unavailable");
    session.complete_view(ids.view, Err(failure.clone())).expect("completed");
    let runtime = session.views.get(&ids.view.as_u128()).expect("runtime");
    assert_eq!(runtime.scene, Some(7));
    assert_eq!(runtime.computation, ViewComputationState::Failed(failure));
    assert_eq!(
        notice_text(&session),
        "View computation failed; the last good Scene remains visible: ephemeris unavailable"
    );
}

#[test]
fn read_model_projects_library_workspace_and_capabilities() {
    let session = ready_session();
    let ids = bootstrap_ids();
    let model = session.read_model().expect("read model");
    assert_eq!(model.status, ApplicationStatus::Ready);
    let charts: Vec<(String, String)> =
        model.library.charts.iter().map(|chart| (chart.title.clone(), chart.subtitle.clone())).collect();
    assert_eq!(
        charts,
        vec![
            ("Example Natal".to_string(), "Jan 1, 2000 · Greenwich".to_string()),
            ("Example Event".to_string(), "Jul 4, 1985 · New York".to_string()),
        ]
    );
    assert_eq!(model.library.aspect_sets.len(), 2);
    assert_eq!(model.library.aspect_sets[0].title, "Standard");
    assert_eq!(model.library.aspect_sets[0].conjunction_orb, angle(8.0));
    assert_eq!(model.library.aspect_sets[1].conjunction_orb, angle(4.0));
    assert_eq!(model.workspace.charts.len(), 1);
    assert_eq!(model.workspace.charts[0].title, "Example Natal");
    assert_eq!(model.workspace.charts[0].persistence, ChartPersistence::Saved { resource_id: ids.chart_definition_a });
    assert_eq!(model.workspace.views[0].title, "Single wheel");
    let active = model.active_view.as_ref().expect("active view");
    assert_eq!(active.slots.len(), 2);
    assert_eq!(active.slots[0].chart, Some(ids.chart_instance_a));
    assert!(active.slots[0].required);
    assert_eq!(active.slots[1].chart, None);
    assert_eq!(active.computation, ViewComputationState::Loading);
    assert_eq!(model.inspector.active_chart.as_ref().expect("inspector").title, "Example Natal");
    assert_eq!(model.inspector.bindings.len(), 1);
    assert_eq!(model.inspector.bindings[0].label, "Aspect set");
    assert_eq!(model.inspector.bindings[0].resource_title, "Standard");
    assert_eq!(model.inspector.bindings[0].mode, BindingMode::Follow);
    assert_eq!(model.inspector.active_aspect_set, Some(ids.aspect_set_standard));
    assert_eq!(model.capabilities.len(), 4);
    assert_eq!(model.capabilities[0].availability, Availability::Enabled);
    assert_eq!(model.capabilities[1].availability.disabled_reason(), Some("Begin an Aspect Set edit before saving"));
    assert_eq!(model.capabilities[2].availability.disabled_reason(), Some("There is no draft to cancel"));
    assert_eq!(model.capabilities[3].availability.disabled_reason(), Some("The active view is already computing"));
}

#[test]
fn read_model_before_initialization_has_only_status() {
    let session: Session<u32> = Session::new(bootstrap_ids().workspace);
    let model = session.read_model().expect("model");
    assert_eq!(model.status, ApplicationStatus::Initializing);
    assert!(model.library.charts.is_empty());
    assert!(model.capabilities.is_empty());
}

#[test]
fn projection_versions_increase_by_one_per_transition() {
    let mut session = ready_session();
    let ids = bootstrap_ids();
    let mut version = session.version;
    commit(&mut session, AppIntent::ActivateChart { instance_id: ids.chart_instance_a });
    assert_eq!(session.version, version + 1);
    version = session.version;
    session.dispatch(AppIntent::BeginAspectSetEdit { resource_id: standard_id() }).expect("edit");
    assert_eq!(session.version, version + 1);
    version = session.version;
    let refused = session.dispatch(AppIntent::SaveDraft).expect_err("clean draft");
    assert_eq!(refused.kind, AppErrorKind::InvalidIntent);
    assert_eq!(refused.message, "Only a dirty Aspect Set draft can be saved");
    assert_eq!(session.version, version);
}

#[test]
fn pinned_references_are_ordered_and_distinct() {
    let ids = bootstrap_ids();
    let mut pinned_workspace = bootstrap_workspace();
    pinned_workspace.profile.aspects =
        ResourceBinding::Pinned { id: ids.aspect_set_tight, revision: Revision::initial() };
    pinned_workspace.profile.displayed_points =
        ResourceBinding::Pinned { id: ids.aspect_set_standard, revision: Revision::new(3).expect("revision") };
    pinned_workspace.profile.transit_points =
        ResourceBinding::Pinned { id: ids.aspect_set_standard, revision: Revision::new(3).expect("revision") };
    let mut resources = bootstrap_resources();
    resources.pop();
    resources.push(CanonicalResource::Workspace(ResourceEnvelope::with_id(ids.workspace, "Pinned", pinned_workspace, now())));
    let (catalog, next_timestamp) = astra::catalog::Catalog::from_resources(resources);
    assert_eq!(next_timestamp, 2);
    let pins: Vec<(u128, u64)> =
        catalog.pinned_references().iter().map(|(id, revision)| (id.as_u128(), revision.get())).collect();
    assert_eq!(pins, vec![(ids.aspect_set_standard.as_u128(), 3), (ids.aspect_set_tight.as_u128(), 1)]);
}

#[test]
fn effective_configuration_previews_the_draft_and_hides_points() {
    let mut session = ready_session();
    let ids = bootstrap_ids();
    session.dispatch(AppIntent::BeginAspectSetEdit { resource_id: standard_id() }).expect("edit");
    session
        .dispatch(AppIntent::UpdateAspectSetDraft(AspectSetDraftMutation::SetOrb {
            aspect_id: AspectId::new("conjunction").expect("id"),
            maximum: angle(9.5),
        }))
        .expect("update");
    let definition = session.catalog.chart_definition(ids.chart_definition_a).expect("definition");
    let mut view = session.workspace().expect("workspace").views[0].deep_copy();
    let configuration = session.effective_configuration(definition, &view).expect("configuration");
    assert_eq!(configuration.aspect_set.layer, ResolutionLayer::EditorPreview);
    assert_eq!(configuration.aspect_set.value.aspects[0].orbs.maximum, angle(9.5));
    assert_eq!(configuration.aspect_set.revision, Some(Revision::initial()));
    assert_eq!(configuration.displayed_points.layer, ResolutionLayer::Inline);
    assert_eq!(configuration.displayed_points.value.points.len(), 6);
    view.overrides.hidden_points.push(PointId::new("moon").expect("point"));
    let configuration = session.effective_configuration(definition, &view).expect("configuration");
    assert_eq!(configuration.displayed_points.layer, ResolutionLayer::ViewOverride);
    assert_eq!(configuration.displayed_points.value.points.len(), 5);
    assert_eq!(configuration.calculation, CalculationSpec::default());
}

#[derive(Clone, Copy)]
enum ViewDocumentBinding {
    Inline,
    Follow,
    Pinned,
}

fn view_document_id() -> ResourceId {
    ResourceId::from_u128(0x1700_0000_0000_4000_8000_0000_0000_0001)
}

/// A ready session whose view document is inline, followed, or pinned to its first revision
/// while the current revision has every slot's requirement flipped.
fn session_with_view_document(binding: ViewDocumentBinding) -> Session<u32> {
    let ids = bootstrap_ids();
    let mut resources = bootstrap_resources();
    let mut pinned = None;
    if !matches!(binding, ViewDocumentBinding::Inline) {
        let mut payload = bootstrap_workspace();
        let ResourceBinding::Inline { value: document } = &payload.views[0].document else {
            panic!("bootstrap ViewDocument is inline");
        };
        let first = ResourceEnvelope::with_id(
            view_document_id(),
            "Close repair ViewDocument",
            document.clone(),
            Timestamp::from_unix_millis(30),
        );
        let (current, document_binding) = match binding {
            ViewDocumentBinding::Follow => (
                first.clone(),
                ResourceBinding::Follow { id: view_document_id() },
            ),
            _ => {
                let mut flipped = first.payload.clone();
                for slot in &mut flipped.chart_slots {
                    slot.required = !slot.required;
                }
                let current = first
                    .next_with_payload(flipped, Timestamp::from_unix_millis(31))
                    .expect("current ViewDocument revision is valid");
                pinned = Some(first.clone());
                (current, ResourceBinding::Pinned { id: view_document_id(), revision: first.revision })
            }
        };
        payload.views[0].document = document_binding;
        let last = resources.len() - 1;
        resources[last] = CanonicalResource::Workspace(ResourceEnvelope::with_id(
            ids.workspace,
            "Astra Workspace",
            payload,
            now(),
        ));
        resources.push(CanonicalResource::ViewDocument(current));
    }
    let mut library = HydratedLibrary::from_resources(resources);
    if let Some(first) = pinned {
        library.add_pinned(CanonicalResource::ViewDocument(first));
    }
    let mut session = Session::new(ids.workspace);
    session.initialize(Ok(library)).expect("initialization advances");
    assert_eq!(session.status, ApplicationStatus::Ready);
    session
}

fn assert_close_repair_uses_resolved_view_document(mut session: Session<u32>) {
    let ids = bootstrap_ids();
    let initial = session.read_model().expect("read model");
    let view_id = initial.workspace.active_view.expect("active view");
    let view = initial.active_view.expect("active view projection");
    let required = view.slots.iter().find(|slot| slot.required).expect("required slot").slot.clone();
    let optional = view.slots.iter().find(|slot| !slot.required).expect("optional slot").slot.clone();
    assert_eq!(required.as_str(), "radix");
    assert_eq!(optional.as_str(), "comparison");

    commit(&mut session, AppIntent::OpenChart { resource_id: ids.chart_definition_b });
    let neighbor = session.workspace().expect("workspace").active_chart.expect("chart B is active");
    commit(&mut session, AppIntent::SetChartSelection { instance_id: ids.chart_instance_a, selected: true });
    commit(&mut session, AppIntent::ActivateChart { instance_id: ids.chart_instance_a });
    commit(
        &mut session,
        AppIntent::AssignChartSlot { view_id, slot: optional.clone(), chart: Some(ids.chart_instance_a) },
    );
    commit(&mut session, AppIntent::CloseChart { instance_id: ids.chart_instance_a });

    let closed = session.read_model().expect("read model");
    assert!(closed.workspace.charts.iter().all(|chart| chart.instance_id != ids.chart_instance_a));
    assert!(!closed.workspace.selected_charts.contains(&ids.chart_instance_a));
    assert_eq!(closed.workspace.active_chart, Some(neighbor));
    let view = closed.active_view.expect("active view remains");
    assert_eq!(
        view.slots.iter().find(|slot| slot.slot == required).expect("required slot remains").chart,
        Some(neighbor)
    );
    assert_eq!(view.slots.iter().find(|slot| slot.slot == optional).expect("optional slot remains").chart, None);
}

#[test]
fn close_chart_repairs_required_and_optional_slots_for_inline_view_document() {
    assert_close_repair_uses_resolved_view_document(session_with_view_document(ViewDocumentBinding::Inline));
}

#[test]
fn close_chart_repairs_required_and_optional_slots_for_follow_view_document() {
    assert_close_repair_uses_resolved_view_document(session_with_view_document(ViewDocumentBinding::Follow));
}

#[test]
fn close_chart_uses_exact_pinned_view_document_revision_for_slot_repair() {
    assert_close_repair_uses_resolved_view_document(session_with_view_document(ViewDocumentBinding::Pinned));
}

#[test]
fn workspace_intents_are_refused_while_a_view_document_cannot_be_resolved() {
    let ids = bootstrap_ids();
    let mut resources = bootstrap_resources();
    let mut payload = bootstrap_workspace();
    let missing = ResourceId::from_u128(0x42);
    payload.views[0].document = ResourceBinding::Follow { id: missing };
    let last = resources.len() - 1;
    resources[last] =
        CanonicalResource::Workspace(ResourceEnvelope::with_id(ids.workspace, "Astra Workspace", payload, now()));
    let mut session = Session::<u32>::new(ids.workspace);
    session
        .initialize(Ok(HydratedLibrary::from_resources(resources)))
        .expect("initialization advances");
    let error = session
        .dispatch(AppIntent::SetChartSelection { instance_id: ids.chart_instance_a, selected: true })
        .expect_err("refused");
    assert_eq!(error.kind, AppErrorKind::NotFound);
    assert_eq!(
        error.message,
        format!(
            "ViewDocument for view {} could not be resolved: followed resource {} was not found",
            ids.view.to_string(),
            missing.to_string()
        )
    );
    assert!(session.workspace().expect("workspace").selected_charts.is_empty());
}

#[test]
fn every_workspace_intent_persists_documented_semantics() {
    let mut session = ready_session();
    let ids = bootstrap_ids();
    let initial = session.read_model().expect("read model");
    let view_id = initial.workspace.active_view.expect("active view");
    let active = initial.active_view.as_ref().expect("active view");
    let required_slot = active.slots.iter().find(|slot| slot.required).expect("required slot").slot.clone();
    let optional_slot = active.slots.iter().find(|slot| !slot.required).expect("optional slot").slot.clone();

    commit(&mut session, AppIntent::OpenChart { resource_id: ids.chart_definition_b });
    let opened = session.read_model().expect("read model");
    let chart_b = opened.workspace.active_chart.expect("opened chart is active");
    assert_eq!(opened.workspace.selected_charts, initial.workspace.selected_charts);

    commit(&mut session, AppIntent::SetChartSelection { instance_id: ids.chart_instance_a, selected: true });
    let selected = session.read_model().expect("read model");
    assert_eq!(selected.workspace.active_chart, Some(chart_b));
    assert_eq!(selected.workspace.selected_charts, vec![ids.chart_instance_a]);

    commit(&mut session, AppIntent::ActivateChart { instance_id: ids.chart_instance_a });
    let activated = session.read_model().expect("read model");
    assert_eq!(activated.workspace.active_chart, Some(ids.chart_instance_a));
    assert_eq!(activated.workspace.selected_charts, vec![ids.chart_instance_a]);

    commit(&mut session, AppIntent::AssignChartSlot { view_id, slot: optional_slot, chart: Some(chart_b) });
    let assigned = session.read_model().expect("read model");
    assert!(assigned
        .active_view
        .as_ref()
        .expect("active view")
        .slots
        .iter()
        .any(|slot| !slot.required && slot.chart == Some(chart_b)));

    commit(&mut session, AppIntent::SetActiveView { view_id });
    commit(&mut session, AppIntent::SetWorkspaceAspectSet { resource_id: ids.aspect_set_tight });
    let tight = session.read_model().expect("read model");
    assert_eq!(tight.inspector.active_aspect_set, Some(ids.aspect_set_tight));

    commit(&mut session, AppIntent::CloseChart { instance_id: ids.chart_instance_a });
    let closed = session.read_model().expect("read model");
    assert_eq!(closed.workspace.active_chart, Some(chart_b));
    assert!(!closed.workspace.selected_charts.contains(&ids.chart_instance_a));
    let view = closed.active_view.expect("active view");
    assert_eq!(view.slots.iter().find(|slot| slot.slot == required_slot).expect("required slot").chart, Some(chart_b));

    let persisted = session.catalog.workspace(ids.workspace).expect("workspace revision").payload.deep_copy();
    let mut resources = bootstrap_resources();
    let last = resources.len() - 1;
    resources[last] =
        CanonicalResource::Workspace(ResourceEnvelope::with_id(ids.workspace, "Astra Workspace", persisted, now()));
    let mut reloaded = Session::<u32>::new(ids.workspace);
    reloaded
        .initialize(Ok(HydratedLibrary::from_resources(resources)))
        .expect("initialization advances");
    let restored = reloaded.read_model().expect("read model");
    assert_eq!(restored.workspace.active_chart, Some(chart_b));
    assert_eq!(restored.inspector.active_aspect_set, Some(ids.aspect_set_tight));
    assert_eq!(restored.workspace.charts.len(), 1);
}

#[test]
fn a_view_is_calculated_for_its_first_assigned_required_slot() {
    let session = ready_session();
    let ids = bootstrap_ids();
    let source = session.scene_source(ids.view).expect("source");
    assert_eq!(source.chart, ids.chart_instance_a);
    assert_eq!(source.definition.id, ids.chart_definition_a);
    assert_eq!(source.record.id, ids.chart_record_a);
    assert_eq!(source.view.id, ids.view);
    let error = session.scene_source(ViewInstanceId::from_u128(5)).expect_err("unknown view");
    assert_eq!(error.kind, AppErrorKind::ViewComputation);
    assert_eq!(error.message, "View 00000000-0000-0000-0000-000000000005 was not found in the workspace");
}

#[test]
fn a_view_without_a_required_chart_is_calculated_for_its_first_assigned_slot() {
    let mut session = ready_session();
    let ids = bootstrap_ids();
    commit(&mut session, AppIntent::CloseChart { instance_id: ids.chart_instance_a });
    let error = session.scene_source(ids.view).expect_err("no chart");
    assert_eq!(error.kind, AppErrorKind::ViewComputation);
    assert_eq!(error.message, "The active view has no assigned chart");
    commit(&mut session, AppIntent::OpenChart { resource_id: ids.chart_definition_b });
    let chart_b = session.workspace().expect("workspace").active_chart.expect("chart B");
    commit(&mut session, AppIntent::AssignChartSlot { view_id: ids.view, slot: slot("comparison"), chart: Some(chart_b) });
    let source = session.scene_source(ids.view).expect("source");
    assert_eq!(source.chart, chart_b);
    assert_eq!(source.record.id, ids.chart_record_b);
}

#[test]
fn every_waiter_on_an_older_version_is_told_to_publish() {
    let mut session = ready_session();
    let ids = bootstrap_ids();
    let seen = session.version;
    assert!(matches!(session.wait_step(seen), Ok(WaitStep::CompletePending)));
    let refused = session.wait_step(seen + 1).expect_err("future version");
    assert_eq!(refused.kind, AppErrorKind::InvalidIntent);
    assert_eq!(refused.message, "Cannot wait after future projection 3; current projection is 2");
    commit(&mut session, AppIntent::ActivateChart { instance_id: ids.chart_instance_a });
    for _ in 0..3 {
        assert!(matches!(session.wait_step(seen), Ok(WaitStep::Publish)));
    }
    assert!(matches!(session.wait_step(seen - 1), Ok(WaitStep::Publish)));
    let first = session.read_model().expect("projection");
    let second = session.read_model().expect("projection");
    assert_eq!(first.workspace, second.workspace);
    assert_eq!(first.notice, second.notice);
    while session.take_next_pending().is_some() {}
    assert!(matches!(session.wait_step(session.version), Ok(WaitStep::AwaitChange)));
}
