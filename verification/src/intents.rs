use vstd::prelude::*;

use crate::binding::{resolution_message, resolve_typed_binding, spec_resolve, BindingResolutionError};
use crate::catalog::Catalog;
use crate::command::Command;
use crate::copy::DeepCopy;
use crate::ids::{is_random_uuid, uuid_text, ChartSlotId, InstanceId, ResourceId, Revision, ViewInstanceId};
use crate::read_model::{AppError, AppErrorKind, AppIntent, ApplicationStatus};
use crate::resource::{CanonicalResource, ResourceEnvelope};
use crate::session::{has_pending_save, concat3, info, not_found, not_found_message, refresh_queued_on, runtimes_follow, Session};
use crate::view::{slot_texts, ChartSlot, ViewDocument, ViewInstance};
use crate::workspace::Workspace;
use crate::workspace_commands::{
    apply_workspace_command, command_applied, command_error_message, is_first_view, views_wf,
    WorkspaceCommandError,
};
use crate::copy::copies_of;
use crate::ids::Timestamp;
use crate::read_model::AppNoticeKind;

verus! {

/// What a workspace intent asks of the workspace: the command, whether the active view is
/// recomputed once the command is persisted, whether an open draft is closed, and the notice.
#[derive(Debug)]
pub struct WorkspacePlan {
    pub command: Command,
    pub refresh: bool,
    pub clear_editor: bool,
    pub notice: &'static str,
}

/// Position of the first view with identity `id`.
pub fn find_view(views: &Vec<ViewInstance>, id: ViewInstanceId) -> (r: Option<usize>)
    ensures
        r matches Some(i) ==> is_first_view(views@, id, i as int),
        r is None ==> forall|j: int| 0 <= j < views@.len() ==> (#[trigger] views@[j]).id != id,
{
    let mut i: usize = 0;
    while i < views.len()
        invariant
            i <= views@.len(),
            forall|j: int| 0 <= j < i ==> (#[trigger] views@[j]).id != id,
        decreases views@.len() - i,
    {
        if views[i].id == id {
            return Some(i);
        }
        i += 1;
    }
    None
}

/// `i` is the first slot whose identity has the text `key`.
pub open spec fn is_first_slot(slots: Seq<ChartSlot>, key: Seq<char>, i: int) -> bool {
    &&& 0 <= i < slots.len()
    &&& slots[i].id@ == key
    &&& forall|j: int| 0 <= j < i ==> (#[trigger] slots[j]).id@ != key
}

/// Position of the first slot with identity `key`.
pub fn find_slot(slots: &Vec<ChartSlot>, key: &ChartSlotId) -> (r: Option<usize>)
    ensures
        r matches Some(i) ==> is_first_slot(slots@, key@, i as int),
        r is None ==> !slot_texts(slots@).contains(key@),
{
    let mut i: usize = 0;
    while i < slots.len()
        invariant
            i <= slots@.len(),
            forall|j: int| 0 <= j < i ==> (#[trigger] slots@[j]).id@ != key@,
        decreases slots@.len() - i,
    {
        if slots[i].id == *key {
            return Some(i);
        }
        i += 1;
    }
    proof {
        assert forall|j: int| 0 <= j < slot_texts(slots@).len() implies slot_texts(slots@)[j] != key@ by {
            assert(slot_texts(slots@)[j] == slots@[j].id@);
        }
    }
    None
}

/// `r` is the plan with exactly these parts.
pub open spec fn plan_is(
    r: Result<WorkspacePlan, AppError>,
    command: Command,
    refresh: bool,
    clear_editor: bool,
    notice: Seq<char>,
) -> bool {
    r matches Ok(p) && p.command == command && p.refresh == refresh && p.clear_editor == clear_editor
        && p.notice@ == notice
}

/// `r` is the error of this kind with this message.
pub open spec fn failed_with<T>(r: Result<T, AppError>, kind: AppErrorKind, message: Seq<char>) -> bool {
    r matches Err(e) && e.kind == kind && e.message@ == message
}

/// The plan a workspace intent owes against the workspace `workspace` with identity
/// `workspace_id`; an opened chart gets a fresh random instance identity.
pub open spec fn plan_for<S>(
    session: Session<S>,
    workspace_id: ResourceId,
    workspace: Workspace,
    intent: AppIntent,
    r: Result<WorkspacePlan, AppError>,
) -> bool {
    match intent {
        AppIntent::OpenChart { resource_id } => if session.catalog.spec_current(resource_id@) matches Some(
            CanonicalResource::ChartDefinition(_),
        ) {
            r matches Ok(p) && p.command matches Command::OpenSavedChart { workspace, definition, instance_id }
                && workspace == workspace_id && definition == resource_id && is_random_uuid(instance_id@)
                && !p.refresh && !p.clear_editor && p.notice@ == "Chart opened and activated; selection was preserved"@
        } else {
            failed_with(r, AppErrorKind::NotFound, not_found_message("ChartDefinition"@, resource_id))
        },
        AppIntent::CloseChart { instance_id } => plan_is(
            r,
            Command::CloseChart { workspace: workspace_id, instance_id },
            true,
            false,
            "Chart closed; selection and chart slots were repaired by workspace policy"@,
        ),
        AppIntent::ActivateChart { instance_id } => plan_is(
            r,
            Command::SetActiveChart { workspace: workspace_id, instance_id: Some(instance_id) },
            false,
            false,
            "Active chart changed; selection was preserved"@,
        ),
        AppIntent::SetChartSelection { instance_id, selected } => plan_is(
            r,
            Command::SetChartSelection { workspace: workspace_id, instance_id, selected },
            false,
            false,
            "Chart selection changed independently of activation"@,
        ),
        AppIntent::SetActiveView { view_id } => plan_is(
            r,
            Command::SetActiveView { workspace: workspace_id, view: Some(view_id) },
            true,
            false,
            "Active view changed and its projection is refreshing"@,
        ),
        AppIntent::AssignChartSlot { view_id, slot, chart } => if exists|vi: int| is_first_view(workspace.views@, view_id, vi) {
            let vi = choose|vi: int| is_first_view(workspace.views@, view_id, vi);
            match spec_resolve(workspace.views@[vi].document, session.catalog) {
                Err(e) => failed_with(r, AppErrorKind::NotFound, resolution_message(e)),
                Ok(document) => if !slot_texts(document.chart_slots@).contains(slot@) {
                    failed_with(r, AppErrorKind::NotFound, "Chart slot "@ + slot@ + " was not found"@)
                } else {
                    let si = choose|si: int| is_first_slot(document.chart_slots@, slot@, si);
                    if document.chart_slots@[si].required && chart is None {
                        failed_with(r, AppErrorKind::InvalidIntent, "A required chart slot cannot be cleared"@)
                    } else {
                        plan_is(
                            r,
                            Command::AssignChartSlot { workspace: workspace_id, view: view_id, slot, chart },
                            true,
                            false,
                            "Chart slot assignment persisted; the view is refreshing"@,
                        )
                    }
                },
            }
        } else {
            failed_with(r, AppErrorKind::NotFound, "View "@ + uuid_text(view_id@) + " was not found"@)
        },
        AppIntent::SetWorkspaceAspectSet { resource_id } => if session.catalog.spec_current(resource_id@) matches Some(
            CanonicalResource::AspectSet(_),
        ) {
            plan_is(
                r,
                Command::SetWorkspaceAspectSet { workspace: workspace_id, aspect_set: resource_id },
                true,
                true,
                "Workspace Aspect Set binding changed; analysis is refreshing"@,
            )
        } else {
            failed_with(r, AppErrorKind::NotFound, not_found_message("Aspect Set"@, resource_id))
        },
        _ => failed_with(r, AppErrorKind::InvalidIntent, "The intent is not a workspace persistence command"@),
    }
}

impl<S> Session<S> {
    /// The workspace command a workspace intent becomes. Intents that do not change the workspace
    /// are refused.
    pub fn command_for_intent(&self, workspace_id: ResourceId, workspace: &Workspace, intent: &AppIntent) -> (r: Result<
        WorkspacePlan,
        AppError,
    >)
        ensures
            plan_for(*self, workspace_id, *workspace, *intent, r),
    {
        self.hold_wf();
        match intent {
            AppIntent::OpenChart { resource_id } => {
                if self.catalog.chart_definition(*resource_id).is_none() {
                    return Err(not_found("ChartDefinition", *resource_id));
                }
                Ok(WorkspacePlan {
                    command: Command::OpenSavedChart {
                        workspace: workspace_id,
                        definition: *resource_id,
                        instance_id: InstanceId::new(),
                    },
                    refresh: false,
                    clear_editor: false,
                    notice: "Chart opened and activated; selection was preserved",
                })
            },
            AppIntent::CloseChart { instance_id } => Ok(WorkspacePlan {
                command: Command::CloseChart { workspace: workspace_id, instance_id: *instance_id },
                refresh: true,
                clear_editor: false,
                notice: "Chart closed; selection and chart slots were repaired by workspace policy",
            }),
            AppIntent::ActivateChart { instance_id } => Ok(WorkspacePlan {
                command: Command::SetActiveChart { workspace: workspace_id, instance_id: Some(*instance_id) },
                refresh: false,
                clear_editor: false,
                notice: "Active chart changed; selection was preserved",
            }),
            AppIntent::SetChartSelection { instance_id, selected } => Ok(WorkspacePlan {
                command: Command::SetChartSelection {
                    workspace: workspace_id,
                    instance_id: *instance_id,
                    selected: *selected,
                },
                refresh: false,
                clear_editor: false,
                notice: "Chart selection changed independently of activation",
            }),
            AppIntent::SetActiveView { view_id } => Ok(WorkspacePlan {
                command: Command::SetActiveView { workspace: workspace_id, view: Some(*view_id) },
                refresh: true,
                clear_editor: false,
                notice: "Active view changed and its projection is refreshing",
            }),
            AppIntent::AssignChartSlot { view_id, slot, chart } => {
                let vi = match find_view(&workspace.views, *view_id) {
                    Some(vi) => vi,
                    None => {
                        let id_text = view_id.to_string();
                        let message = concat3("View ", id_text.as_str(), " was not found");
                        return Err(AppError { kind: AppErrorKind::NotFound, message });
                    },
                };
                let document = match resolve_typed_binding(&workspace.views[vi].document, &self.catalog) {
                    Ok(resolved) => resolved.value,
                    Err(error) => return Err(AppError { kind: AppErrorKind::NotFound, message: error.to_string() }),
                };
                let si = match find_slot(&document.chart_slots, slot) {
                    Some(si) => si,
                    None => {
                        let message = concat3("Chart slot ", slot.as_str(), " was not found");
                        return Err(AppError { kind: AppErrorKind::NotFound, message });
                    },
                };
                proof {
                    assert(slot_texts(document.chart_slots@)[si as int] == slot@);
                    let chosen = choose|x: int| is_first_slot(document.chart_slots@, slot@, x);
                    assert(is_first_slot(document.chart_slots@, slot@, chosen));
                    assert(chosen == si);
                    let chosen_view = choose|x: int| is_first_view(workspace.views@, *view_id, x);
                    assert(is_first_view(workspace.views@, *view_id, chosen_view));
                    assert(chosen_view == vi);
                }
                if document.chart_slots[si].required && chart.is_none() {
                    return Err(AppError::new(AppErrorKind::InvalidIntent, "A required chart slot cannot be cleared"));
                }
                Ok(WorkspacePlan {
                    command: Command::AssignChartSlot {
                        workspace: workspace_id,
                        view: *view_id,
                        slot: slot.clone(),
                        chart: *chart,
                    },
                    refresh: true,
                    clear_editor: false,
                    notice: "Chart slot assignment persisted; the view is refreshing",
                })
            },
            AppIntent::SetWorkspaceAspectSet { resource_id } => {
                if self.catalog.aspect_set(*resource_id).is_none() {
                    return Err(not_found("Aspect Set", *resource_id));
                }
                Ok(WorkspacePlan {
                    command: Command::SetWorkspaceAspectSet { workspace: workspace_id, aspect_set: *resource_id },
                    refresh: true,
                    clear_editor: true,
                    notice: "Workspace Aspect Set binding changed; analysis is refreshing",
                })
            },
            _ => Err(AppError::new(AppErrorKind::InvalidIntent, "The intent is not a workspace persistence command")),
        }
    }
}

/// A workspace mutation ready to be persisted: the revision it was made from, the next revision,
/// and what follows once it is persisted. The next workspace's slot assignments are well formed.
#[derive(Debug)]
pub struct StagedWorkspace {
    pub(crate) expected_revision: Revision,
    pub(crate) next: ResourceEnvelope<Workspace>,
    pub(crate) refresh: bool,
    pub(crate) clear_editor: bool,
    pub(crate) notice: &'static str,
}

impl StagedWorkspace {
    #[verifier::type_invariant]
    closed spec fn slots_well_formed(self) -> bool {
        views_wf(self.next.payload.views@)
    }

    pub closed spec fn spec_expected_revision(self) -> Revision {
        self.expected_revision
    }

    pub closed spec fn spec_next(self) -> ResourceEnvelope<Workspace> {
        self.next
    }

    pub closed spec fn spec_refresh(self) -> bool {
        self.refresh
    }

    pub closed spec fn spec_clear_editor(self) -> bool {
        self.clear_editor
    }

    pub closed spec fn spec_notice(self) -> Seq<char> {
        self.notice@
    }

    /// The revision the repository must still hold for the save to succeed.
    pub fn expected_revision(&self) -> (r: Revision)
        ensures
            r == self.spec_expected_revision(),
    {
        self.expected_revision
    }

    /// The revision to persist.
    pub fn next(&self) -> (r: &ResourceEnvelope<Workspace>)
        ensures
            *r == self.spec_next(),
    {
        &self.next
    }

    /// Whether the active view is recomputed once the revision is persisted.
    pub fn refresh(&self) -> (r: bool)
        ensures
            r == self.spec_refresh(),
    {
        self.refresh
    }

    /// Whether an open Aspect Set draft is closed once the revision is persisted.
    pub fn clear_editor(&self) -> (r: bool)
        ensures
            r == self.spec_clear_editor(),
    {
        self.clear_editor
    }
}

/// `next` is the revision that follows `base`, with `payload`, written at time `at`.
pub open spec fn next_revision_of<T>(next: ResourceEnvelope<T>, base: ResourceEnvelope<T>, payload: T, at: i64) -> bool {
    &&& next.id == base.id
    &&& next.kind == base.kind
    &&& next.schema_version == base.schema_version
    &&& next.title@ == base.title@
    &&& next.description == base.description
    &&& next.tags@.map_values(|t: String| t@) == base.tags@.map_values(|t: String| t@)
    &&& next.revision@ == base.revision@ + 1
    &&& next.created_at == base.created_at
    &&& next.modified_at@ == at
    &&& next.payload == payload
}

/// The message for a view whose document cannot be resolved.
pub open spec fn unresolved_view_message(view: ViewInstanceId, error: BindingResolutionError) -> Seq<char> {
    "ViewDocument for view "@ + uuid_text(view@) + " could not be resolved: "@ + resolution_message(error)
}

/// `i` is the first view whose document the catalog cannot resolve.
pub open spec fn first_unresolved(views: Seq<ViewInstance>, catalog: Catalog, i: int) -> bool {
    &&& 0 <= i < views.len()
    &&& spec_resolve(views[i].document, catalog) is Err
    &&& forall|j: int| 0 <= j < i ==> spec_resolve((#[trigger] views[j]).document, catalog) is Ok
}

/// `documents` holds, view by view, a copy of the document each view's binding resolves to.
pub open spec fn resolved_documents(views: Seq<ViewInstance>, catalog: Catalog, documents: Seq<ViewDocument>) -> bool {
    &&& documents.len() == views.len()
    &&& forall|i: int| 0 <= i < views.len() ==> spec_resolve((#[trigger] views[i]).document, catalog) is Ok
        && documents[i].copy_of(spec_resolve(views[i].document, catalog)->Ok_0)
}

/// What resolving the documents of `views` owes: every document, or the report of the first view
/// whose document the catalog does not hold.
pub open spec fn documents_outcome(
    views: Seq<ViewInstance>,
    catalog: Catalog,
    r: Result<Vec<ViewDocument>, AppError>,
) -> bool {
    match r {
        Ok(documents) => resolved_documents(views, catalog, documents@),
        Err(e) => exists|i: int| #[trigger] first_unresolved(views, catalog, i) && e.kind == AppErrorKind::NotFound
            && e.message@ == unresolved_view_message(views[i].id, spec_resolve(views[i].document, catalog)->Err_0),
    }
}

/// Resolves the document of every view against the catalog, in the order of the views.
pub fn resolve_view_documents(views: &Vec<ViewInstance>, catalog: &Catalog) -> (r: Result<Vec<ViewDocument>, AppError>)
    ensures
        documents_outcome(views@, *catalog, r),
{
    proof {
        use_type_invariant(catalog);
    }
    let mut out: Vec<ViewDocument> = Vec::new();
    let mut i: usize = 0;
    while i < views.len()
        invariant
            catalog.wf(),
            i <= views@.len(),
            out@.len() == i,
            forall|j: int| 0 <= j < i ==> spec_resolve((#[trigger] views@[j]).document, *catalog) is Ok
                && out@[j].copy_of(spec_resolve(views@[j].document, *catalog)->Ok_0),
        decreases views@.len() - i,
    {
        match resolve_typed_binding(&views[i].document, catalog) {
            Ok(resolved) => {
                out.push(resolved.value.deep_copy());
            },
            Err(error) => {
                let mut message = concat3(
                    "ViewDocument for view ",
                    views[i].id.to_string().as_str(),
                    " could not be resolved: ",
                );
                message.append(error.to_string().as_str());
                proof {
                    assert(first_unresolved(views@, *catalog, i as int));
                }
                return Err(AppError { kind: AppErrorKind::NotFound, message });
            },
        }
        i += 1;
    }
    Ok(out)
}

/// What staging a workspace intent owes: the documents of the hydrated workspace's views are
/// resolved and the intent's plan is applied to a copy of the workspace; a refused plan, a view
/// document the catalog does not hold, or a refused command is reported, and otherwise the next
/// revision is staged.
pub open spec fn staged_for<S>(session: Session<S>, intent: AppIntent, r: Result<StagedWorkspace, AppError>) -> bool {
    match session.catalog.spec_current(session.workspace_id@) {
        Some(CanonicalResource::Workspace(envelope)) => exists|plan: Result<WorkspacePlan, AppError>|
            #[trigger] plan_for(session, session.workspace_id, envelope.payload, intent, plan) && match plan {
                Err(e) => r == Err::<StagedWorkspace, AppError>(e),
                Ok(p) => if exists|i: int| #[trigger] first_unresolved(envelope.payload.views@, session.catalog, i) {
                    exists|i: int| #[trigger] first_unresolved(envelope.payload.views@, session.catalog, i) && failed_with(
                        r,
                        AppErrorKind::NotFound,
                        unresolved_view_message(
                            envelope.payload.views@[i].id,
                            spec_resolve(envelope.payload.views@[i].document, session.catalog)->Err_0,
                        ),
                    )
                } else {
                    exists|documents: Seq<ViewDocument>, before: Workspace, after: Workspace, applied: Result<(), WorkspaceCommandError>|
                        resolved_documents(envelope.payload.views@, session.catalog, documents) && before.copy_of(envelope.payload)
                            && #[trigger] command_applied(session.workspace_id, before, after, p.command, documents, applied)
                            && match applied {
                        Err(e) => failed_with(r, AppErrorKind::InvalidIntent, command_error_message(e)),
                        Ok(_) => if envelope.revision@ < u64::MAX {
                            r matches Ok(s) && s.spec_expected_revision() == envelope.revision
                                && next_revision_of(s.spec_next(), envelope, after, session.next_timestamp)
                                && s.spec_refresh() == p.refresh && s.spec_clear_editor() == p.clear_editor
                                && s.spec_notice() == p.notice@
                        } else {
                            failed_with(r, AppErrorKind::InvalidIntent, "Workspace mutation was invalid: revision overflow"@)
                        },
                    }
                },
            },
        _ => failed_with(r, AppErrorKind::Unavailable, "No hydrated workspace is active"@),
    }
}

/// Copies of views hold well-formed slot assignments when the originals do.
pub proof fn lemma_copied_views_wf(copied: Seq<ViewInstance>, original: Seq<ViewInstance>)
    requires
        copies_of(copied, original),
        views_wf(original),
    ensures
        views_wf(copied),
{
    assert forall|i: int| 0 <= i < copied.len() implies (#[trigger] copied[i]).charts.wf() by {
        assert(copied[i].copy_of(original[i]));
        copied[i].charts.lemma_copy_of(original[i].charts);
    }
}

/// What persisting a staged workspace revision does to the session.
pub open spec fn committed<S>(before: Session<S>, after: Session<S>, staged: StagedWorkspace, r: Result<(), AppError>) -> bool {
    &&& after.catalog.spec_history() == before.catalog.spec_history().insert(
        (staged.spec_next().id@, staged.spec_next().revision@), CanonicalResource::Workspace(staged.spec_next()))
    &&& after.catalog.spec_heads() == before.catalog.spec_heads().insert(staged.spec_next().id@, staged.spec_next().revision@)
    &&& after.next_timestamp == (if before.next_timestamp < i64::MAX { before.next_timestamp + 1 } else { i64::MAX as int })
    &&& after.editor == (if staged.spec_clear_editor() { None } else { before.editor })
    &&& after.status == before.status
    &&& after.workspace_id == before.workspace_id
    &&& if staged.spec_refresh() {
        exists|views: Map<u128, crate::session::ViewRuntime<S>>| #[trigger] runtimes_follow(after.spec_workspace(), before.views@, views)
            && refresh_queued_on(after.spec_active_view(), views, before.pending@, after.views@, after.pending@)
    } else {
        runtimes_follow(after.spec_workspace(), before.views@, after.views@) && after.pending == before.pending
    }
    &&& after.notice matches Some(n) && n.kind == AppNoticeKind::Info && n.message@ == staged.spec_notice()
    &&& (r is Ok <==> before.version < u64::MAX)
    &&& r is Ok ==> after.version == before.version + 1
    &&& r is Err ==> after.version == before.version
}

impl<S> Session<S> {
    /// Turns a workspace intent into the next workspace revision without changing the session;
    /// the caller persists it and then commits it.
    pub fn stage_workspace_intent(&self, intent: &AppIntent) -> (r: Result<StagedWorkspace, AppError>)
        ensures
            staged_for(*self, *intent, r),
    {
        self.hold_wf();
        let envelope = match self.catalog.workspace(self.workspace_id) {
            Some(envelope) => envelope,
            None => return Err(AppError::new(AppErrorKind::Unavailable, "No hydrated workspace is active")),
        };
        let planned = self.command_for_intent(self.workspace_id, &envelope.payload, intent);
        let ghost plan_result = planned;
        let plan = match planned {
            Ok(plan) => plan,
            Err(error) => return Err(error),
        };
        let documents = match resolve_view_documents(&envelope.payload.views, &self.catalog) {
            Ok(documents) => documents,
            Err(error) => return Err(error),
        };
        let mut workspace = envelope.payload.deep_copy();
        let ghost before = workspace;
        proof {
            lemma_copied_views_wf(workspace.views@, envelope.payload.views@);
        }
        let WorkspacePlan { command, refresh, clear_editor, notice } = plan;
        let applied = apply_workspace_command(self.workspace_id, &mut workspace, command, &documents);
        let ghost after = workspace;
        match applied {
            Ok(()) => {},
            Err(error) => {
                let message = error.to_string();
                proof {
                    assert(command_applied(self.workspace_id, before, after, plan_result->Ok_0.command, documents@, applied));
                }
                return Err(AppError { kind: AppErrorKind::InvalidIntent, message });
            },
        }
        let next = match envelope.next_with_payload(workspace, Timestamp::from_unix_millis(self.next_timestamp)) {
            Ok(next) => next,
            Err(_) => {
                proof {
                    assert(command_applied(self.workspace_id, before, after, plan_result->Ok_0.command, documents@, applied));
                }
                return Err(AppError::new(AppErrorKind::InvalidIntent, "Workspace mutation was invalid: revision overflow"));
            },
        };
        proof {
            assert(command_applied(self.workspace_id, before, after, plan_result->Ok_0.command, documents@, applied));
        }
        Ok(StagedWorkspace { expected_revision: envelope.revision, next, refresh, clear_editor, notice })
    }

    /// Adopts a persisted workspace revision: it becomes current, the view runtimes follow its
    /// views, the active view is recomputed where the intent asked for it, and an open draft is
    /// closed where the intent replaced the Aspect Set.
    pub fn commit_workspace(&mut self, staged: StagedWorkspace) -> (r: Result<(), AppError>)
        ensures
            final(self).wf(),
            committed(*old(self), *final(self), staged, r),
    {
        self.hold_wf();
        proof {
            use_type_invariant(&staged);
        }
        let ghost staged_value = staged;
        let StagedWorkspace { next, refresh, clear_editor, notice, .. } = staged;
        if self.next_timestamp < i64::MAX {
            self.next_timestamp = self.next_timestamp + 1;
        }
        self.catalog.insert_current(CanonicalResource::Workspace(next));
        if clear_editor {
            self.editor = None;
        }
        self.ensure_view_runtimes();
        let ghost middle = *self;
        if refresh {
            self.queue_active_view_refresh();
        }
        self.notice = Some(info(notice));
        self.advance()
    }
}

/// Why the session refuses intents now; none when it accepts them.
pub open spec fn intent_block<S>(session: Session<S>) -> Option<Seq<char>> {
    if !(session.status is Ready) {
        Some("The application must be ready before it can accept intents"@)
    } else if has_pending_save(session.pending@) {
        Some("Wait for the pending Aspect Set save to finish"@)
    } else {
        None
    }
}

/// Whether an intent changes the workspace, and so has to be persisted.
pub open spec fn is_workspace_intent(intent: AppIntent) -> bool {
    ||| intent is OpenChart
    ||| intent is CloseChart
    ||| intent is ActivateChart
    ||| intent is SetChartSelection
    ||| intent is SetActiveView
    ||| intent is AssignChartSlot
    ||| intent is SetWorkspaceAspectSet
}

/// The outcome of a dispatch that stages nothing.
pub open spec fn settled_locally(r: Result<Option<StagedWorkspace>, AppError>) -> Result<(), AppError> {
    match r {
        Ok(_) => Ok(()),
        Err(e) => Err(e),
    }
}

/// What dispatching `intent` owes: refused while the session is not accepting intents; a
/// workspace intent is staged for persistence and leaves the session unchanged; any other
/// intent is carried out at once and stages nothing.
pub open spec fn dispatched<S>(
    before: Session<S>,
    after: Session<S>,
    intent: AppIntent,
    r: Result<Option<StagedWorkspace>, AppError>,
) -> bool {
    match intent_block(before) {
        Some(message) => failed_with(r, AppErrorKind::Unavailable, message) && after == before,
        None => if is_workspace_intent(intent) {
            &&& after == before
            &&& match r {
                Ok(Some(staged)) => staged_for(before, intent, Ok(staged)),
                Ok(None) => false,
                Err(e) => staged_for(before, intent, Err(e)),
            }
        } else {
            &&& !(r matches Ok(Some(_)))
            &&& match intent {
                AppIntent::BeginAspectSetEdit { resource_id } => Session::edit_begun(before, after, resource_id, settled_locally(r)),
                AppIntent::UpdateAspectSetDraft(mutation) => Session::draft_updated(before, after, mutation, settled_locally(r)),
                AppIntent::SaveDraft => Session::save_begun(before, after, settled_locally(r)),
                AppIntent::CancelDraft => Session::draft_canceled(before, after, settled_locally(r)),
                AppIntent::RefreshActiveView => Session::refresh_requested(before, after, settled_locally(r)),
                _ => false,
            }
        },
    }
}

impl<S> Session<S> {
    /// Refuses intents until the session is ready and while an Aspect Set save is pending.
    pub fn accepts_intents(&self) -> (r: Result<(), AppError>)
        ensures
            match intent_block(*self) {
                None => r is Ok,
                Some(message) => failed_with(r, AppErrorKind::Unavailable, message),
            },
    {
        match self.status {
            ApplicationStatus::Ready => {},
            _ => return Err(AppError::new(
                AppErrorKind::Unavailable,
                "The application must be ready before it can accept intents",
            )),
        }
        if self.save_pending() {
            return Err(AppError::new(AppErrorKind::Unavailable, "Wait for the pending Aspect Set save to finish"));
        }
        Ok(())
    }

    /// Accepts an intent. A workspace intent comes back staged: the caller persists the staged
    /// revision and then commits it. Every other intent is carried out here.
    pub fn dispatch(&mut self, intent: AppIntent) -> (r: Result<Option<StagedWorkspace>, AppError>)
        ensures
            final(self).wf(),
            dispatched(*old(self), *final(self), intent, r),
    {
        self.hold_wf();
        match self.accepts_intents() {
            Ok(()) => {},
            Err(error) => return Err(error),
        }
        match intent {
            AppIntent::BeginAspectSetEdit { resource_id } => match self.begin_aspect_set_edit(resource_id) {
                Ok(()) => Ok(None),
                Err(error) => Err(error),
            },
            AppIntent::UpdateAspectSetDraft(mutation) => match self.update_aspect_set_draft(mutation) {
                Ok(()) => Ok(None),
                Err(error) => Err(error),
            },
            AppIntent::SaveDraft => match self.begin_save_draft() {
                Ok(()) => Ok(None),
                Err(error) => Err(error),
            },
            AppIntent::CancelDraft => match self.cancel_draft() {
                Ok(()) => Ok(None),
                Err(error) => Err(error),
            },
            AppIntent::RefreshActiveView => match self.refresh_active_view() {
                Ok(()) => Ok(None),
                Err(error) => Err(error),
            },
            _ => match self.stage_workspace_intent(&intent) {
                Ok(staged) => Ok(Some(staged)),
                Err(error) => Err(error),
            },
        }
    }
}

} // verus!
