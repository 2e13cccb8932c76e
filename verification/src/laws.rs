use vstd::prelude::*;

use crate::binding::{spec_resolve, BoundPayload};
use crate::catalog::Catalog;
use crate::command::Command;
use crate::edit_buffer::{
    at_rest, begun, canceled, checked, committed_value, synchronized, typed, BufferState, BufferText,
};
use crate::decimal::{lemma_zero_padded, parsed_i32, parsed_u8, zero_padded, decimal_text};
use crate::entry::{
    coordinate_key, coordinates_for_key, date_entry, date_text, event_kind_for_key, event_kind_key,
    house_for_key, house_key, lemma_digits_lack_separators, lemma_split_first, lemma_split_single,
    time_entry, time_text,
};
use crate::chart::{CoordinateSystem, EventKind, HouseSystem};
use crate::time::{spec_days_in_month, spec_is_leap_year, valid_civil_date, valid_civil_time};
use crate::shortcuts::{spec_command_for_key, CommandId};
use crate::units::{ONE_HUNDRED_EIGHTY_DEGREES_BITS, SIGN_MASK};
use crate::validation::POSITIVE_INFINITY_BITS;
use crate::ids::is_white_space;
use crate::configuration::{configuration_of, EffectiveConfiguration};
use crate::chart::ChartDefinition;
use crate::view::{ViewDocument, ViewInstance};
use crate::ids::{InstanceId, ResourceId, Revision, ViewInstanceId};
use crate::lifecycle::{bootstrap_outcome, spec_wait_step, BootstrapHead, WaitStep};
use crate::intents::{committed, dispatched, is_workspace_intent, StagedWorkspace};
use crate::read_model::{AppError, AppIntent, AspectSetDraftMutation, Availability, CommandCapability, DraftState, ViewComputationState};
use crate::resource::{AspectSet, CanonicalResource, ResourceBinding, ResourceEnvelope, ResourceKind};
use crate::session::{has_pending_save, PendingWork, SaveOutcome, Session};
use crate::validation::DomainValidate;
use crate::workspace::{open_chart_ids, view_ids, Workspace};
use crate::workspace_commands::{
    close_outcome, command_applied, is_first_with_id, spec_required_slots, lemma_without_contains, repaired_active,
    selection_outcome, set_active_outcome, WorkspaceCommandError,
};

verus! {

/// Changing the selection never changes which chart is active, nor which charts are open.
pub proof fn law_selection_keeps_activation(
    workspace_id: ResourceId,
    before: Workspace,
    after: Workspace,
    target: ResourceId,
    instance_id: InstanceId,
    selected: bool,
    r: Result<(), WorkspaceCommandError>,
)
    requires
        selection_outcome(workspace_id, before, after, target, instance_id, selected, r),
    ensures
        after.active_chart == before.active_chart,
        after.chart_instances@ == before.chart_instances@,
{
}

/// Activating a chart never changes the selection, nor which charts are open.
pub proof fn law_activation_keeps_selection(
    workspace_id: ResourceId,
    before: Workspace,
    after: Workspace,
    target: ResourceId,
    instance_id: Option<InstanceId>,
    r: Result<(), WorkspaceCommandError>,
)
    requires
        set_active_outcome(workspace_id, before, after, target, instance_id, r),
    ensures
        after.selected_charts@ == before.selected_charts@,
        after.chart_instances@ == before.chart_instances@,
{
}

/// A command that succeeds leaves a valid workspace.
pub proof fn law_accepted_command_leaves_valid_workspace(
    workspace_id: ResourceId,
    before: Workspace,
    after: Workspace,
    command: Command,
    documents: Seq<ViewDocument>,
    r: Result<(), WorkspaceCommandError>,
)
    requires
        command_applied(workspace_id, before, after, command, documents, r),
        r is Ok,
    ensures
        after.domain_valid(),
{
}

/// A command refused by its own checks leaves the workspace as it was; only a command whose
/// result would be invalid may have changed the value it was applied to.
pub proof fn law_refused_command_changes_nothing(
    workspace_id: ResourceId,
    before: Workspace,
    after: Workspace,
    command: Command,
    documents: Seq<ViewDocument>,
    r: Result<(), WorkspaceCommandError>,
)
    requires
        command_applied(workspace_id, before, after, command, documents, r),
        r matches Err(e) && !(e is InvalidWorkspace),
    ensures
        after == before,
{
}

/// Closing an open chart of a valid workspace removes it from the open charts and from the
/// selection; where it was active, the chart that moved into its place becomes active, else the
/// one before it, else none. In every view, each required slot of the view's resolved document
/// that held the closed chart passes to the chart now active, and every other slot it held is
/// cleared.
pub proof fn law_close_removes_chart_and_repairs_activation(
    workspace_id: ResourceId,
    before: Workspace,
    after: Workspace,
    instance_id: InstanceId,
    documents: Seq<ViewDocument>,
    r: Result<(), WorkspaceCommandError>,
)
    requires
        before.domain_valid(),
        close_outcome(workspace_id, before, after, workspace_id, instance_id, documents, r),
        open_chart_ids(before.chart_instances@).contains(instance_id),
    ensures
        forall|i: int, k: Seq<char>|
            0 <= i < before.views@.len() && #[trigger] before.views@[i].charts.spec_map().dom().contains(k)
                && before.views@[i].charts.spec_map()[k] == instance_id ==> if spec_required_slots(documents[i]).contains(k)
                && after.active_chart is Some {
                after.views@[i].charts.spec_map().dom().contains(k) && after.views@[i].charts.spec_map()[k]
                    == after.active_chart->0
            } else {
                !after.views@[i].charts.spec_map().dom().contains(k)
            },
        !open_chart_ids(after.chart_instances@).contains(instance_id),
        !after.selected_charts@.contains(instance_id),
        exists|index: int| #[trigger] is_first_with_id(before.chart_instances@, instance_id, index)
            && before.active_chart == Some(instance_id) ==> after.active_chart == repaired_active(
            before.chart_instances@.remove(index),
            index,
        ),
{
    let index = choose|index: int| #[trigger] is_first_with_id(before.chart_instances@, instance_id, index) && {
        let charts = before.chart_instances@.remove(index);
        &&& after.chart_instances@ == charts
    };
    assert(is_first_with_id(before.chart_instances@, instance_id, index));
    let charts = before.chart_instances@.remove(index);
    assert(after.chart_instances@ == charts);
    lemma_without_contains(before.selected_charts@, instance_id, instance_id);
    if open_chart_ids(after.chart_instances@).contains(instance_id) {
        let k = choose|k: int| 0 <= k < open_chart_ids(after.chart_instances@).len()
            && open_chart_ids(after.chart_instances@)[k] == instance_id;
        let j = if k < index { k } else { k + 1 };
        assert(open_chart_ids(before.chart_instances@)[j] == instance_id);
        assert(open_chart_ids(before.chart_instances@)[index] == instance_id);
        assert(before.chart_instances@[j].spec_instance_id() == before.chart_instances@[index].spec_instance_id());
        assert(false);
    }
}

/// Reading after a write: a resource recorded as current is what the catalog holds for its
/// identity, and every other identity is unaffected.
pub proof fn law_current_after_write(before: Catalog, after: Catalog, resource: CanonicalResource, other: u128)
    requires
        after.spec_history() == before.spec_history().insert(
            (resource.spec_id()@, resource.spec_revision()@),
            resource,
        ),
        after.spec_heads() == before.spec_heads().insert(resource.spec_id()@, resource.spec_revision()@),
        other != resource.spec_id()@,
        before.wf(),
    ensures
        after.spec_current(resource.spec_id()@) == Some(resource),
        after.spec_current(other) == before.spec_current(other),
{
    if before.spec_heads().contains_key(other) {
        assert(before.spec_history().contains_key((other, before.spec_heads()[other])));
    }
}

/// A new revision of a resource leaves a pin to an older revision resolving exactly as before,
/// while a follow binding resolves to the new revision.
pub proof fn law_new_revision_keeps_pins<T: BoundPayload>(
    before: Catalog,
    after: Catalog,
    resource: CanonicalResource,
    pinned: Revision,
)
    requires
        before.wf(),
        after.spec_history() == before.spec_history().insert(
            (resource.spec_id()@, resource.spec_revision()@),
            resource,
        ),
        after.spec_heads() == before.spec_heads().insert(resource.spec_id()@, resource.spec_revision()@),
        pinned@ != resource.spec_revision()@,
    ensures
        spec_resolve::<T>(ResourceBinding::Pinned { id: resource.spec_id(), revision: pinned }, after)
            == spec_resolve::<T>(ResourceBinding::Pinned { id: resource.spec_id(), revision: pinned }, before),
        spec_resolve::<T>(ResourceBinding::Follow { id: resource.spec_id() }, after) == match T::spec_envelope(resource) {
            Some(e) => Ok::<T, crate::binding::BindingResolutionError>(e.payload),
            None => Err(crate::binding::BindingResolutionError::FollowedMissing { id: resource.spec_id() }),
        },
{
}

/// Settling a save that did not go through never loses the local draft: the draft and the
/// revision it was based on are kept.
pub proof fn law_unsaved_draft_is_kept<S>(
    before: Session<S>,
    after: Session<S>,
    expected_revision: Revision,
    next: ResourceEnvelope<AspectSet>,
    outcome: SaveOutcome,
    r: Result<(), AppError>,
)
    requires
        Session::save_settled(before, after, expected_revision, next, outcome, r),
        !(outcome is Saved),
        before.editor is Some,
    ensures
        after.editor is Some,
        after.editor->0.draft == before.editor->0.draft,
        after.editor->0.base == before.editor->0.base,
{
}

/// A saved revision becomes the current revision of its resource, and an editor open on that
/// resource becomes clean at that revision.
pub proof fn law_saved_revision_becomes_canonical<S>(
    before: Session<S>,
    after: Session<S>,
    expected_revision: Revision,
    next: ResourceEnvelope<AspectSet>,
    r: Result<(), AppError>,
)
    requires
        before.wf(),
        Session::save_settled(before, after, expected_revision, next, SaveOutcome::Saved, r),
    ensures
        after.catalog.spec_current(next.id@) == Some(CanonicalResource::AspectSet(next)),
        before.editor matches Some(e) && e.base.id == next.id ==> (after.editor matches Some(x)
            && x.state == (DraftState::Clean { revision: next.revision })),
{
}

/// While an Aspect Set save is pending, every intent is refused and nothing changes.
pub proof fn law_intents_wait_for_pending_save<S>(
    before: Session<S>,
    after: Session<S>,
    intent: AppIntent,
    r: Result<Option<StagedWorkspace>, crate::read_model::AppError>,
)
    requires
        dispatched(before, after, intent, r),
        has_pending_save(before.pending@),
    ensures
        r is Err,
        after == before,
{
}

/// A workspace intent changes nothing until its staged revision is persisted and committed.
pub proof fn law_workspace_intents_wait_for_persistence<S>(
    before: Session<S>,
    after: Session<S>,
    intent: AppIntent,
    r: Result<Option<StagedWorkspace>, crate::read_model::AppError>,
)
    requires
        dispatched(before, after, intent, r),
        is_workspace_intent(intent),
    ensures
        after == before,
{
}

/// Each dispatch raises the projection version by at most one and never lowers it.
pub proof fn law_dispatch_version_is_monotonic<S>(
    before: Session<S>,
    after: Session<S>,
    intent: AppIntent,
    r: Result<Option<StagedWorkspace>, crate::read_model::AppError>,
)
    requires
        dispatched(before, after, intent, r),
    ensures
        before.version <= after.version <= before.version + 1,
{
}

/// A committed workspace revision is the current revision of the workspace.
pub proof fn law_committed_workspace_is_current<S>(
    before: Session<S>,
    after: Session<S>,
    staged: StagedWorkspace,
    r: Result<(), AppError>,
)
    requires
        before.wf(),
        committed(before, after, staged, r),
    ensures
        after.catalog.spec_current(staged.spec_next().id@) == Some(CanonicalResource::Workspace(staged.spec_next())),
{
}

/// Saving is available exactly for a dirty draft, and canceling exactly for a dirty or
/// conflicted one.
pub proof fn law_save_and_cancel_availability<S>(session: Session<S>, capabilities: Seq<CommandCapability>)
    requires
        session.capabilities_of(capabilities),
    ensures
        capabilities[1].availability == Availability::Enabled <==> session.spec_editor_state() matches Some(
            DraftState::Dirty { .. },
        ),
        capabilities[2].availability == Availability::Enabled <==> (session.spec_editor_state() matches Some(
            DraftState::Dirty { .. },
        ) || session.spec_editor_state() matches Some(DraftState::Conflict { .. })),
{
}

/// Editing a clean draft makes it dirty against the revision it was opened from; a conflicted
/// draft stays in conflict.
pub proof fn law_edit_marks_draft_dirty<S>(
    before: Session<S>,
    after: Session<S>,
    mutation: AspectSetDraftMutation,
    r: Result<(), AppError>,
)
    requires
        Session::draft_updated(before, after, mutation, r),
        r is Ok,
    ensures
        before.editor matches Some(e) && e.state matches DraftState::Clean { revision } ==> (after.editor matches Some(x)
            && x.state == (DraftState::Dirty { base_revision: revision })),
        before.editor is Some && before.editor->0.state is Conflict ==> (after.editor matches Some(x)
            && x.state == before.editor->0.state),
{
}

/// While a draft of the workspace's Aspect Set is open, views are calculated with the draft,
/// attributed to the revision the draft started from.
pub proof fn law_analysis_previews_the_open_draft<S>(
    session: Session<S>,
    definition: ResourceEnvelope<ChartDefinition>,
    view: ViewInstance,
    configuration: EffectiveConfiguration,
)
    requires
        configuration_of(session, definition, view, configuration),
        session.editor is Some,
        session.spec_workspace()->0.profile.aspects.spec_id() == Some(session.editor->0.base.id),
    ensures
        configuration.aspect_set.value.aspects@ == session.editor->0.draft.aspects@,
        configuration.aspect_set.revision == Some(session.editor->0.state.spec_base_revision()),
{
}

/// A date of a year from 0 on, written for entry, reads back as the same date.
pub proof fn law_date_entry_reads_back_its_text(year: int, month: int, day: int)
    requires
        valid_civil_date(year, month, day),
        0 <= year <= 2_147_483_647,
    ensures
        date_entry(date_text(year, month, day)) == Ok::<(int, int, int), Seq<char>>((year, month, day)),
{
    let a = zero_padded(decimal_text(year), 4);
    let b = zero_padded(decimal_text(month), 2);
    let c = zero_padded(decimal_text(day), 2);
    lemma_zero_padded(year, 4);
    lemma_zero_padded(month, 2);
    lemma_zero_padded(day, 2);
    lemma_digits_lack_separators(a);
    lemma_digits_lack_separators(b);
    lemma_digits_lack_separators(c);
    let text = date_text(year, month, day);
    assert(text =~= a + seq!['-'] + (b + seq!['-'] + c));
    lemma_split_first(a, '-', b + seq!['-'] + c);
    lemma_split_first(b, '-', c);
    lemma_split_single(c, '-');
    assert(a.drop_first() =~= a.subrange(1, a.len() as int));
    assert(parsed_i32(a) == Some(year));
    assert(parsed_u8(b) == Some(month));
    assert(parsed_u8(c) == Some(day));
}

/// A time, written for entry, reads back as the same time.
pub proof fn law_time_entry_reads_back_its_text(hour: int, minute: int, second: int)
    requires
        valid_civil_time(hour, minute, second),
    ensures
        time_entry(time_text(hour, minute, second)) == Ok::<(int, int, int), Seq<char>>((hour, minute, second)),
{
    let a = zero_padded(decimal_text(hour), 2);
    let b = zero_padded(decimal_text(minute), 2);
    let c = zero_padded(decimal_text(second), 2);
    lemma_zero_padded(hour, 2);
    lemma_zero_padded(minute, 2);
    lemma_zero_padded(second, 2);
    lemma_digits_lack_separators(a);
    lemma_digits_lack_separators(b);
    lemma_digits_lack_separators(c);
    let text = time_text(hour, minute, second);
    assert(text =~= a + seq![':'] + (b + seq![':'] + c));
    lemma_split_first(a, ':', b + seq![':'] + c);
    lemma_split_first(b, ':', c);
    lemma_split_single(c, ':');
    assert(parsed_u8(a) == Some(hour));
    assert(parsed_u8(b) == Some(minute));
    assert(parsed_u8(c) == Some(second));
}

/// Every house system is read back from the key it is offered under.
pub proof fn law_house_keys_read_back(value: HouseSystem)
    ensures
        house_for_key(house_key(value)) == Some(value),
{
    reveal_strlit("no_houses");
    reveal_strlit("equal");
    reveal_strlit("placidus");
    reveal_strlit("whole_sign");
    assert("equal"@.len() != "no_houses"@.len());
    assert("placidus"@.len() != "no_houses"@.len());
    assert("placidus"@.len() != "equal"@.len());
    assert("whole_sign"@.len() != "no_houses"@.len());
    assert("whole_sign"@.len() != "equal"@.len());
    assert("whole_sign"@.len() != "placidus"@.len());
}

/// Every coordinate system is read back from the key it is offered under.
pub proof fn law_coordinate_keys_read_back(value: CoordinateSystem)
    ensures
        coordinates_for_key(coordinate_key(value)) == Some(value),
{
    reveal_strlit("geocentric");
    reveal_strlit("topocentric");
    reveal_strlit("heliocentric");
    assert("topocentric"@.len() != "geocentric"@.len());
    assert("heliocentric"@.len() != "geocentric"@.len());
    assert("heliocentric"@.len() != "topocentric"@.len());
}

/// Every named event kind is read back from its key; the key shared by free-form kinds reads
/// as none.
pub proof fn law_event_kind_keys_read_back(value: EventKind)
    ensures
        !(value is Other) ==> event_kind_for_key(event_kind_key(value)) == Some(value),
        value is Other ==> event_kind_for_key(event_kind_key(value)) is None,
{
    reveal_strlit("birth");
    reveal_strlit("event");
    reveal_strlit("ingress");
    reveal_strlit("question");
    reveal_strlit("other");
    assert("event"@[0] != "birth"@[0]);
    assert("ingress"@.len() != "birth"@.len());
    assert("ingress"@.len() != "event"@.len());
    assert("question"@.len() != "birth"@.len());
    assert("question"@.len() != "event"@.len());
    assert("question"@.len() != "ingress"@.len());
    assert("other"@[0] != "birth"@[0]);
    assert("other"@[0] != "event"@[0]);
    assert("other"@.len() != "ingress"@.len());
    assert("other"@.len() != "question"@.len());
}

/// Reading the buffer, whatever it reads, never touches the authoritative value; an edit that
/// is dropped leaves the buffer showing the authoritative value it began from.
pub proof fn law_invalid_entry_never_replaces_authoritative<T: BufferText>(
    state: BufferState<T>,
    text: Seq<char>,
    outcome: Result<T, Seq<char>>,
)
    ensures
        checked(state, outcome).authoritative == state.authoritative,
        canceled(checked(typed(begun(state), text), outcome)) == at_rest(state.authoritative),
{
}

/// A new authoritative value from elsewhere keeps the text of an edit under way, and is shown
/// once the edit is dropped; with no edit under way it is shown at once.
pub proof fn law_synchronization_respects_edits<T: BufferText>(state: BufferState<T>, value: T)
    ensures
        state.editing ==> synchronized(state, value).buffer == state.buffer
            && synchronized(state, value).authoritative == value,
        canceled(synchronized(state, value)) == at_rest(value),
        !state.editing ==> synchronized(state, value) == at_rest(value),
{
}

/// A committed value is shown and ends the edit, so a later value from elsewhere replaces it
/// at once.
pub proof fn law_commit_ends_the_edit<T: BufferText>(state: BufferState<T>, value: T, remote: T)
    ensures
        committed_value(state, value) == at_rest(value),
        synchronized(committed_value(state, value), remote) == at_rest(remote),
{
}

/// Bootstrapping is idempotent: a missing resource is created once, and the resource it
/// created is kept, not created again, on the next start.
pub proof fn law_bootstrap_is_idempotent(
    id: ResourceId,
    kind: ResourceKind,
    first: Result<bool, AppError>,
    second: Result<bool, AppError>,
)
    requires
        bootstrap_outcome(id, kind, BootstrapHead::Missing, first),
        bootstrap_outcome(id, kind, BootstrapHead::Present(kind), second),
    ensures
        first == Ok::<bool, AppError>(true),
        second == Ok::<bool, AppError>(false),
{
}

/// Previewing a draft keeps the last good scene of the active view on screen while it
/// refreshes, with its computation first in the queue; once that computation delivers a scene,
/// the view shows it, fresh.
pub proof fn law_preview_keeps_last_scene_until_recomputed<S>(
    before: Session<S>,
    previewing: Session<S>,
    after: Session<S>,
    mutation: AspectSetDraftMutation,
    updated: Result<(), AppError>,
    view_id: ViewInstanceId,
    scene: S,
)
    requires
        Session::draft_updated(before, previewing, mutation, updated),
        updated is Ok,
        before.spec_active_view() == Some(view_id),
        before.views@.contains_key(view_id@),
        before.views@[view_id@].scene is Some,
        Session::view_completed(previewing, after, view_id, Ok::<S, AppError>(scene)),
    ensures
        previewing.views@[view_id@].scene == before.views@[view_id@].scene,
        previewing.views@[view_id@].computation == ViewComputationState::Refreshing,
        previewing.pending@[0] == (PendingWork::ComputeView { view_id }),
        after.views@[view_id@].scene == Some(scene),
        after.views@[view_id@].computation == ViewComputationState::Fresh,
{
}

/// Closing a chart repairs slots by the resolved documents alone: two workspaces that differ
/// only in how their views' documents are bound (inline, followed or pinned) give the same
/// result when their views resolve to the same documents.
pub proof fn law_close_repair_depends_only_on_resolved_documents(
    workspace_id: ResourceId,
    first: Workspace,
    second: Workspace,
    first_after: Workspace,
    second_after: Workspace,
    instance_id: InstanceId,
    documents: Seq<ViewDocument>,
    first_result: Result<(), WorkspaceCommandError>,
    second_result: Result<(), WorkspaceCommandError>,
)
    requires
        first.chart_instances@ == second.chart_instances@,
        first.active_chart == second.active_chart,
        first.selected_charts@ == second.selected_charts@,
        first.active_view == second.active_view,
        first.views@.len() == second.views@.len(),
        forall|i: int| 0 <= i < first.views@.len() ==> (#[trigger] first.views@[i]).id == second.views@[i].id
            && first.views@[i].charts.spec_map() == second.views@[i].charts.spec_map(),
        close_outcome(workspace_id, first, first_after, workspace_id, instance_id, documents, first_result),
        close_outcome(workspace_id, second, second_after, workspace_id, instance_id, documents, second_result),
    ensures
        first_result is Ok <==> second_result is Ok,
        first_after.chart_instances@ == second_after.chart_instances@,
        first_after.active_chart == second_after.active_chart,
        first_after.selected_charts@ == second_after.selected_charts@,
        forall|i: int| 0 <= i < first_after.views@.len() ==> (#[trigger] first_after.views@[i]).charts.spec_map()
            == second_after.views@[i].charts.spec_map(),
{
    if open_chart_ids(first.chart_instances@).contains(instance_id) {
        let i1 = choose|index: int| #[trigger] is_first_with_id(first.chart_instances@, instance_id, index) && {
            let charts = first.chart_instances@.remove(index);
            &&& first_after.chart_instances@ == charts
        };
        let i2 = choose|index: int| #[trigger] is_first_with_id(second.chart_instances@, instance_id, index) && {
            let charts = second.chart_instances@.remove(index);
            &&& second_after.chart_instances@ == charts
        };
        assert(is_first_with_id(first.chart_instances@, instance_id, i1));
        assert(is_first_with_id(second.chart_instances@, instance_id, i2));
        assert(i1 == i2) by {
            if i1 < i2 {
                assert(second.chart_instances@[i1].spec_instance_id() != instance_id);
            } else if i2 < i1 {
                assert(first.chart_instances@[i2].spec_instance_id() != instance_id);
            }
        }
        assert(view_ids(first_after.views@) =~= view_ids(second_after.views@)) by {
            assert forall|i: int| 0 <= i < view_ids(first_after.views@).len() implies view_ids(first_after.views@)[i]
                == view_ids(second_after.views@)[i] by {
                assert(first_after.views@[i].id == first.views@[i].id);
                assert(second_after.views@[i].id == second.views@[i].id);
                assert(first.views@[i].id == second.views@[i].id);
            }
        }
    }
}

/// A refresh that is accepted puts the active view's computation first in the queue, keeping
/// its last scene while it refreshes; once the computation delivers a scene, the view shows it,
/// fresh.
pub proof fn law_refresh_recomputes_the_scene<S>(
    before: Session<S>,
    refreshing: Session<S>,
    after: Session<S>,
    requested: Result<(), AppError>,
    view_id: ViewInstanceId,
    scene: S,
)
    requires
        Session::refresh_requested(before, refreshing, requested),
        requested is Ok,
        before.spec_active_view() == Some(view_id),
        Session::view_completed(refreshing, after, view_id, Ok::<S, AppError>(scene)),
    ensures
        before.views@.contains_key(view_id@),
        refreshing.views@[view_id@].scene == before.views@[view_id@].scene,
        refreshing.pending@[0] == (PendingWork::ComputeView { view_id }),
        after.views@[view_id@].scene == Some(scene),
        after.views@[view_id@].computation == ViewComputationState::Fresh,
{
}

/// Waking is a broadcast: once the projection has moved past a version, every waiter that had
/// seen it, or an earlier one, is told to publish, however many there are; deciding so reads the
/// session and consumes nothing, so each publishes the read model of the same state.
pub proof fn law_a_change_wakes_every_waiter<S>(session: Session<S>, seen: Seq<u64>)
    requires
        forall|i: int| 0 <= i < seen.len() ==> #[trigger] seen[i] < session.version,
    ensures
        forall|i: int| 0 <= i < seen.len() ==> spec_wait_step(session, #[trigger] seen[i]) == Some(WaitStep::Publish),
{
}

/// A waiter on the current version is never told to publish: it completes pending work, or,
/// with none left, waits for the next change.
pub proof fn law_waiting_on_the_current_version_holds<S>(session: Session<S>)
    ensures
        spec_wait_step(session, session.version) == (if session.pending@.len() == 0 {
            Some(WaitStep::AwaitChange)
        } else {
            Some(WaitStep::CompletePending)
        }),
{
}

/// Closing a chart that is not the active one never changes which chart is active: activation
/// is repaired only when the active chart itself closes.
pub proof fn law_closing_an_inactive_chart_keeps_the_active_one(
    workspace_id: ResourceId,
    before: Workspace,
    after: Workspace,
    closed: InstanceId,
    documents: Seq<ViewDocument>,
    r: Result<(), WorkspaceCommandError>,
)
    requires
        command_applied(
            workspace_id,
            before,
            after,
            Command::CloseChart { workspace: workspace_id, instance_id: closed },
            documents,
            r,
        ),
        before.active_chart != Some(closed),
    ensures
        after.active_chart == before.active_chart,
{
}

/// A valid Aspect Set keeps every maximum orb within a half turn: each is a binary64 between
/// zero (of either sign) and 180 degrees, so a larger orb is refused by validation.
pub proof fn law_valid_aspect_orbs_lie_within_a_half_turn(set: AspectSet, i: int)
    requires
        set.domain_valid(),
        0 <= i < set.aspects@.len(),
    ensures
        set.aspects@[i].orbs.maximum.spec_bits() == SIGN_MASK
            || set.aspects@[i].orbs.maximum.spec_bits() <= ONE_HUNDRED_EIGHTY_DEGREES_BITS,
        set.aspects@[i].angle.spec_bits() == SIGN_MASK
            || set.aspects@[i].angle.spec_bits() <= ONE_HUNDRED_EIGHTY_DEGREES_BITS,
{
    assert(crate::resource::aspect_valid(set.aspects@[i]));
}

/// Refreshing is offered exactly when a refresh request would be accepted: where the capability
/// is enabled the request queues a computation, and where it is disabled the request is refused
/// and changes nothing. It is enabled exactly for an active view with a runtime that is not
/// already loading or refreshing.
pub proof fn law_refresh_is_offered_exactly_when_accepted<S>(
    session: Session<S>,
    capabilities: Seq<CommandCapability>,
    after: Session<S>,
    r: Result<(), AppError>,
)
    requires
        session.capabilities_of(capabilities),
        Session::refresh_requested(session, after, r),
    ensures
        capabilities[3].availability == Availability::Enabled <==> (session.spec_active_view() matches Some(v)
            && session.views@.contains_key(v@) && !(session.views@[v@].computation is Loading)
            && !(session.views@[v@].computation is Refreshing)),
        capabilities[3].availability == Availability::Enabled ==> Session::refresh_queued(session, after),
        capabilities[3].availability != Availability::Enabled ==> r is Err && after == session,
{
}

/// Month lengths follow the Gregorian calendar: counting along the knuckles, January to July
/// alternate 31 and 30 starting with 31, August to December alternate starting again with 31,
/// and February has 29 days in a leap year and 28 otherwise.
pub proof fn law_month_lengths_follow_the_knuckles(year: int, month: int)
    requires
        1 <= month <= 12,
    ensures
        month != 2 && month <= 7 ==> spec_days_in_month(year, month) == (if month % 2 == 1 { 31int } else { 30int }),
        month >= 8 ==> spec_days_in_month(year, month) == (if month % 2 == 0 { 31int } else { 30int }),
        month == 2 ==> spec_days_in_month(year, month) == (if spec_is_leap_year(year) { 29int } else { 28int }),
        valid_civil_date(year, month, 30) <==> month != 2,
{
}

/// Outside text entry, Escape cancels the draft, whatever the modifiers; while typing, only the
/// save shortcut acts, so normal entry is preserved.
pub proof fn law_escape_cancels_outside_text_entry(primary_modifier: bool, alt_modifier: bool, key: Seq<char>)
    ensures
        spec_command_for_key("Escape"@, primary_modifier, alt_modifier, false) == Some(CommandId::CancelDraft),
        spec_command_for_key("Escape"@, primary_modifier, alt_modifier, true) is None,
        spec_command_for_key(key, primary_modifier, alt_modifier, true) is None
            || spec_command_for_key(key, primary_modifier, alt_modifier, true) == Some(CommandId::SaveDraft),
{
    reveal_strlit("Escape");
    assert("Escape"@.len() == 6);
}

/// Closing the active chart activates the chart that followed it in the open charts, else the
/// one before it, else none; the closed chart is never left active.
pub proof fn law_closing_the_active_chart_activates_a_neighbour(
    workspace_id: ResourceId,
    before: Workspace,
    after: Workspace,
    closed: InstanceId,
    index: int,
    documents: Seq<ViewDocument>,
    r: Result<(), WorkspaceCommandError>,
)
    requires
        command_applied(
            workspace_id,
            before,
            after,
            Command::CloseChart { workspace: workspace_id, instance_id: closed },
            documents,
            r,
        ),
        before.active_chart == Some(closed),
        is_first_with_id(before.chart_instances@, closed, index),
    ensures
        after.active_chart == (if index + 1 < before.chart_instances@.len() {
            Some(before.chart_instances@[index + 1].spec_instance_id())
        } else if index > 0 {
            Some(before.chart_instances@[index - 1].spec_instance_id())
        } else {
            None
        }),
{
    assert(open_chart_ids(before.chart_instances@)[index] == closed);
    let found = choose|k: int| #[trigger] is_first_with_id(before.chart_instances@, closed, k) && {
        let charts = before.chart_instances@.remove(k);
        let active = if before.active_chart == Some(closed) {
            repaired_active(charts, k)
        } else {
            before.active_chart
        };
        &&& after.chart_instances@ == charts
        &&& after.active_chart == active
    };
    if found < index {
        assert(before.chart_instances@[found].spec_instance_id() == closed);
    } else if found > index {
        assert(before.chart_instances@[index].spec_instance_id() == closed);
    }
    assert(found == index);
}

/// An Aspect Set is valid exactly when its aspect identities are distinct and every aspect has a
/// name with a visible character, an angle and a maximum orb between zero and 180 degrees, and a
/// positive finite applying multiplier.
pub proof fn law_aspect_set_validity(set: AspectSet)
    ensures
        set.domain_valid() <==> {
            &&& forall|a: int, b: int| 0 <= a < b < set.aspects@.len() ==> #[trigger] set.aspects@[a].id@
                != #[trigger] set.aspects@[b].id@
            &&& forall|i: int| 0 <= i < set.aspects@.len() ==> {
                let aspect = #[trigger] set.aspects@[i];
                &&& exists|k: int| 0 <= k < aspect.name@.len() && !is_white_space(#[trigger] aspect.name@[k])
                &&& (aspect.angle.spec_bits() == SIGN_MASK || aspect.angle.spec_bits() <= ONE_HUNDRED_EIGHTY_DEGREES_BITS)
                &&& (aspect.orbs.maximum.spec_bits() == SIGN_MASK
                    || aspect.orbs.maximum.spec_bits() <= ONE_HUNDRED_EIGHTY_DEGREES_BITS)
                &&& 0 < aspect.orbs.applying_multiplier.bits < POSITIVE_INFINITY_BITS
            }
        },
{
    let ids = crate::resource::aspect_id_texts(set.aspects@);
    let distinct = forall|a: int, b: int| 0 <= a < b < set.aspects@.len() ==> #[trigger] set.aspects@[a].id@
        != #[trigger] set.aspects@[b].id@;
    if crate::resource::has_duplicate_text(ids) {
        let (a, b) = choose|a: int, b: int| 0 <= a < b < ids.len() && ids[a] == ids[b];
        assert(set.aspects@[a].id@ == set.aspects@[b].id@);
        assert(!distinct);
    } else {
        assert forall|a: int, b: int| 0 <= a < b < set.aspects@.len() implies #[trigger] set.aspects@[a].id@
            != #[trigger] set.aspects@[b].id@ by {
            assert(ids[a] == set.aspects@[a].id@);
            assert(ids[b] == set.aspects@[b].id@);
        }
    }
    assert forall|i: int| 0 <= i < set.aspects@.len() implies (crate::resource::aspect_valid(#[trigger] set.aspects@[i])
        <==> {
        let aspect = set.aspects@[i];
        &&& exists|k: int| 0 <= k < aspect.name@.len() && !is_white_space(#[trigger] aspect.name@[k])
        &&& (aspect.angle.spec_bits() == SIGN_MASK || aspect.angle.spec_bits() <= ONE_HUNDRED_EIGHTY_DEGREES_BITS)
        &&& (aspect.orbs.maximum.spec_bits() == SIGN_MASK
            || aspect.orbs.maximum.spec_bits() <= ONE_HUNDRED_EIGHTY_DEGREES_BITS)
        &&& 0 < aspect.orbs.applying_multiplier.bits < POSITIVE_INFINITY_BITS
    }) by {
        let name = set.aspects@[i].name@;
        if !crate::ids::is_blank(name) {
            let k = choose|k: int| !(0 <= k < name.len() ==> is_white_space(#[trigger] name[k]));
            assert(0 <= k < name.len() && !is_white_space(name[k]));
        }
    }
}

/// The Gregorian leap rule, seen through February: a 29th of February exists exactly in years
/// divisible by 4, except centuries not divisible by 400.
pub proof fn law_february_has_a_29th_exactly_in_leap_years(year: int)
    ensures
        year % 4 != 0 ==> !valid_civil_date(year, 2, 29),
        year % 4 == 0 && year % 100 != 0 ==> valid_civil_date(year, 2, 29),
        year % 400 == 0 ==> valid_civil_date(year, 2, 29),
        year % 100 == 0 && year % 400 != 0 ==> !valid_civil_date(year, 2, 29),
        !valid_civil_date(year, 2, 30),
        valid_civil_date(year, 2, 28),
{
}

/// The save shortcut works in either case, also while typing; outside text entry Alt 1 focuses
/// the chart rail and the primary modifier with R refreshes; a key without a shortcut does
/// nothing.
pub proof fn law_shortcuts_reach_their_commands(alt_modifier: bool, typing: bool, key: Seq<char>)
    ensures
        spec_command_for_key(seq!['s'], true, alt_modifier, typing) == Some(CommandId::SaveDraft),
        spec_command_for_key(seq!['S'], true, alt_modifier, typing) == Some(CommandId::SaveDraft),
        spec_command_for_key(seq!['1'], false, true, false) == Some(CommandId::FocusChartRail),
        spec_command_for_key(seq!['r'], true, false, false) == Some(CommandId::RefreshView),
        spec_command_for_key(seq!['R'], true, false, false) == Some(CommandId::RefreshView),
        !(key =~= "Escape"@) ==> spec_command_for_key(key, false, false, typing) is None,
{
    reveal_strlit("Escape");
    assert(!(seq!['r'] =~= seq!['s']) && !(seq!['r'] =~= seq!['S'])) by {
        assert(seq!['r'][0] != seq!['s'][0] && seq!['r'][0] != seq!['S'][0]);
    }
    assert(!(seq!['R'] =~= seq!['s']) && !(seq!['R'] =~= seq!['S'])) by {
        assert(seq!['R'][0] != seq!['s'][0] && seq!['R'][0] != seq!['S'][0]);
    }
    assert(!(seq!['r'] =~= "Escape"@) && !(seq!['R'] =~= "Escape"@) && !(seq!['1'] =~= "Escape"@));
}

/// Beginning an Aspect Set edit is offered exactly while no save is under way and the workspace
/// Aspect Set is bound to a library resource.
pub proof fn law_begin_edit_availability<S>(session: Session<S>, capabilities: Seq<CommandCapability>)
    requires
        session.capabilities_of(capabilities),
    ensures
        capabilities[0].availability == Availability::Enabled <==> (!(session.spec_editor_state() matches Some(
            DraftState::Saving { .. },
        )) && (session.spec_workspace() matches Some(w) && w.profile.aspects.spec_id() is Some)),
{
}

} // verus!
