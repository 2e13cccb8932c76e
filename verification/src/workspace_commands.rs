use vstd::prelude::*;

use crate::chart::ChartDefinition;
use crate::command::Command;
use crate::ids::{uuid_text, ChartSlotId, InstanceId, ResourceId, ViewInstanceId};
use crate::resource::ResourceBinding;
use crate::slots::lists_text;
use crate::validation::{validation_message, DomainValidate, DomainValidationError};
use crate::view::{required_slot_texts, slot_listed, slot_texts, ViewDocument, ViewInstance};
use crate::workspace::{chart_is_open, open_chart_ids, view_exists, view_ids, Workspace, WorkspaceChart};

verus! {

/// Why a workspace command was refused.
#[derive(Debug, PartialEq, Eq)]
pub enum WorkspaceCommandError {
    WorkspaceMismatch { expected: ResourceId, actual: ResourceId },
    ChartNotOpen(InstanceId),
    DuplicateInstance(InstanceId),
    ViewNotFound(ViewInstanceId),
    SlotNotFound(String),
    InvalidWorkspace(DomainValidationError),
    NotWorkspaceCommand,
}

/// A refused workspace command as the user reads it.
pub open spec fn command_error_message(error: WorkspaceCommandError) -> Seq<char> {
    match error {
        WorkspaceCommandError::WorkspaceMismatch { expected, actual } => "command targets workspace "@
            + uuid_text(actual@) + ", but the active workspace is "@ + uuid_text(expected@),
        WorkspaceCommandError::ChartNotOpen(id) => "chart instance "@ + uuid_text(id@) + " is not open"@,
        WorkspaceCommandError::DuplicateInstance(id) => "chart instance "@ + uuid_text(id@) + " already exists"@,
        WorkspaceCommandError::ViewNotFound(id) => "view "@ + uuid_text(id@) + " was not found"@,
        WorkspaceCommandError::SlotNotFound(slot) => "chart slot "@ + slot@ + " was not found"@,
        WorkspaceCommandError::InvalidWorkspace(error) => "workspace command produced invalid state: "@
            + validation_message(error),
        WorkspaceCommandError::NotWorkspaceCommand => "resource persistence command was sent to the workspace handler"@,
    }
}

impl WorkspaceCommandError {
    /// The refusal as the user reads it.
    pub fn to_string(&self) -> (r: String)
        ensures
            r@ == command_error_message(*self),
    {
        match self {
            WorkspaceCommandError::WorkspaceMismatch { expected, actual } => {
                let mut text = "command targets workspace ".to_owned();
                text.append(actual.to_string().as_str());
                text.append(", but the active workspace is ");
                text.append(expected.to_string().as_str());
                text
            },
            WorkspaceCommandError::ChartNotOpen(id) => {
                let mut text = "chart instance ".to_owned();
                text.append(id.to_string().as_str());
                text.append(" is not open");
                text
            },
            WorkspaceCommandError::DuplicateInstance(id) => {
                let mut text = "chart instance ".to_owned();
                text.append(id.to_string().as_str());
                text.append(" already exists");
                text
            },
            WorkspaceCommandError::ViewNotFound(id) => {
                let mut text = "view ".to_owned();
                text.append(id.to_string().as_str());
                text.append(" was not found");
                text
            },
            WorkspaceCommandError::SlotNotFound(slot) => {
                let mut text = "chart slot ".to_owned();
                text.append(slot.as_str());
                text.append(" was not found");
                text
            },
            WorkspaceCommandError::InvalidWorkspace(error) => {
                let mut text = "workspace command produced invalid state: ".to_owned();
                text.append(error.to_string().as_str());
                text
            },
            WorkspaceCommandError::NotWorkspaceCommand => "resource persistence command was sent to the workspace handler".to_owned(),
        }
    }
}

/// Every view's slot assignments are well formed.
pub open spec fn views_wf(views: Seq<ViewInstance>) -> bool {
    forall|i: int| 0 <= i < views.len() ==> (#[trigger] views[i]).charts.wf()
}

/// Every view's slot assignments are well formed, as their type keeps them.
pub fn views_hold_wf(views: &Vec<ViewInstance>)
    ensures
        views_wf(views@),
{
    let mut i: usize = 0;
    while i < views.len()
        invariant
            i <= views@.len(),
            forall|j: int| 0 <= j < i ==> (#[trigger] views@[j]).charts.wf(),
        decreases views@.len() - i,
    {
        let view = &views[i];
        proof {
            use_type_invariant(&view.charts);
        }
        i += 1;
    }
}

/// The views keep their identities, documents and overrides, in order.
pub open spec fn views_keep_shape(before: Seq<ViewInstance>, after: Seq<ViewInstance>) -> bool {
    &&& before.len() == after.len()
    &&& forall|i: int| 0 <= i < before.len() ==> {
        &&& (#[trigger] after[i]).id == before[i].id
        &&& after[i].document == before[i].document
        &&& after[i].overrides == before[i].overrides
    }
}

/// Only the open charts, the active chart and the selection may have changed.
pub open spec fn only_charts_changed(before: Workspace, after: Workspace) -> bool {
    &&& after.views == before.views
    &&& after.active_view == before.active_view
    &&& after.profile == before.profile
}

/// The outcome owed once a command's own checks have passed: success exactly when the
/// resulting workspace is valid.
pub open spec fn settled(after: Workspace, r: Result<(), WorkspaceCommandError>) -> bool {
    if after.domain_valid() {
        r is Ok
    } else {
        r matches Err(WorkspaceCommandError::InvalidWorkspace(_))
    }
}

/// The error owed where a command names another workspace.
pub open spec fn mismatch(workspace_id: ResourceId, target: ResourceId) -> WorkspaceCommandError {
    WorkspaceCommandError::WorkspaceMismatch { expected: workspace_id, actual: target }
}

/// Whether `chart` is a saved chart of `definition`.
pub open spec fn saved_of(chart: WorkspaceChart, definition: ResourceId) -> bool {
    match chart {
        WorkspaceChart::Saved { definition: d, .. } => d == definition,
        WorkspaceChart::Ephemeral { .. } => false,
    }
}

/// `i` is the first index of a saved chart of `definition`.
pub open spec fn is_first_saved(charts: Seq<WorkspaceChart>, definition: ResourceId, i: int) -> bool {
    &&& 0 <= i < charts.len()
    &&& saved_of(charts[i], definition)
    &&& forall|j: int| 0 <= j < i ==> !saved_of(#[trigger] charts[j], definition)
}

/// Index of the first saved chart of `definition`, if any.
pub open spec fn first_saved_index(charts: Seq<WorkspaceChart>, definition: ResourceId) -> Option<int> {
    if exists|i: int| #[trigger] is_first_saved(charts, definition, i) {
        Some(choose|i: int| #[trigger] is_first_saved(charts, definition, i))
    } else {
        None
    }
}

/// Index of the first open chart with identity `id`.
pub open spec fn is_first_with_id(charts: Seq<WorkspaceChart>, id: InstanceId, i: int) -> bool {
    &&& 0 <= i < charts.len()
    &&& charts[i].spec_instance_id() == id
    &&& forall|j: int| 0 <= j < i ==> (#[trigger] charts[j]).spec_instance_id() != id
}

/// Refuses a command that targets another workspace.
pub fn ensure_workspace(actual: ResourceId, requested: ResourceId) -> (r: Result<(), WorkspaceCommandError>)
    ensures
        r is Ok <==> actual == requested,
        r matches Err(e) ==> e == mismatch(actual, requested),
{
    if actual == requested {
        Ok(())
    } else {
        Err(WorkspaceCommandError::WorkspaceMismatch { expected: actual, actual: requested })
    }
}

/// Refuses an identity that is not an open chart.
pub fn ensure_chart_open(workspace: &Workspace, instance_id: InstanceId) -> (r: Result<(), WorkspaceCommandError>)
    ensures
        r is Ok <==> open_chart_ids(workspace.chart_instances@).contains(instance_id),
        r matches Err(e) ==> e == WorkspaceCommandError::ChartNotOpen(instance_id),
{
    if chart_is_open(&workspace.chart_instances, instance_id) {
        Ok(())
    } else {
        Err(WorkspaceCommandError::ChartNotOpen(instance_id))
    }
}

/// Refuses an identity that is already an open chart.
pub fn ensure_instance_missing(workspace: &Workspace, instance_id: InstanceId) -> (r: Result<(), WorkspaceCommandError>)
    ensures
        r is Ok <==> !open_chart_ids(workspace.chart_instances@).contains(instance_id),
        r matches Err(e) ==> e == WorkspaceCommandError::DuplicateInstance(instance_id),
{
    if chart_is_open(&workspace.chart_instances, instance_id) {
        Err(WorkspaceCommandError::DuplicateInstance(instance_id))
    } else {
        Ok(())
    }
}

/// Refuses an identity that is not a view of the workspace.
pub fn ensure_view_exists(workspace: &Workspace, view_id: ViewInstanceId) -> (r: Result<(), WorkspaceCommandError>)
    ensures
        r is Ok <==> view_ids(workspace.views@).contains(view_id),
        r matches Err(e) ==> e == WorkspaceCommandError::ViewNotFound(view_id),
{
    if view_exists(&workspace.views, view_id) {
        Ok(())
    } else {
        Err(WorkspaceCommandError::ViewNotFound(view_id))
    }
}

fn finish(workspace: &Workspace) -> (r: Result<(), WorkspaceCommandError>)
    ensures
        settled(*workspace, r),
{
    match workspace.domain_validate() {
        Ok(()) => Ok(()),
        Err(error) => Err(WorkspaceCommandError::InvalidWorkspace(error)),
    }
}

/// What opening a saved chart owes: a chart of the same definition already open becomes active;
/// otherwise a new instance is appended and becomes active. The selection is untouched.
pub open spec fn open_saved_outcome(
    workspace_id: ResourceId,
    before: Workspace,
    after: Workspace,
    target: ResourceId,
    definition: ResourceId,
    instance_id: InstanceId,
    r: Result<(), WorkspaceCommandError>,
) -> bool {
    if target != workspace_id {
        r == Err::<(), WorkspaceCommandError>(mismatch(workspace_id, target)) && after == before
    } else {
        &&& match first_saved_index(before.chart_instances@, definition) {
            Some(i) => after.chart_instances@ == before.chart_instances@ && after.active_chart == Some(
                before.chart_instances@[i].spec_instance_id(),
            ),
            None => after.chart_instances@ == before.chart_instances@.push(
                WorkspaceChart::Saved { instance_id, definition },
            ) && after.active_chart == Some(instance_id),
        }
        &&& after.selected_charts@ == before.selected_charts@
        &&& only_charts_changed(before, after)
        &&& settled(after, r)
    }
}

fn open_saved_chart(
    workspace_id: ResourceId,
    workspace: &mut Workspace,
    target: ResourceId,
    definition: ResourceId,
    instance_id: InstanceId,
) -> (r: Result<(), WorkspaceCommandError>)
    ensures
        open_saved_outcome(workspace_id, *old(workspace), *final(workspace), target, definition, instance_id, r),
{
    ensure_workspace(workspace_id, target)?;
    let mut existing: Option<InstanceId> = None;
    let mut i: usize = 0;
    while i < workspace.chart_instances.len()
        invariant
            i <= workspace.chart_instances@.len(),
            existing is None ==> forall|j: int| 0 <= j < i ==> !saved_of(#[trigger] workspace.chart_instances@[j], definition),
            existing matches Some(id) ==> exists|k: int| #[trigger] is_first_saved(workspace.chart_instances@, definition, k)
                && workspace.chart_instances@[k].spec_instance_id() == id,
        decreases workspace.chart_instances@.len() - i,
    {
        if existing.is_none() {
            match &workspace.chart_instances[i] {
                WorkspaceChart::Saved { instance_id: candidate_id, definition: candidate } => {
                    if *candidate == definition {
                        existing = Some(*candidate_id);
                        assert(is_first_saved(workspace.chart_instances@, definition, i as int));
                    }
                },
                WorkspaceChart::Ephemeral { .. } => {},
            }
        }
        i += 1;
    }
    proof {
        let charts = workspace.chart_instances@;
        if existing is None {
            assert forall|k: int| !#[trigger] is_first_saved(charts, definition, k) by {}
        } else {
            let k = choose|k: int| #[trigger] is_first_saved(charts, definition, k)
                && charts[k].spec_instance_id() == existing->0;
            let c = choose|i: int| #[trigger] is_first_saved(charts, definition, i);
            if c < k {
                assert(!saved_of(charts[c], definition));
            }
            if k < c {
                assert(!saved_of(charts[k], definition));
            }
            assert(c == k);
        }
    }
    match existing {
        Some(id) => {
            workspace.active_chart = Some(id);
        },
        None => {
            workspace.chart_instances.push(WorkspaceChart::Saved { instance_id, definition });
            workspace.active_chart = Some(instance_id);
        },
    }
    finish(workspace)
}

/// What opening an unsaved chart owes: a fresh identity is appended and becomes active.
pub open spec fn open_ephemeral_outcome(
    workspace_id: ResourceId,
    before: Workspace,
    after: Workspace,
    target: ResourceId,
    definition: Box<ChartDefinition>,
    instance_id: InstanceId,
    r: Result<(), WorkspaceCommandError>,
) -> bool {
    if target != workspace_id {
        r == Err::<(), WorkspaceCommandError>(mismatch(workspace_id, target)) && after == before
    } else if open_chart_ids(before.chart_instances@).contains(instance_id) {
        r == Err::<(), WorkspaceCommandError>(WorkspaceCommandError::DuplicateInstance(instance_id)) && after == before
    } else {
        &&& after.chart_instances@ == before.chart_instances@.push(
            WorkspaceChart::Ephemeral { instance_id, definition },
        )
        &&& after.active_chart == Some(instance_id)
        &&& after.selected_charts@ == before.selected_charts@
        &&& only_charts_changed(before, after)
        &&& settled(after, r)
    }
}

fn open_ephemeral_chart(
    workspace_id: ResourceId,
    workspace: &mut Workspace,
    target: ResourceId,
    definition: Box<ChartDefinition>,
    instance_id: InstanceId,
) -> (r: Result<(), WorkspaceCommandError>)
    ensures
        open_ephemeral_outcome(workspace_id, *old(workspace), *final(workspace), target, definition, instance_id, r),
{
    ensure_workspace(workspace_id, target)?;
    ensure_instance_missing(workspace, instance_id)?;
    workspace.chart_instances.push(WorkspaceChart::Ephemeral { instance_id, definition });
    workspace.active_chart = Some(instance_id);
    finish(workspace)
}

/// What activating a chart owes: it must be open (or none be named); selection is untouched.
pub open spec fn set_active_outcome(
    workspace_id: ResourceId,
    before: Workspace,
    after: Workspace,
    target: ResourceId,
    instance_id: Option<InstanceId>,
    r: Result<(), WorkspaceCommandError>,
) -> bool {
    if target != workspace_id {
        r == Err::<(), WorkspaceCommandError>(mismatch(workspace_id, target)) && after == before
    } else if instance_id matches Some(id) && !open_chart_ids(before.chart_instances@).contains(id) {
        r == Err::<(), WorkspaceCommandError>(WorkspaceCommandError::ChartNotOpen(instance_id->0)) && after == before
    } else {
        &&& after.chart_instances@ == before.chart_instances@
        &&& after.active_chart == instance_id
        &&& after.selected_charts@ == before.selected_charts@
        &&& only_charts_changed(before, after)
        &&& settled(after, r)
    }
}

fn set_active_chart(
    workspace_id: ResourceId,
    workspace: &mut Workspace,
    target: ResourceId,
    instance_id: Option<InstanceId>,
) -> (r: Result<(), WorkspaceCommandError>)
    ensures
        set_active_outcome(workspace_id, *old(workspace), *final(workspace), target, instance_id, r),
{
    ensure_workspace(workspace_id, target)?;
    match instance_id {
        Some(id) => ensure_chart_open(workspace, id)?,
        None => {},
    }
    workspace.active_chart = instance_id;
    finish(workspace)
}

/// The selection after (de)selecting `id`: selecting appends it unless present; deselecting
/// removes every occurrence.
pub open spec fn spec_selection(selected: Seq<InstanceId>, id: InstanceId, select: bool) -> Seq<InstanceId> {
    if select {
        if selected.contains(id) { selected } else { selected.push(id) }
    } else {
        without(selected, id)
    }
}

/// `s` with every occurrence of `x` removed, order kept.
pub open spec fn without<A>(s: Seq<A>, x: A) -> Seq<A>
    decreases s.len(),
{
    if s.len() == 0 {
        s
    } else if s.last() == x {
        without(s.drop_last(), x)
    } else {
        without(s.drop_last(), x).push(s.last())
    }
}

pub proof fn lemma_without_contains<A>(s: Seq<A>, x: A, y: A)
    ensures
        without(s, x).contains(y) <==> (s.contains(y) && y != x),
    decreases s.len(),
{
    if s.len() > 0 {
        let p = s.drop_last();
        let w = without(p, x);
        lemma_without_contains(p, x, y);
        assert(s =~= p.push(s.last()));
        assert(s.contains(y) <==> (p.contains(y) || s.last() == y)) by {
            if s.contains(y) {
                let i = choose|i: int| 0 <= i < s.len() && s[i] == y;
                if i < p.len() {
                    assert(p[i] == y);
                }
            }
            if p.contains(y) {
                let i = choose|i: int| 0 <= i < p.len() && p[i] == y;
                assert(s[i] == y);
            }
            if s.last() == y {
                assert(s[s.len() - 1] == y);
            }
        }
        if s.last() != x {
            assert(w.push(s.last()).contains(y) <==> (w.contains(y) || s.last() == y)) by {
                if w.push(s.last()).contains(y) {
                    let i = choose|i: int| 0 <= i < w.push(s.last()).len() && w.push(s.last())[i] == y;
                    if i < w.len() {
                        assert(w[i] == y);
                    }
                }
                if w.contains(y) {
                    let i = choose|i: int| 0 <= i < w.len() && w[i] == y;
                    assert(w.push(s.last())[i] == y);
                }
                if s.last() == y {
                    assert(w.push(s.last())[w.len() as int] == y);
                }
            }
        }
    }
}

/// Removes every occurrence of `id` from `ids`, keeping the order of the rest.
pub fn remove_instance(ids: &Vec<InstanceId>, id: InstanceId) -> (r: Vec<InstanceId>)
    ensures
        r@ == without(ids@, id),
{
    let mut out: Vec<InstanceId> = Vec::new();
    let mut i: usize = 0;
    while i < ids.len()
        invariant
            i <= ids@.len(),
            out@ == without(ids@.subrange(0, i as int), id),
        decreases ids@.len() - i,
    {
        assert(ids@.subrange(0, i + 1).drop_last() =~= ids@.subrange(0, i as int));
        if ids[i] != id {
            out.push(ids[i]);
        }
        i += 1;
    }
    assert(ids@.subrange(0, ids@.len() as int) =~= ids@);
    out
}

pub fn contains_instance(ids: &Vec<InstanceId>, id: InstanceId) -> (r: bool)
    ensures
        r == ids@.contains(id),
{
    let mut i: usize = 0;
    while i < ids.len()
        invariant
            i <= ids@.len(),
            forall|j: int| 0 <= j < i ==> ids@[j] != id,
        decreases ids@.len() - i,
    {
        if ids[i] == id {
            return true;
        }
        i += 1;
    }
    false
}

/// What changing the selection owes: the chart must be open; activation is untouched.
pub open spec fn selection_outcome(
    workspace_id: ResourceId,
    before: Workspace,
    after: Workspace,
    target: ResourceId,
    instance_id: InstanceId,
    selected: bool,
    r: Result<(), WorkspaceCommandError>,
) -> bool {
    if target != workspace_id {
        r == Err::<(), WorkspaceCommandError>(mismatch(workspace_id, target)) && after == before
    } else if !open_chart_ids(before.chart_instances@).contains(instance_id) {
        r == Err::<(), WorkspaceCommandError>(WorkspaceCommandError::ChartNotOpen(instance_id)) && after == before
    } else {
        &&& after.chart_instances@ == before.chart_instances@
        &&& after.active_chart == before.active_chart
        &&& after.selected_charts@ == spec_selection(before.selected_charts@, instance_id, selected)
        &&& only_charts_changed(before, after)
        &&& settled(after, r)
    }
}

fn set_chart_selection(
    workspace_id: ResourceId,
    workspace: &mut Workspace,
    target: ResourceId,
    instance_id: InstanceId,
    selected: bool,
) -> (r: Result<(), WorkspaceCommandError>)
    ensures
        selection_outcome(workspace_id, *old(workspace), *final(workspace), target, instance_id, selected, r),
{
    ensure_workspace(workspace_id, target)?;
    ensure_chart_open(workspace, instance_id)?;
    if selected {
        if !contains_instance(&workspace.selected_charts, instance_id) {
            workspace.selected_charts.push(instance_id);
        }
    } else {
        workspace.selected_charts = remove_instance(&workspace.selected_charts, instance_id);
    }
    finish(workspace)
}

/// What changing the active view owes: the view must exist (or none be named).
pub open spec fn active_view_outcome(
    workspace_id: ResourceId,
    before: Workspace,
    after: Workspace,
    target: ResourceId,
    view: Option<ViewInstanceId>,
    r: Result<(), WorkspaceCommandError>,
) -> bool {
    if target != workspace_id {
        r == Err::<(), WorkspaceCommandError>(mismatch(workspace_id, target)) && after == before
    } else if view matches Some(v) && !view_ids(before.views@).contains(v) {
        r == Err::<(), WorkspaceCommandError>(WorkspaceCommandError::ViewNotFound(view->0)) && after == before
    } else {
        &&& after.chart_instances@ == before.chart_instances@
        &&& after.active_chart == before.active_chart
        &&& after.selected_charts@ == before.selected_charts@
        &&& after.views == before.views
        &&& after.active_view == view
        &&& after.profile == before.profile
        &&& settled(after, r)
    }
}

fn set_active_view(
    workspace_id: ResourceId,
    workspace: &mut Workspace,
    target: ResourceId,
    view: Option<ViewInstanceId>,
) -> (r: Result<(), WorkspaceCommandError>)
    ensures
        active_view_outcome(workspace_id, *old(workspace), *final(workspace), target, view, r),
{
    ensure_workspace(workspace_id, target)?;
    match view {
        Some(v) => ensure_view_exists(workspace, v)?,
        None => {},
    }
    workspace.active_view = view;
    finish(workspace)
}

/// What rebinding the workspace Aspect Set owes: the profile follows the named Aspect Set.
pub open spec fn aspect_set_outcome(
    workspace_id: ResourceId,
    before: Workspace,
    after: Workspace,
    target: ResourceId,
    aspect_set: ResourceId,
    r: Result<(), WorkspaceCommandError>,
) -> bool {
    if target != workspace_id {
        r == Err::<(), WorkspaceCommandError>(mismatch(workspace_id, target)) && after == before
    } else {
        &&& after.chart_instances@ == before.chart_instances@
        &&& after.active_chart == before.active_chart
        &&& after.selected_charts@ == before.selected_charts@
        &&& after.views == before.views
        &&& after.active_view == before.active_view
        &&& after.profile == (crate::workspace::WorkspaceProfile {
            aspects: ResourceBinding::Follow { id: aspect_set },
            ..before.profile
        })
        &&& settled(after, r)
    }
}

fn set_workspace_aspect_set(
    workspace_id: ResourceId,
    workspace: &mut Workspace,
    target: ResourceId,
    aspect_set: ResourceId,
) -> (r: Result<(), WorkspaceCommandError>)
    ensures
        aspect_set_outcome(workspace_id, *old(workspace), *final(workspace), target, aspect_set, r),
{
    ensure_workspace(workspace_id, target)?;
    workspace.profile.aspects = ResourceBinding::Follow { id: aspect_set };
    finish(workspace)
}

/// The chart that becomes active when the active chart at `index` closes: the chart that moved
/// into its place, else the one before it, else none.
pub open spec fn repaired_active(charts: Seq<WorkspaceChart>, index: int) -> Option<InstanceId> {
    if 0 <= index < charts.len() {
        Some(charts[index].spec_instance_id())
    } else if 1 <= index && index - 1 < charts.len() {
        Some(charts[index - 1].spec_instance_id())
    } else {
        None
    }
}

/// The slots of a view that must stay filled: the required slots of its resolved document.
pub open spec fn spec_required_slots(document: ViewDocument) -> Set<Seq<char>> {
    required_slot_texts(document.chart_slots@)
}

/// Slot assignments after `closed` closes: its required slots move to `replacement` where there
/// is one; every other slot it filled is cleared; other slots are kept.
pub open spec fn close_repair(
    m: Map<Seq<char>, InstanceId>,
    required: Set<Seq<char>>,
    closed: InstanceId,
    replacement: Option<InstanceId>,
) -> Map<Seq<char>, InstanceId> {
    Map::new(
        |k: Seq<char>| m.dom().contains(k) && (m[k] != closed || (required.contains(k) && replacement is Some)),
        |k: Seq<char>| if m[k] == closed { replacement->0 } else { m[k] },
    )
}

/// The required slots of a view's resolved document, for the close repair.
pub fn required_slots(document: &ViewDocument) -> (r: Vec<ChartSlotId>)
    ensures
        forall|k: Seq<char>| #[trigger] lists_text(r@, k) <==> spec_required_slots(*document).contains(k),
{
    let mut out: Vec<ChartSlotId> = Vec::new();
    let slots = &document.chart_slots;
    let mut i: usize = 0;
    while i < slots.len()
        invariant
            i <= slots@.len(),
            slots@ == document.chart_slots@,
            forall|k: Seq<char>| #[trigger] lists_text(out@, k) <==> exists|j: int| 0 <= j < i && slots@[j].required && slots@[j].id@ == k,
        decreases slots@.len() - i,
    {
        let ghost prev = out@;
        if slots[i].required {
            out.push(slots[i].id.clone());
        }
        proof {
            assert forall|k: Seq<char>| #[trigger] lists_text(out@, k) <==> exists|j: int| 0 <= j < i + 1 && slots@[j].required && slots@[j].id@ == k by {
                if lists_text(out@, k) {
                    let m = choose|m: int| 0 <= m < out@.len() && out@[m]@ == k;
                    if m < prev.len() {
                        assert(prev[m] == out@[m]);
                        assert(lists_text(prev, k));
                    } else {
                        assert(slots@[i as int].required && slots@[i as int].id@ == k);
                    }
                }
                if exists|j: int| 0 <= j < i + 1 && slots@[j].required && slots@[j].id@ == k {
                    let j = choose|j: int| 0 <= j < i + 1 && slots@[j].required && slots@[j].id@ == k;
                    if j < i {
                        assert(lists_text(prev, k));
                        let m = choose|m: int| 0 <= m < prev.len() && prev[m]@ == k;
                        assert(out@[m] == prev[m]);
                    } else {
                        assert(out@[prev.len() as int]@ == k);
                    }
                }
            }
        }
        i += 1;
    }
    out
}

/// Whether `key` is among `slots`.
pub fn slot_in(slots: &Vec<ChartSlotId>, key: &ChartSlotId) -> (r: bool)
    ensures
        r == lists_text(slots@, key@),
{
    let mut i: usize = 0;
    while i < slots.len()
        invariant
            i <= slots@.len(),
            forall|j: int| 0 <= j < i ==> slots@[j]@ != key@,
        decreases slots@.len() - i,
    {
        if slots[i] == *key {
            return true;
        }
        i += 1;
    }
    false
}

/// Repairs the slots of one view after `closed` closes.
fn repair_view_slots(
    charts: &mut crate::slots::SlotAssignments,
    required: &Vec<ChartSlotId>,
    closed: InstanceId,
    replacement: Option<InstanceId>,
    Ghost(required_set): Ghost<Set<Seq<char>>>,
)
    requires
        old(charts).wf(),
        forall|k: Seq<char>| #[trigger] lists_text(required@, k) <==> required_set.contains(k),
    ensures
        final(charts).wf(),
        final(charts).spec_map() =~= close_repair(old(charts).spec_map(), required_set, closed, replacement),
{
    let ghost before = old(charts).spec_map();
    let ghost target = close_repair(before, required_set, closed, replacement);
    let affected = charts.slots_of(closed);
    let mut j: usize = 0;
    while j < affected.len()
        invariant
            charts.wf(),
            j <= affected@.len(),
            before == old(charts).spec_map(),
            target == close_repair(before, required_set, closed, replacement),
            forall|k: Seq<char>| #[trigger] lists_text(required@, k) <==> required_set.contains(k),
            forall|k: Seq<char>| #[trigger] lists_text(affected@, k) <==> (before.dom().contains(k) && before[k] == closed),
            forall|k: Seq<char>| #![trigger charts.spec_map().dom().contains(k)] lists_text(affected@.subrange(0, j as int), k) ==> (
                charts.spec_map().dom().contains(k) == target.dom().contains(k) && (target.dom().contains(k) ==> charts.spec_map()[k] == target[k])),
            forall|k: Seq<char>| #![trigger charts.spec_map().dom().contains(k)] !lists_text(affected@.subrange(0, j as int), k) ==> (
                charts.spec_map().dom().contains(k) == before.dom().contains(k) && (before.dom().contains(k) ==> charts.spec_map()[k] == before[k])),
        decreases affected@.len() - j,
    {
        let slot = affected[j].clone();
        let ghost key = slot@;
        let ghost cur = charts.spec_map();
        proof {
            assert(lists_text(affected@, key)) by { assert(affected@[j as int]@ == key); }
        }
        let keep = slot_in(required, &slot);
        match replacement {
            Some(chart) => {
                if keep {
                    charts.insert(slot, chart);
                } else {
                    charts.remove(&slot);
                }
            },
            None => {
                charts.remove(&slot);
            },
        }
        proof {
            let next = affected@.subrange(0, j + 1);
            let prev = affected@.subrange(0, j as int);
            assert forall|k: Seq<char>| lists_text(next, k) <==> (lists_text(prev, k) || k == key) by {
                if lists_text(next, k) {
                    let m = choose|m: int| 0 <= m < next.len() && next[m]@ == k;
                    if m < j {
                        assert(prev[m] == next[m]);
                    }
                }
                if lists_text(prev, k) {
                    let m = choose|m: int| 0 <= m < prev.len() && prev[m]@ == k;
                    assert(next[m] == prev[m]);
                }
                if k == key {
                    assert(next[j as int]@ == k);
                }
            }
            assert(before.dom().contains(key) && before[key] == closed);
            assert forall|k: Seq<char>| #![trigger charts.spec_map().dom().contains(k)] lists_text(next, k) ==> (
                charts.spec_map().dom().contains(k) == target.dom().contains(k) && (target.dom().contains(k) ==> charts.spec_map()[k] == target[k])) by {
                if lists_text(next, k) {
                    if k == key {
                    } else {
                        assert(lists_text(prev, k));
                        assert(cur.dom().contains(k) == target.dom().contains(k));
                    }
                }
            }
            assert forall|k: Seq<char>| #![trigger charts.spec_map().dom().contains(k)] !lists_text(next, k) ==> (
                charts.spec_map().dom().contains(k) == before.dom().contains(k) && (before.dom().contains(k) ==> charts.spec_map()[k] == before[k])) by {
                if !lists_text(next, k) {
                    assert(!lists_text(prev, k));
                    assert(k != key);
                    assert(cur.dom().contains(k) == before.dom().contains(k));
                }
            }
        }
        j += 1;
    }
    proof {
        assert(j == affected@.len());
        assert(affected@.subrange(0, j as int) =~= affected@);
        assert forall|k: Seq<char>| #![trigger charts.spec_map().dom().contains(k)] charts.spec_map().dom().contains(k) == target.dom().contains(k) && (target.dom().contains(k) ==> charts.spec_map()[k] == target[k]) by {
            if lists_text(affected@.subrange(0, j as int), k) {
            } else {
                assert(!lists_text(affected@, k));
                assert(!(before.dom().contains(k) && before[k] == closed));
                assert(charts.spec_map().dom().contains(k) == before.dom().contains(k));
            }
        }
    }
}

/// What closing a chart owes: the first chart with that identity is removed and deselected;
/// if it was active, the chart that moved into its place (else the one before it) becomes active;
/// in every view the required slots of its resolved document (`documents`, one per view) pass to
/// the active chart and its other slots are cleared.
pub open spec fn close_outcome(
    workspace_id: ResourceId,
    before: Workspace,
    after: Workspace,
    target: ResourceId,
    instance_id: InstanceId,
    documents: Seq<ViewDocument>,
    r: Result<(), WorkspaceCommandError>,
) -> bool {
    if target != workspace_id {
        r == Err::<(), WorkspaceCommandError>(mismatch(workspace_id, target)) && after == before
    } else if !open_chart_ids(before.chart_instances@).contains(instance_id) {
        r == Err::<(), WorkspaceCommandError>(WorkspaceCommandError::ChartNotOpen(instance_id)) && after == before
    } else {
        exists|index: int| #[trigger] is_first_with_id(before.chart_instances@, instance_id, index) && {
            let charts = before.chart_instances@.remove(index);
            let active = if before.active_chart == Some(instance_id) {
                repaired_active(charts, index)
            } else {
                before.active_chart
            };
            &&& after.chart_instances@ == charts
            &&& after.active_chart == active
            &&& after.selected_charts@ == without(before.selected_charts@, instance_id)
            &&& after.active_view == before.active_view
            &&& after.profile == before.profile
            &&& views_keep_shape(before.views@, after.views@)
            &&& views_wf(after.views@)
            &&& forall|i: int| 0 <= i < after.views@.len() ==> (#[trigger] after.views@[i]).charts.spec_map() == close_repair(
                before.views@[i].charts.spec_map(),
                spec_required_slots(documents[i]),
                instance_id,
                active,
            )
            &&& settled(after, r)
        }
    }
}

fn close_chart(
    workspace_id: ResourceId,
    workspace: &mut Workspace,
    target: ResourceId,
    instance_id: InstanceId,
    documents: &Vec<ViewDocument>,
) -> (r: Result<(), WorkspaceCommandError>)
    requires
        views_wf(old(workspace).views@),
        documents@.len() == old(workspace).views@.len(),
    ensures
        close_outcome(workspace_id, *old(workspace), *final(workspace), target, instance_id, documents@, r),
{
    ensure_workspace(workspace_id, target)?;
    let ghost before = *workspace;
    let mut index: usize = 0;
    while index < workspace.chart_instances.len() && workspace.chart_instances[index].instance_id() != instance_id
        invariant
            index <= workspace.chart_instances@.len(),
            forall|j: int| 0 <= j < index ==> (#[trigger] workspace.chart_instances@[j]).spec_instance_id() != instance_id,
        decreases workspace.chart_instances@.len() - index,
    {
        index += 1;
    }
    if index == workspace.chart_instances.len() {
        proof {
            assert forall|j: int| 0 <= j < open_chart_ids(workspace.chart_instances@).len() implies open_chart_ids(workspace.chart_instances@)[j] != instance_id by {
                assert(open_chart_ids(workspace.chart_instances@)[j] == workspace.chart_instances@[j].spec_instance_id());
            }
        }
        return Err(WorkspaceCommandError::ChartNotOpen(instance_id));
    }
    proof {
        assert(open_chart_ids(workspace.chart_instances@)[index as int] == instance_id);
        assert(is_first_with_id(before.chart_instances@, instance_id, index as int));
    }
    let was_active = match workspace.active_chart {
        Some(active) => active == instance_id,
        None => false,
    };
    let _ = workspace.chart_instances.remove(index);
    workspace.selected_charts = remove_instance(&workspace.selected_charts, instance_id);
    if was_active {
        let count = workspace.chart_instances.len();
        workspace.active_chart = if index < count {
            Some(workspace.chart_instances[index].instance_id())
        } else if index >= 1 && index - 1 < count {
            Some(workspace.chart_instances[index - 1].instance_id())
        } else {
            None
        };
    }
    let replacement = workspace.active_chart;
    let ghost views_before = workspace.views@;
    let ghost charts_after = workspace.chart_instances@;
    let ghost selected_after = workspace.selected_charts@;
    proof {
        let charts = before.chart_instances@.remove(index as int);
        assert(charts_after == charts);
        assert(replacement == if before.active_chart == Some(instance_id) {
            repaired_active(charts, index as int)
        } else {
            before.active_chart
        });
    }
    let mut v: usize = 0;
    while v < workspace.views.len()
        invariant
            workspace.chart_instances@ == charts_after,
            workspace.selected_charts@ == selected_after,
            workspace.active_chart == replacement,
            workspace.active_view == before.active_view,
            workspace.profile == before.profile,
            views_before == before.views@,
            views_wf(views_before),
            documents@.len() == views_before.len(),
            views_keep_shape(views_before, workspace.views@),
            v <= workspace.views@.len(),
            views_wf(workspace.views@),
            forall|i: int| 0 <= i < v ==> (#[trigger] workspace.views@[i]).charts.spec_map() == close_repair(
                views_before[i].charts.spec_map(),
                spec_required_slots(documents@[i]),
                instance_id,
                replacement,
            ),
            forall|i: int| v <= i < workspace.views@.len() ==> (#[trigger] workspace.views@[i]).charts == views_before[i].charts,
        decreases workspace.views@.len() - v,
    {
        let required = required_slots(&documents[v]);
        let ghost required_set = spec_required_slots(documents@[v as int]);
        let mut view = workspace.views.remove(v);
        repair_view_slots(&mut view.charts, &required, instance_id, replacement, Ghost(required_set));
        workspace.views.insert(v, view);
        v += 1;
    }
    let r = finish(workspace);
    proof {
        assert(is_first_with_id(before.chart_instances@, instance_id, index as int));
    }
    r
}

/// `i` is the first index of a view with identity `id`.
pub open spec fn is_first_view(views: Seq<ViewInstance>, id: ViewInstanceId, i: int) -> bool {
    &&& 0 <= i < views.len()
    &&& views[i].id == id
    &&& forall|j: int| 0 <= j < i ==> (#[trigger] views[j]).id != id
}

/// Whether an inline document lacks the slot; a followed or pinned document is not checked.
pub open spec fn document_lacks_slot(document: ResourceBinding<ViewDocument>, slot: Seq<char>) -> bool {
    match document {
        ResourceBinding::Inline { value } => !slot_texts(value.chart_slots@).contains(slot),
        _ => false,
    }
}

/// What assigning a chart slot owes: the chart must be open, the view must exist and an inline
/// document must define the slot; the slot is then set to the chart, or cleared.
pub open spec fn assign_outcome(
    workspace_id: ResourceId,
    before: Workspace,
    after: Workspace,
    target: ResourceId,
    view: ViewInstanceId,
    slot: ChartSlotId,
    chart: Option<InstanceId>,
    r: Result<(), WorkspaceCommandError>,
) -> bool {
    if target != workspace_id {
        r == Err::<(), WorkspaceCommandError>(mismatch(workspace_id, target)) && after == before
    } else if chart matches Some(c) && !open_chart_ids(before.chart_instances@).contains(c) {
        r == Err::<(), WorkspaceCommandError>(WorkspaceCommandError::ChartNotOpen(chart->0)) && after == before
    } else if !view_ids(before.views@).contains(view) {
        r == Err::<(), WorkspaceCommandError>(WorkspaceCommandError::ViewNotFound(view)) && after == before
    } else {
        exists|vi: int| #[trigger] is_first_view(before.views@, view, vi) && if document_lacks_slot(before.views@[vi].document, slot@) {
            (r matches Err(WorkspaceCommandError::SlotNotFound(text)) && text@ == slot@) && after == before
        } else {
            &&& after.chart_instances@ == before.chart_instances@
            &&& after.active_chart == before.active_chart
            &&& after.selected_charts@ == before.selected_charts@
            &&& after.active_view == before.active_view
            &&& after.profile == before.profile
            &&& views_keep_shape(before.views@, after.views@)
            &&& views_wf(after.views@)
            &&& forall|i: int| 0 <= i < after.views@.len() && i != vi ==> (#[trigger] after.views@[i]).charts == before.views@[i].charts
            &&& after.views@[vi].charts.spec_map() == match chart {
                Some(c) => before.views@[vi].charts.spec_map().insert(slot@, c),
                None => before.views@[vi].charts.spec_map().remove(slot@),
            }
            &&& settled(after, r)
        }
    }
}

fn assign_chart_slot(
    workspace_id: ResourceId,
    workspace: &mut Workspace,
    target: ResourceId,
    view: ViewInstanceId,
    slot: ChartSlotId,
    chart: Option<InstanceId>,
) -> (r: Result<(), WorkspaceCommandError>)
    requires
        views_wf(old(workspace).views@),
    ensures
        assign_outcome(workspace_id, *old(workspace), *final(workspace), target, view, slot, chart, r),
{
    ensure_workspace(workspace_id, target)?;
    match chart {
        Some(c) => ensure_chart_open(workspace, c)?,
        None => {},
    }
    let ghost before = *workspace;
    let mut vi: usize = 0;
    while vi < workspace.views.len() && workspace.views[vi].id != view
        invariant
            vi <= workspace.views@.len(),
            forall|j: int| 0 <= j < vi ==> (#[trigger] workspace.views@[j]).id != view,
        decreases workspace.views@.len() - vi,
    {
        vi += 1;
    }
    if vi == workspace.views.len() {
        proof {
            assert forall|j: int| 0 <= j < view_ids(workspace.views@).len() implies view_ids(workspace.views@)[j] != view by {
                assert(view_ids(workspace.views@)[j] == workspace.views@[j].id);
            }
        }
        return Err(WorkspaceCommandError::ViewNotFound(view));
    }
    proof {
        assert(view_ids(workspace.views@)[vi as int] == view);
        assert(is_first_view(before.views@, view, vi as int));
    }
    let lacks = match &workspace.views[vi].document {
        ResourceBinding::Inline { value } => !slot_listed(&value.chart_slots, &slot),
        ResourceBinding::Follow { .. } => false,
        ResourceBinding::Pinned { .. } => false,
    };
    if lacks {
        let text = slot.as_str().to_owned();
        return Err(WorkspaceCommandError::SlotNotFound(text));
    }
    let mut entry = workspace.views.remove(vi);
    match chart {
        Some(c) => entry.charts.insert(slot, c),
        None => entry.charts.remove(&slot),
    }
    workspace.views.insert(vi, entry);
    proof {
        assert forall|i: int| 0 <= i < workspace.views@.len() implies (#[trigger] workspace.views@[i]).charts.wf() by {
            if i != vi {
                assert(workspace.views@[i] == before.views@[i]);
            }
        }
        assert forall|i: int| 0 <= i < workspace.views@.len() && i != vi implies (#[trigger] workspace.views@[i]).charts == before.views@[i].charts by {
            assert(workspace.views@[i] == before.views@[i]);
        }
    }
    finish(workspace)
}

/// What applying `command` to `before` owes: `after` and the result `r`.
pub open spec fn command_applied(
    workspace_id: ResourceId,
    before: Workspace,
    after: Workspace,
    command: Command,
    documents: Seq<ViewDocument>,
    r: Result<(), WorkspaceCommandError>,
) -> bool {
    match command {
        Command::OpenSavedChart { workspace: target, definition, instance_id } => open_saved_outcome(
            workspace_id, before, after, target, definition, instance_id, r),
        Command::OpenEphemeralChart { workspace: target, definition, instance_id } => open_ephemeral_outcome(
            workspace_id, before, after, target, definition, instance_id, r),
        Command::CloseChart { workspace: target, instance_id } => close_outcome(
            workspace_id, before, after, target, instance_id, documents, r),
        Command::SetActiveChart { workspace: target, instance_id } => set_active_outcome(
            workspace_id, before, after, target, instance_id, r),
        Command::SetChartSelection { workspace: target, instance_id, selected } => selection_outcome(
            workspace_id, before, after, target, instance_id, selected, r),
        Command::SetActiveView { workspace: target, view } => active_view_outcome(
            workspace_id, before, after, target, view, r),
        Command::AssignChartSlot { workspace: target, view, slot, chart } => assign_outcome(
            workspace_id, before, after, target, view, slot, chart, r),
        Command::SetWorkspaceAspectSet { workspace: target, aspect_set } => aspect_set_outcome(
            workspace_id, before, after, target, aspect_set, r),
        Command::CreateResource { .. } => r == Err::<(), WorkspaceCommandError>(
            WorkspaceCommandError::NotWorkspaceCommand) && after == before,
        Command::SaveResourceDraft { .. } => r == Err::<(), WorkspaceCommandError>(
            WorkspaceCommandError::NotWorkspaceCommand) && after == before,
    }
}

/// Applies a workspace command to `workspace`, which has the identity `workspace_id`, and then
/// checks the result; library persistence commands are refused. `documents` holds the resolved
/// document of each view, in the order of the views.
pub fn apply_workspace_command(
    workspace_id: ResourceId,
    workspace: &mut Workspace,
    command: Command,
    documents: &Vec<ViewDocument>,
) -> (r: Result<(), WorkspaceCommandError>)
    requires
        documents@.len() == old(workspace).views@.len(),
    ensures
        views_wf(final(workspace).views@),
        command_applied(workspace_id, *old(workspace), *final(workspace), command, documents@, r),
{
    views_hold_wf(&workspace.views);
    match command {
        Command::OpenSavedChart { workspace: target, definition, instance_id } => open_saved_chart(
            workspace_id, workspace, target, definition, instance_id),
        Command::OpenEphemeralChart { workspace: target, definition, instance_id } => open_ephemeral_chart(
            workspace_id, workspace, target, definition, instance_id),
        Command::CloseChart { workspace: target, instance_id } => close_chart(
            workspace_id, workspace, target, instance_id, documents),
        Command::SetActiveChart { workspace: target, instance_id } => set_active_chart(
            workspace_id, workspace, target, instance_id),
        Command::SetChartSelection { workspace: target, instance_id, selected } => set_chart_selection(
            workspace_id, workspace, target, instance_id, selected),
        Command::SetActiveView { workspace: target, view } => set_active_view(
            workspace_id, workspace, target, view),
        Command::AssignChartSlot { workspace: target, view, slot, chart } => assign_chart_slot(
            workspace_id, workspace, target, view, slot, chart),
        Command::SetWorkspaceAspectSet { workspace: target, aspect_set } => set_workspace_aspect_set(
            workspace_id, workspace, target, aspect_set),
        Command::CreateResource { .. } => Err(WorkspaceCommandError::NotWorkspaceCommand),
        Command::SaveResourceDraft { .. } => Err(WorkspaceCommandError::NotWorkspaceCommand),
    }
}

} // verus!
