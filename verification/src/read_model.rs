use vstd::prelude::*;

use crate::ids::{AspectId, ChartSlotId, InstanceId, ResourceId, Revision, ViewInstanceId};
use crate::units::Angle;

verus! {

/// Category of an application error.
#[derive(Clone, Copy, Debug, PartialEq, Eq, Structural)]
pub enum AppErrorKind {
    Initialization,
    ViewComputation,
    Conflict,
    InvalidIntent,
    NotFound,
    Unavailable,
}

/// An application error: its category and a message for the user.
#[derive(Debug, PartialEq, Eq)]
pub struct AppError {
    pub kind: AppErrorKind,
    pub message: String,
}

impl AppError {
    pub fn new(kind: AppErrorKind, message: &str) -> (r: Self)
        ensures
            r.kind == kind,
            r.message@ == message@,
    {
        AppError { kind, message: message.to_owned() }
    }

    /// The message the user sees.
    pub fn to_string(&self) -> (r: String)
        ensures
            r@ == self.message@,
    {
        self.message.clone()
    }
}

impl Clone for AppError {
    fn clone(&self) -> (r: Self)
        ensures
            r == *self,
    {
        AppError { kind: self.kind, message: self.message.clone() }
    }
}

/// Lifecycle of the application projection.
#[derive(Debug, PartialEq, Eq)]
pub enum ApplicationStatus {
    Initializing,
    Ready,
    Error(AppError),
}

impl Clone for ApplicationStatus {
    fn clone(&self) -> (r: Self)
        ensures
            r == *self,
    {
        match self {
            ApplicationStatus::Initializing => ApplicationStatus::Initializing,
            ApplicationStatus::Ready => ApplicationStatus::Ready,
            ApplicationStatus::Error(e) => ApplicationStatus::Error(e.clone()),
        }
    }
}

/// The library as the shell lists it.
#[derive(Clone, Debug, PartialEq, Eq)]
pub struct LibraryReadModel {
    pub charts: Vec<LibraryChartSummary>,
    pub aspect_sets: Vec<AspectSetSummary>,
}

impl Default for LibraryReadModel {
    fn default() -> (r: Self)
        ensures
            r.charts@.len() == 0,
            r.aspect_sets@.len() == 0,
    {
        LibraryReadModel { charts: Vec::new(), aspect_sets: Vec::new() }
    }
}

/// A chart definition of the library.
#[derive(Clone, Debug, PartialEq, Eq)]
pub struct LibraryChartSummary {
    pub resource_id: ResourceId,
    pub title: String,
    pub subtitle: String,
}

/// An Aspect Set of the library with its current conjunction orb.
#[derive(Clone, Debug, PartialEq, Eq)]
pub struct AspectSetSummary {
    pub resource_id: ResourceId,
    pub title: String,
    pub revision: Revision,
    pub conjunction_orb: Angle,
}

/// The open charts, selection and views of the workspace.
#[derive(Clone, Debug, PartialEq, Eq)]
pub struct WorkspaceReadModel {
    pub charts: Vec<OpenChartSummary>,
    pub active_chart: Option<InstanceId>,
    pub selected_charts: Vec<InstanceId>,
    pub views: Vec<ViewSummary>,
    pub active_view: Option<ViewInstanceId>,
}

impl Default for WorkspaceReadModel {
    fn default() -> (r: Self)
        ensures
            r.charts@.len() == 0,
            r.active_chart is None,
            r.selected_charts@.len() == 0,
            r.views@.len() == 0,
            r.active_view is None,
    {
        WorkspaceReadModel {
            charts: Vec::new(),
            active_chart: None,
            selected_charts: Vec::new(),
            views: Vec::new(),
            active_view: None,
        }
    }
}

/// A chart open in the workspace.
#[derive(Clone, Debug, PartialEq, Eq)]
pub struct OpenChartSummary {
    pub instance_id: InstanceId,
    pub title: String,
    pub subtitle: String,
    pub persistence: ChartPersistence,
}

/// Whether an open chart is backed by a library definition.
#[derive(Clone, Copy, Debug, PartialEq, Eq, Structural)]
pub enum ChartPersistence {
    Saved { resource_id: ResourceId },
    Ephemeral,
}

/// A view of the workspace.
#[derive(Clone, Debug, PartialEq, Eq)]
pub struct ViewSummary {
    pub view_id: ViewInstanceId,
    pub title: String,
}

/// The active view: its last good scene, computation state and slot assignments. The scene type
/// is the presentation's.
#[derive(Clone, Debug, PartialEq, Eq)]
pub struct ViewReadModel<S> {
    pub view_id: ViewInstanceId,
    pub title: String,
    pub scene: Option<S>,
    pub computation: ViewComputationState,
    pub slots: Vec<ChartSlotAssignment>,
}

/// Whether a view's scene is being computed, current or failed.
#[derive(Debug, PartialEq, Eq)]
pub enum ViewComputationState {
    Loading,
    Fresh,
    Refreshing,
    Failed(AppError),
}

impl Clone for ViewComputationState {
    fn clone(&self) -> (r: Self)
        ensures
            r == *self,
    {
        match self {
            ViewComputationState::Loading => ViewComputationState::Loading,
            ViewComputationState::Fresh => ViewComputationState::Fresh,
            ViewComputationState::Refreshing => ViewComputationState::Refreshing,
            ViewComputationState::Failed(e) => ViewComputationState::Failed(e.clone()),
        }
    }
}

/// A slot of the active view and the chart filling it.
#[derive(Clone, Debug, PartialEq, Eq)]
pub struct ChartSlotAssignment {
    pub slot: ChartSlotId,
    pub label: String,
    pub required: bool,
    pub chart: Option<InstanceId>,
}

/// The inspector: the active chart and the bindings of the workspace profile.
#[derive(Clone, Debug, PartialEq, Eq)]
pub struct InspectorReadModel {
    pub active_chart: Option<ActiveChartInspector>,
    pub bindings: Vec<ResourceBindingSummary>,
    pub active_aspect_set: Option<ResourceId>,
}

impl Default for InspectorReadModel {
    fn default() -> (r: Self)
        ensures
            r.active_chart is None,
            r.bindings@.len() == 0,
            r.active_aspect_set is None,
    {
        InspectorReadModel { active_chart: None, bindings: Vec::new(), active_aspect_set: None }
    }
}

/// The active chart as the inspector shows it.
#[derive(Clone, Debug, PartialEq, Eq)]
pub struct ActiveChartInspector {
    pub instance_id: InstanceId,
    pub title: String,
    pub subtitle: String,
    pub persistence: ChartPersistence,
}

/// A binding of the workspace profile to a library resource.
#[derive(Clone, Debug, PartialEq, Eq)]
pub struct ResourceBindingSummary {
    pub label: String,
    pub resource_id: ResourceId,
    pub resource_title: String,
    pub revision: Revision,
    pub mode: BindingMode,
}

/// How a binding refers to its resource.
#[derive(Clone, Copy, Debug, PartialEq, Eq, Structural)]
pub enum BindingMode {
    Follow,
    Pinned,
    Inline,
}

/// The resource editor.
#[derive(Clone, Debug, PartialEq, Eq)]
pub struct ResourceEditorReadModel {
    pub aspect_set: Option<AspectSetDraftReadModel>,
}

impl Default for ResourceEditorReadModel {
    fn default() -> (r: Self)
        ensures
            r.aspect_set is None,
    {
        ResourceEditorReadModel { aspect_set: None }
    }
}

/// An Aspect Set draft and its conjunction.
#[derive(Clone, Debug, PartialEq, Eq)]
pub struct AspectSetDraftReadModel {
    pub resource_id: ResourceId,
    pub title: String,
    pub state: DraftState,
    pub conjunction: AspectDraftValue,
}

/// One aspect of a draft as the editor shows it.
#[derive(Clone, Debug, PartialEq, Eq)]
pub struct AspectDraftValue {
    pub aspect_id: AspectId,
    pub label: String,
    pub enabled: bool,
    pub maximum_orb: Angle,
}

/// Where a draft stands relative to the canonical revision it started from.
#[derive(Clone, Copy, Debug, PartialEq, Eq, Structural)]
pub enum DraftState {
    Clean { revision: Revision },
    Dirty { base_revision: Revision },
    Saving { base_revision: Revision },
    Conflict { base_revision: Revision, remote_revision: Revision },
}

impl DraftState {
    pub open spec fn spec_base_revision(self) -> Revision {
        match self {
            DraftState::Clean { revision } => revision,
            DraftState::Dirty { base_revision } => base_revision,
            DraftState::Saving { base_revision } => base_revision,
            DraftState::Conflict { base_revision, .. } => base_revision,
        }
    }

    /// The canonical revision the draft is based on.
    pub fn base_revision(&self) -> (r: Revision)
        ensures
            r == self.spec_base_revision(),
    {
        match self {
            DraftState::Clean { revision } => *revision,
            DraftState::Dirty { base_revision } => *base_revision,
            DraftState::Saving { base_revision } => *base_revision,
            DraftState::Conflict { base_revision, .. } => *base_revision,
        }
    }
}

/// Actions whose availability the application decides.
#[derive(Clone, Copy, Debug, PartialEq, Eq, Hash, Structural)]
pub enum AppAction {
    BeginAspectSetEdit,
    SaveDraft,
    CancelDraft,
    RefreshView,
}

/// An action and whether it can be taken now.
#[derive(Clone, Debug, PartialEq, Eq)]
pub struct CommandCapability {
    pub action: AppAction,
    pub availability: Availability,
}

/// Whether an action is enabled, disabled with a reason, or hidden.
#[derive(Debug, PartialEq, Eq)]
pub enum Availability {
    Enabled,
    Disabled { reason: Option<String> },
    Hidden,
}

impl Clone for Availability {
    fn clone(&self) -> (r: Self)
        ensures
            r == *self,
    {
        match self {
            Availability::Enabled => Availability::Enabled,
            Availability::Disabled { reason } => Availability::Disabled {
                reason: match reason {
                    Some(text) => Some(text.clone()),
                    None => None,
                },
            },
            Availability::Hidden => Availability::Hidden,
        }
    }
}

impl Availability {
    pub fn is_enabled(&self) -> (r: bool)
        ensures
            r == (*self is Enabled),
    {
        match self {
            Availability::Enabled => true,
            _ => false,
        }
    }

    /// The reason a disabled action gives, if it gives one.
    pub fn disabled_reason(&self) -> (r: Option<&str>)
        ensures
            match *self {
                Availability::Disabled { reason: Some(text) } => r matches Some(t) && t@ == text@,
                _ => r is None,
            },
    {
        match self {
            Availability::Disabled { reason: Some(reason) } => Some(reason.as_str()),
            _ => None,
        }
    }
}

/// The label of an editor state.
pub open spec fn spec_draft_state_label(state: DraftState) -> Seq<char> {
    match state {
        DraftState::Clean { .. } => "Clean"@,
        DraftState::Dirty { .. } => "Dirty"@,
        DraftState::Saving { .. } => "Saving"@,
        DraftState::Conflict { .. } => "Conflict"@,
    }
}

pub fn draft_state_label(state: &DraftState) -> (r: &'static str)
    ensures
        r@ == spec_draft_state_label(*state),
{
    match state {
        DraftState::Clean { .. } => "Clean",
        DraftState::Dirty { .. } => "Dirty",
        DraftState::Saving { .. } => "Saving",
        DraftState::Conflict { .. } => "Conflict",
    }
}

/// The tooltip of a control: the reason it is disabled, or nothing.
pub fn availability_title(availability: &Availability) -> (r: String)
    ensures
        match *availability {
            Availability::Disabled { reason: Some(text) } => r@ == text@,
            _ => r@ == Seq::<char>::empty(),
        },
{
    match availability.disabled_reason() {
        Some(reason) => reason.to_owned(),
        None => String::new(),
    }
}

/// A message from the application to the user.
#[derive(Clone, Debug, PartialEq, Eq)]
pub struct AppNotice {
    pub kind: AppNoticeKind,
    pub message: String,
}

/// Tone of a notice.
#[derive(Clone, Copy, Debug, PartialEq, Eq, Structural)]
pub enum AppNoticeKind {
    Info,
    Success,
    Warning,
    Conflict,
}

/// The whole projection the presentation renders.
#[derive(Clone, Debug, PartialEq, Eq)]
pub struct AppReadModel<S> {
    pub status: ApplicationStatus,
    pub library: LibraryReadModel,
    pub workspace: WorkspaceReadModel,
    pub active_view: Option<ViewReadModel<S>>,
    pub inspector: InspectorReadModel,
    pub resource_editor: ResourceEditorReadModel,
    pub capabilities: Vec<CommandCapability>,
    pub notice: Option<AppNotice>,
}

/// The availability of `action` among `capabilities`: that of its first entry, hidden if none.
pub open spec fn spec_availability(capabilities: Seq<CommandCapability>, action: AppAction) -> Availability
    decreases capabilities.len(),
{
    if capabilities.len() == 0 {
        Availability::Hidden
    } else if capabilities[0].action == action {
        capabilities[0].availability
    } else {
        spec_availability(capabilities.drop_first(), action)
    }
}

impl<S> AppReadModel<S> {
    /// The projection before initialization: no data, no actions.
    pub fn initializing() -> (r: Self)
        ensures
            r.status == ApplicationStatus::Initializing,
            r.library.charts@.len() == 0,
            r.library.aspect_sets@.len() == 0,
            r.workspace.charts@.len() == 0,
            r.workspace.active_chart is None,
            r.workspace.selected_charts@.len() == 0,
            r.workspace.views@.len() == 0,
            r.workspace.active_view is None,
            r.active_view is None,
            r.inspector.active_chart is None,
            r.inspector.bindings@.len() == 0,
            r.inspector.active_aspect_set is None,
            r.resource_editor.aspect_set is None,
            r.capabilities@.len() == 0,
            r.notice is None,
    {
        AppReadModel {
            status: ApplicationStatus::Initializing,
            library: LibraryReadModel::default(),
            workspace: WorkspaceReadModel::default(),
            active_view: None,
            inspector: InspectorReadModel::default(),
            resource_editor: ResourceEditorReadModel::default(),
            capabilities: Vec::new(),
            notice: None,
        }
    }

    /// Whether `action` is available now; an action the projection does not list is hidden.
    pub fn availability(&self, action: AppAction) -> (r: Availability)
        ensures
            r == spec_availability(self.capabilities@, action),
    {
        let mut i: usize = 0;
        assert(self.capabilities@.subrange(0, self.capabilities@.len() as int) =~= self.capabilities@);
        while i < self.capabilities.len()
            invariant
                i <= self.capabilities@.len(),
                spec_availability(self.capabilities@, action) == spec_availability(self.capabilities@.subrange(i as int, self.capabilities@.len() as int), action),
            decreases self.capabilities@.len() - i,
        {
            let ghost rest = self.capabilities@.subrange(i as int, self.capabilities@.len() as int);
            if self.capabilities[i].action == action {
                return self.capabilities[i].availability.clone();
            }
            assert(rest.drop_first() =~= self.capabilities@.subrange(i + 1, self.capabilities@.len() as int));
            i += 1;
        }
        Availability::Hidden
    }
}

/// A request from the presentation to change application state.
#[derive(Clone, Debug, PartialEq, Eq)]
pub enum AppIntent {
    OpenChart { resource_id: ResourceId },
    CloseChart { instance_id: InstanceId },
    ActivateChart { instance_id: InstanceId },
    /// Changes selection only. It does not implicitly activate or deactivate a chart.
    SetChartSelection { instance_id: InstanceId, selected: bool },
    SetActiveView { view_id: ViewInstanceId },
    AssignChartSlot { view_id: ViewInstanceId, slot: ChartSlotId, chart: Option<InstanceId> },
    SetWorkspaceAspectSet { resource_id: ResourceId },
    BeginAspectSetEdit { resource_id: ResourceId },
    UpdateAspectSetDraft(AspectSetDraftMutation),
    SaveDraft,
    CancelDraft,
    RefreshActiveView,
}

/// A change to an Aspect Set draft.
#[derive(Clone, Debug, PartialEq, Eq)]
pub enum AspectSetDraftMutation {
    SetOrb { aspect_id: AspectId, maximum: Angle },
    SetEnabled { aspect_id: AspectId, enabled: bool },
}

} // verus!
