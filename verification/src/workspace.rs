use vstd::prelude::*;

use crate::copy::{copies_of, copy_vec, DeepCopy};

use crate::chart::ChartDefinition;
use crate::ids::{InstanceId, PanelId, ResourceId, ViewInstanceId};
use crate::resource::{AspectSet, PointSet, ResourceBinding};
use crate::validation::{DomainValidate, DomainValidationError, DomainValidationIssue};
use crate::view::{AnalysisProfile, Theme, ViewInstance, WheelTemplate};

verus! {

/// The open charts, views and profile of a working session, persisted as a resource.
#[derive(Debug, PartialEq, Eq)]
pub struct Workspace {
    pub chart_instances: Vec<WorkspaceChart>,
    pub active_chart: Option<InstanceId>,
    pub selected_charts: Vec<InstanceId>,
    pub views: Vec<ViewInstance>,
    pub active_view: Option<ViewInstanceId>,
    pub profile: WorkspaceProfile,
}

/// A chart open in a workspace: a saved library definition or an unsaved one.
#[derive(Clone, Debug, PartialEq, Eq)]
pub enum WorkspaceChart {
    Saved { instance_id: InstanceId, definition: ResourceId },
    Ephemeral { instance_id: InstanceId, definition: Box<ChartDefinition> },
}

impl WorkspaceChart {
    pub open spec fn spec_instance_id(self) -> InstanceId {
        match self {
            WorkspaceChart::Saved { instance_id, .. } => instance_id,
            WorkspaceChart::Ephemeral { instance_id, .. } => instance_id,
        }
    }

    pub open spec fn spec_is_saved(self) -> bool {
        self is Saved
    }

    pub fn instance_id(&self) -> (r: InstanceId)
        ensures
            r == self.spec_instance_id(),
    {
        match self {
            WorkspaceChart::Saved { instance_id, .. } => *instance_id,
            WorkspaceChart::Ephemeral { instance_id, .. } => *instance_id,
        }
    }

    pub fn is_saved(&self) -> (r: bool)
        ensures
            r == self.spec_is_saved(),
    {
        match self {
            WorkspaceChart::Saved { .. } => true,
            WorkspaceChart::Ephemeral { .. } => false,
        }
    }
}

/// The resources a workspace calculates and displays with.
#[derive(Clone, Debug, PartialEq, Eq)]
pub struct WorkspaceProfile {
    pub displayed_points: ResourceBinding<PointSet>,
    pub aspected_points: ResourceBinding<PointSet>,
    pub transit_points: ResourceBinding<PointSet>,
    pub aspects: ResourceBinding<AspectSet>,
    pub analysis: ResourceBinding<AnalysisProfile>,
    pub theme: ResourceBinding<Theme>,
    pub wheel: ResourceBinding<WheelTemplate>,
}

/// Identities of the open charts, in order.
pub open spec fn open_chart_ids(charts: Seq<WorkspaceChart>) -> Seq<InstanceId> {
    charts.map_values(|c: WorkspaceChart| c.spec_instance_id())
}

/// Identities of the views, in order.
pub open spec fn view_ids(views: Seq<ViewInstance>) -> Seq<ViewInstanceId> {
    views.map_values(|v: ViewInstance| v.id)
}

/// No element occurs twice.
pub open spec fn no_duplicates<A>(s: Seq<A>) -> bool {
    forall|a: int, b: int| 0 <= a < b < s.len() ==> s[a] != s[b]
}

pub fn chart_is_open(charts: &Vec<WorkspaceChart>, id: InstanceId) -> (r: bool)
    ensures
        r == open_chart_ids(charts@).contains(id),
{
    let mut i: usize = 0;
    while i < charts.len()
        invariant
            i <= charts@.len(),
            forall|j: int| 0 <= j < i ==> charts@[j].spec_instance_id() != id,
        decreases charts@.len() - i,
    {
        if charts[i].instance_id() == id {
            assert(open_chart_ids(charts@)[i as int] == id);
            return true;
        }
        i += 1;
    }
    false
}

pub fn view_exists(views: &Vec<ViewInstance>, id: ViewInstanceId) -> (r: bool)
    ensures
        r == view_ids(views@).contains(id),
{
    let mut i: usize = 0;
    while i < views.len()
        invariant
            i <= views@.len(),
            forall|j: int| 0 <= j < i ==> views@[j].id != id,
        decreases views@.len() - i,
    {
        if views[i].id == id {
            assert(view_ids(views@)[i as int] == id);
            return true;
        }
        i += 1;
    }
    false
}

pub fn instances_distinct(ids: &Vec<InstanceId>) -> (r: bool)
    ensures
        r == no_duplicates(ids@),
{
    let mut i: usize = 0;
    while i < ids.len()
        invariant
            i <= ids@.len(),
            forall|a: int, b: int| 0 <= a < b < i ==> ids@[a] != ids@[b],
        decreases ids@.len() - i,
    {
        let mut j: usize = 0;
        while j < i
            invariant
                i < ids@.len(),
                j <= i,
                forall|a: int| 0 <= a < j ==> ids@[a] != ids@[i as int],
            decreases i - j,
        {
            if ids[j] == ids[i] {
                return false;
            }
            j += 1;
        }
        i += 1;
    }
    true
}

pub fn charts_distinct(charts: &Vec<WorkspaceChart>) -> (r: bool)
    ensures
        r == no_duplicates(open_chart_ids(charts@)),
{
    let ghost ids = open_chart_ids(charts@);
    let mut i: usize = 0;
    while i < charts.len()
        invariant
            ids == open_chart_ids(charts@),
            i <= charts@.len(),
            forall|a: int, b: int| 0 <= a < b < i ==> ids[a] != ids[b],
        decreases charts@.len() - i,
    {
        let mut j: usize = 0;
        while j < i
            invariant
                ids == open_chart_ids(charts@),
                i < charts@.len(),
                j <= i,
                forall|a: int| 0 <= a < j ==> ids[a] != ids[i as int],
            decreases i - j,
        {
            if charts[j].instance_id() == charts[i].instance_id() {
                assert(ids[j as int] == ids[i as int]);
                return false;
            }
            j += 1;
        }
        i += 1;
    }
    true
}

pub fn views_distinct(views: &Vec<ViewInstance>) -> (r: bool)
    ensures
        r == no_duplicates(view_ids(views@)),
{
    let ghost ids = view_ids(views@);
    let mut i: usize = 0;
    while i < views.len()
        invariant
            ids == view_ids(views@),
            i <= views@.len(),
            forall|a: int, b: int| 0 <= a < b < i ==> ids[a] != ids[b],
        decreases views@.len() - i,
    {
        let mut j: usize = 0;
        while j < i
            invariant
                ids == view_ids(views@),
                i < views@.len(),
                j <= i,
                forall|a: int| 0 <= a < j ==> ids[a] != ids[i as int],
            decreases i - j,
        {
            if views[j].id == views[i].id {
                assert(ids[j as int] == ids[i as int]);
                return false;
            }
            j += 1;
        }
        i += 1;
    }
    true
}

impl DomainValidate for Workspace {
    /// Reference integrity: open charts and views have distinct identities, the active chart and
    /// every selected chart are open, a chart is selected at most once, and the active view exists.
    open spec fn domain_valid(&self) -> bool {
        let charts = open_chart_ids(self.chart_instances@);
        &&& no_duplicates(charts)
        &&& (self.active_chart matches Some(id) ==> charts.contains(id))
        &&& no_duplicates(self.selected_charts@)
        &&& forall|i: int| 0 <= i < self.selected_charts@.len() ==> charts.contains(#[trigger] self.selected_charts@[i])
        &&& no_duplicates(view_ids(self.views@))
        &&& (self.active_view matches Some(id) ==> view_ids(self.views@).contains(id))
    }

    fn domain_validate(&self) -> (r: Result<(), DomainValidationError>) {
        if !charts_distinct(&self.chart_instances) {
            return Err(DomainValidationError::new("chart_instances.instance_id", DomainValidationIssue::Duplicate));
        }
        match self.active_chart {
            Some(id) => {
                if !chart_is_open(&self.chart_instances, id) {
                    return Err(DomainValidationError::new("active_chart", DomainValidationIssue::InvalidReference));
                }
            },
            None => {},
        }
        if !instances_distinct(&self.selected_charts) {
            return Err(DomainValidationError::new("selected_charts", DomainValidationIssue::Duplicate));
        }
        let mut i: usize = 0;
        while i < self.selected_charts.len()
            invariant
                i <= self.selected_charts@.len(),
                forall|j: int| 0 <= j < i ==> open_chart_ids(self.chart_instances@).contains(#[trigger] self.selected_charts@[j]),
            decreases self.selected_charts@.len() - i,
        {
            if !chart_is_open(&self.chart_instances, self.selected_charts[i]) {
                return Err(DomainValidationError::new("selected_charts", DomainValidationIssue::InvalidReference));
            }
            i += 1;
        }
        if !views_distinct(&self.views) {
            return Err(DomainValidationError::new("views.id", DomainValidationIssue::Duplicate));
        }
        match self.active_view {
            Some(id) => {
                if !view_exists(&self.views, id) {
                    return Err(DomainValidationError::new("active_view", DomainValidationIssue::InvalidReference));
                }
            },
            None => {},
        }
        Ok(())
    }
}

/// Presentation state of the workspace shell.
#[derive(Clone, Debug, PartialEq, Eq)]
pub struct WorkspaceUiState {
    pub sidebar_width_bits: u32,
    pub inspector_open: bool,
    pub focused_panel: Option<PanelId>,
    pub scroll_positions: Vec<(PanelId, u64)>,
}

impl DeepCopy for WorkspaceChart {
    open spec fn copy_of(self, other: Self) -> bool {
        match (self, other) {
            (WorkspaceChart::Ephemeral { instance_id: i, definition: d }, WorkspaceChart::Ephemeral { instance_id: j, definition: e }) =>
                i == j && (*d).copy_of(*e),
            (WorkspaceChart::Ephemeral { .. }, _) => false,
            (_, WorkspaceChart::Ephemeral { .. }) => false,
            _ => self == other,
        }
    }

    fn deep_copy(&self) -> (r: Self) {
        match self {
            WorkspaceChart::Saved { instance_id, definition } => WorkspaceChart::Saved { instance_id: *instance_id, definition: *definition },
            WorkspaceChart::Ephemeral { instance_id, definition } => WorkspaceChart::Ephemeral {
                instance_id: *instance_id,
                definition: Box::new((**definition).deep_copy()),
            },
        }
    }
}

impl DeepCopy for WorkspaceProfile {
    open spec fn copy_of(self, other: Self) -> bool {
        &&& self.displayed_points.copy_of(other.displayed_points)
        &&& self.aspected_points.copy_of(other.aspected_points)
        &&& self.transit_points.copy_of(other.transit_points)
        &&& self.aspects.copy_of(other.aspects)
        &&& self.analysis.copy_of(other.analysis)
        &&& self.theme.copy_of(other.theme)
        &&& self.wheel.copy_of(other.wheel)
    }

    fn deep_copy(&self) -> (r: Self) {
        WorkspaceProfile {
            displayed_points: self.displayed_points.deep_copy(),
            aspected_points: self.aspected_points.deep_copy(),
            transit_points: self.transit_points.deep_copy(),
            aspects: self.aspects.deep_copy(),
            analysis: self.analysis.deep_copy(),
            theme: self.theme.deep_copy(),
            wheel: self.wheel.deep_copy(),
        }
    }
}

impl DeepCopy for Workspace {
    open spec fn copy_of(self, other: Self) -> bool {
        &&& copies_of(self.chart_instances@, other.chart_instances@)
        &&& self.active_chart == other.active_chart
        &&& self.selected_charts@ == other.selected_charts@
        &&& copies_of(self.views@, other.views@)
        &&& self.active_view == other.active_view
        &&& self.profile.copy_of(other.profile)
    }

    fn deep_copy(&self) -> (r: Self) {
        let selected_charts = copy_vec(&self.selected_charts);
        assert(selected_charts@ =~= self.selected_charts@);
        Workspace {
            chart_instances: copy_vec(&self.chart_instances),
            active_chart: self.active_chart,
            selected_charts,
            views: copy_vec(&self.views),
            active_view: self.active_view,
            profile: self.profile.deep_copy(),
        }
    }
}


} // verus!
