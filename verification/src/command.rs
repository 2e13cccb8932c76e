use vstd::prelude::*;

use crate::chart::ChartDefinition;
use crate::ids::{ChartSlotId, InstanceId, ResourceId, Revision, ViewInstanceId};
use crate::resource::CanonicalResource;

verus! {

/// A portable, typed mutation of the library or of a workspace.
#[derive(Debug, PartialEq, Eq)]
pub enum Command {
    CreateResource { resource: CanonicalResource },
    SaveResourceDraft { expected_revision: Revision, resource: CanonicalResource },
    OpenSavedChart { workspace: ResourceId, definition: ResourceId, instance_id: InstanceId },
    OpenEphemeralChart {
        workspace: ResourceId,
        definition: Box<ChartDefinition>,
        instance_id: InstanceId,
    },
    CloseChart { workspace: ResourceId, instance_id: InstanceId },
    SetActiveChart { workspace: ResourceId, instance_id: Option<InstanceId> },
    SetChartSelection { workspace: ResourceId, instance_id: InstanceId, selected: bool },
    SetActiveView { workspace: ResourceId, view: Option<ViewInstanceId> },
    AssignChartSlot {
        workspace: ResourceId,
        view: ViewInstanceId,
        slot: ChartSlotId,
        chart: Option<InstanceId>,
    },
    SetWorkspaceAspectSet { workspace: ResourceId, aspect_set: ResourceId },
}

} // verus!
