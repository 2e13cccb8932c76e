use astra::automation::{parse_configuration, AutomationConfiguration};
use astra::binding::{resolve_typed_binding, ResolutionLayer};
use astra::bootstrap::{bootstrap_ids, bootstrap_resources};
use astra::validation::DomainValidate;
use astra::bootstrap::BootstrapIds;
use astra::catalog::Catalog;
use astra::chart::{CalculationSpec, ChartDefinition, ChartSource};
use astra::command::Command;
use astra::demo;
use astra::edit_buffer::EditBuffer;
use astra::entry::{parse_date, parse_offset, parse_time};
use astra::ids::{ChartSlotId, InstanceId, ResourceId, Revision, Timestamp};
use astra::read_model::{AppAction, AppReadModel, ApplicationStatus, Availability, CommandCapability};
use astra::resource::{CanonicalResource, PointSelector, PointSet, ResourceBinding, ResourceEnvelope};
use astra::shortcuts::{command_for_key, metadata, CommandId};
use astra::slots::SlotAssignments;
use astra::time::CivilDate;
use astra::units::{Binary64, Latitude, Longitude};
use astra::view::{
    AnalysisProfile, AspectFieldSpec, ChartSlot, HouseDisplaySpec, LabelSpec, ObjectFrame,
    PageLayout, PointRole, RingGeometry, RingSpec, Theme, ViewDocument, ViewInstance, ViewObject,
    ViewOverrides, WheelObject, WheelTemplate, ZodiacDisplaySpec,
};
use astra::workspace::{Workspace, WorkspaceChart, WorkspaceProfile};
use astra::intents::resolve_view_documents;
use astra::workspace_commands::apply_workspace_command;

fn bits(value: f64) -> Binary64 {
    Binary64 { bits: value.to_bits() }
}

fn slot(name: &str) -> ChartSlotId {
    ChartSlotId::new(name).expect("slot ID is valid")
}

fn wheel_template() -> WheelTemplate {
    WheelTemplate {
        rings: vec![RingSpec {
            chart_slot: slot("radix"),
            point_role: PointRole::Primary,
            geometry: RingGeometry { inner_radius: bits(125.0), outer_radius: bits(150.0) },
        }],
        aspect_field: AspectFieldSpec { radius: bits(105.0) },
        houses: HouseDisplaySpec { show_cusps: true, show_numbers: true },
        zodiac: ZodiacDisplaySpec { show_boundaries: true, show_labels: true },
        labels: LabelSpec { show_degrees: true, show_retrograde: true },
    }
}

fn profile(ids: &BootstrapIds) -> WorkspaceProfile {
    WorkspaceProfile {
        displayed_points: ResourceBinding::Inline { value: demo::points() },
        aspected_points: ResourceBinding::Inline { value: demo::points() },
        transit_points: ResourceBinding::Inline { value: demo::points() },
        aspects: ResourceBinding::Follow { id: ids.aspect_set_standard },
        analysis: ResourceBinding::Inline { value: AnalysisProfile::default() },
        theme: ResourceBinding::Inline {
            value: Theme {
                background: "#121416".into(),
                foreground: "#f4f1e8".into(),
                muted: "#7f8790".into(),
                accent: "#c79a5b".into(),
                aspect_color: "#a96772".into(),
            },
        },
        wheel: ResourceBinding::Inline { value: wheel_template() },
    }
}

/// The bootstrap workspace: one saved chart, active, in the required radix slot of an inline
/// single-wheel view.
fn workspace_fixture() -> (ResourceId, Workspace) {
    let ids = bootstrap_ids();
    let CanonicalResource::Workspace(workspace) = bootstrap_resources().remove(6) else {
        panic!("last bootstrap resource is the workspace");
    };
    (ids.workspace, workspace.payload)
}

#[test]
fn automation_requires_explicit_enablement_and_isolated_database() {
    assert_eq!(parse_configuration(None, None), Ok(None));
    assert_eq!(parse_configuration(Some("0"), Some("mirabile")), Ok(None));
    assert!(parse_configuration(Some("1"), Some("mirabile")).is_err());
    assert!(parse_configuration(Some("1"), Some("mirabile-workbench-e2e-")).is_err());
    assert_eq!(
        parse_configuration(Some("1"), Some("mirabile-workbench-e2e-42")),
        Ok(Some(AutomationConfiguration { database_name: "mirabile-workbench-e2e-42".into() }))
    );
}

#[test]
fn shortcuts_preserve_normal_form_entry() {
    assert_eq!(command_for_key("s", true, false, true), Some(CommandId::SaveDraft));
    assert_eq!(command_for_key("Escape", false, false, true), None);
    assert_eq!(command_for_key("1", false, true, true), None);
    assert_eq!(command_for_key("1", false, true, false), Some(CommandId::FocusChartRail));
    assert_eq!(command_for_key("r", true, false, false), Some(CommandId::RefreshView));
}

#[test]
fn command_metadata_keeps_presentation_out_of_application_contract() {
    let save = metadata(CommandId::SaveDraft);
    assert_eq!(save.group, "Resource editing");
    assert!(save.keywords.contains(&"revision"));
}

#[test]
fn civil_date_checks_leap_days() {
    assert!(CivilDate::new(2000, 2, 29).is_ok());
    assert!(CivilDate::new(1900, 2, 29).is_err());
}

#[test]
fn initializing_projection_has_no_false_ready_data() {
    let model = AppReadModel::<()>::initializing();

    assert_eq!(model.status, ApplicationStatus::Initializing);
    assert!(model.active_view.is_none());
    assert_eq!(model.availability(AppAction::SaveDraft), Availability::Hidden);
}

#[test]
fn disabled_capability_retains_application_reason() {
    let mut model = AppReadModel::<()>::initializing();
    model.capabilities.push(CommandCapability {
        action: AppAction::SaveDraft,
        availability: Availability::Disabled { reason: Some("Begin an edit before saving".into()) },
    });

    let availability = model.availability(AppAction::SaveDraft);
    assert_eq!(availability.disabled_reason(), Some("Begin an edit before saving"));
}

#[test]
fn activation_and_selection_remain_independent() {
    let (workspace_id, mut workspace) = workspace_fixture();
    let initial = workspace.active_chart.expect("active chart");
    let documents = resolve_view_documents(&workspace.views, &Catalog::new()).expect("inline documents resolve");
    apply_workspace_command(
        workspace_id,
        &mut workspace,
        Command::SetChartSelection { workspace: workspace_id, instance_id: initial, selected: true },
        &documents,
    )
    .expect("selection command succeeds");

    assert_eq!(workspace.active_chart, Some(initial));
    assert_eq!(workspace.selected_charts, vec![initial]);
}

#[test]
fn close_repairs_required_inline_slot_to_neighbor() {
    let ids = bootstrap_ids();
    let (workspace_id, mut workspace) = workspace_fixture();
    let second = InstanceId::new();
    let documents = resolve_view_documents(&workspace.views, &Catalog::new()).expect("inline documents resolve");
    apply_workspace_command(
        workspace_id,
        &mut workspace,
        Command::OpenSavedChart {
            workspace: workspace_id,
            definition: ids.chart_definition_b,
            instance_id: second,
        },
        &documents,
    )
    .expect("open command succeeds");
    apply_workspace_command(
        workspace_id,
        &mut workspace,
        Command::CloseChart { workspace: workspace_id, instance_id: ids.chart_instance_a },
        &documents,
    )
    .expect("close command succeeds");

    assert_eq!(workspace.active_chart, Some(second));
    assert_eq!(workspace.views[0].charts.get(&ChartSlotId::new("radix").expect("slot ID")), Some(second));
}

#[test]
fn ephemeral_chart_does_not_require_library_resource() {
    let ids = bootstrap_ids();
    let chart = WorkspaceChart::Ephemeral {
        instance_id: InstanceId::new(),
        definition: Box::new(ChartDefinition {
            source: ChartSource::Radix { record: ResourceId::new() },
            calculation: CalculationSpec::default(),
        }),
    };
    let workspace = Workspace {
        active_chart: Some(chart.instance_id()),
        selected_charts: vec![chart.instance_id()],
        chart_instances: vec![chart],
        views: Vec::new(),
        active_view: None,
        profile: profile(&ids),
    };

    assert!(!workspace.chart_instances[0].is_saved());
}

#[test]
fn binding_resolver_preserves_inline_follow_and_pinned_semantics() {
    let id = ResourceId::new();
    let first = ResourceEnvelope::with_id(
        id,
        "Points",
        PointSet { points: vec![PointSelector::Category("personal".into())] },
        Timestamp::from_unix_millis(1),
    );
    let second = first
        .next_with_payload(
            PointSet { points: vec![PointSelector::Category("planets".into())] },
            Timestamp::from_unix_millis(2),
        )
        .expect("second revision");
    let mut catalog = Catalog::new();
    catalog.insert_current(CanonicalResource::PointSet(first.clone()));
    catalog.insert_current(CanonicalResource::PointSet(second.clone()));

    let follow = ResourceBinding::<PointSet>::Follow { id };
    let pin = ResourceBinding::<PointSet>::Pinned { id, revision: Revision::initial() };
    let inline_binding = ResourceBinding::Inline { value: PointSet { points: Vec::new() } };
    let followed = resolve_typed_binding(&follow, &catalog).expect("follow resolves");
    let pinned = resolve_typed_binding(&pin, &catalog).expect("pin resolves");
    let inline = resolve_typed_binding(&inline_binding, &catalog).expect("inline resolves");

    assert_eq!(followed.revision, Some(second.revision));
    assert_eq!(followed.layer, ResolutionLayer::FollowedResource);
    assert_eq!(pinned.revision, Some(Revision::initial()));
    assert_eq!(pinned.layer, ResolutionLayer::PinnedResource);
    assert_eq!(inline.resource, None);
    assert_eq!(inline.revision, None);
    assert_eq!(inline.layer, ResolutionLayer::Inline);
}

#[test]
fn coordinates_enforce_physical_bounds() {
    assert!(Latitude::from_bits(90.1f64.to_bits()).is_err());
    assert!(Longitude::from_bits((-180.0f64).to_bits()).is_ok());
}

#[test]
fn civil_and_location_parsers_reject_invalid_buffers() {
    assert_eq!(parse_date("2026-08-24").expect("date").day(), 24);
    assert!(parse_date("2026-02-30").is_err());
    assert_eq!(parse_time("23:59").expect("time").second(), 0);
    let latitude: f64 = "90.1".parse().expect("a number");
    assert!(Latitude::from_bits(latitude.to_bits()).is_err());
    let longitude: f64 = "-181".parse().expect("a number");
    assert!(Longitude::from_bits(longitude.to_bits()).is_err());
    assert_eq!(parse_offset("-300").expect("offset").seconds(), -18_000);
}

#[test]
fn invalid_local_buffer_never_replaces_authoritative_value() {
    let mut field = EditBuffer::new(6_u32);
    field.begin();
    field.input("6.");
    assert_eq!(
        field.validate(|text| text.parse::<u32>().map_err(|error| error.to_string())),
        None
    );
    assert!(field.error().is_some());
    field.cancel();
    assert_eq!(field.buffer(), "6");
    assert!(!field.editing());
}

#[test]
fn valid_commit_and_external_synchronization_are_explicit() {
    let mut field = EditBuffer::new("old".to_owned());
    field.begin();
    field.input("new");
    let parsed = field
        .validate(|text| Ok(text.trim().to_owned()))
        .expect("valid");
    field.commit(parsed);
    assert_eq!(field.buffer(), "new");
    field.synchronize("remote".to_owned());
    assert_eq!(field.buffer(), "remote");
}

#[test]
fn bootstrap_is_small_deterministic_and_domain_valid() {
    let first = bootstrap_resources();
    let second = bootstrap_resources();

    assert_eq!(first, second);
    assert_eq!(first.len(), 7);
    for resource in &first {
        resource.validate().expect("bootstrap resource validates");
    }
    let CanonicalResource::Workspace(workspace) = &first[6] else {
        panic!("last bootstrap resource is the workspace");
    };
    workspace.payload.domain_validate().expect("bootstrap workspace validates");
}
