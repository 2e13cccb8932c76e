use astra::automation::valid_database_name;
use astra::binding::{resolve_typed_binding, BindingResolutionError};
use astra::bootstrap::bootstrap_ids;
use astra::catalog::Catalog;
use astra::chart::{ChartRecord, EventKind, LocationAssertion, SourceProvenance, SourceType};
use astra::copy::DeepCopy;
use astra::demo;
use astra::ids::{ChartSlotId, InstanceId, PointId, ResourceId, Revision, Timestamp};
use astra::lifecycle::{bootstrap_step, pinned_unavailable, BootstrapHead};
use astra::projection::chart_subtitle;
use astra::read_model::{availability_title, draft_state_label, AppErrorKind, Availability, DraftState};
use astra::shortcuts::{command_title, metadata, CommandId};
use astra::resource::{CanonicalResource, PointSelector, PointSet, ResourceBinding, ResourceEnvelope, ResourceKind};
use astra::slots::SlotAssignments;
use astra::time::{
    days_in_month, is_leap_year, CalendarSpec, CivilDate, CivilDateTime, CivilTime, TemporalAssertion,
    TimeZoneAssertion,
};
use astra::units::{Latitude, Longitude, Offset, UnitError};
use astra::validation::{DomainValidationError, DomainValidationIssue};
use astra::workspace_commands::WorkspaceCommandError;

fn slot(name: &str) -> ChartSlotId {
    ChartSlotId::new(name).expect("slot ID")
}

fn record(date: CivilDate, place: &str) -> ResourceEnvelope<ChartRecord> {
    ResourceEnvelope::new(
        "Record",
        ChartRecord {
            event_kind: EventKind::Event,
            subject: None,
            time: TemporalAssertion {
                civil_datetime: CivilDateTime { date, time: CivilTime::new(0, 0, 0).expect("time") },
                calendar: CalendarSpec::Julian,
                zone: TimeZoneAssertion::LocalMeanTime,
                disambiguation: None,
            },
            location: LocationAssertion {
                display_name: place.into(),
                country_region: None,
                latitude: Latitude::from_bits(41.9f64.to_bits()).expect("latitude"),
                longitude: Longitude::from_bits(12.5f64.to_bits()).expect("longitude"),
                atlas_provenance: None,
            },
            source: SourceProvenance {
                description: "Published account".into(),
                source_type: SourceType::Published,
                recorded_by: None,
            },
            notes: Vec::new(),
            life_events: Vec::new(),
        },
        Timestamp::from_unix_millis(5),
    )
}

#[test]
fn identity_text_round_trips() {
    let id = ResourceId::from_u128(0x0123_4567_89ab_cdef_0123_4567_89ab_cdef);
    let text = id.to_string();
    assert_eq!(text, "01234567-89ab-cdef-0123-456789abcdef");
    assert_eq!(ResourceId::parse(&text), Ok(id));
    assert!(ResourceId::parse("not-a-uuid").is_err());
    assert_eq!(bootstrap_ids().workspace.to_string(), "14000000-0000-4000-8000-000000000001");
    assert_eq!(bootstrap_ids().view.to_string(), "16000000-0000-4000-8000-000000000001");
}

#[test]
fn fresh_identities_are_random_version_four() {
    let first = InstanceId::new();
    let second = InstanceId::new();
    assert_ne!(first, second);
    let text = first.to_string();
    assert_eq!(text.as_bytes()[14], b'4');
    assert!(matches!(text.as_bytes()[19], b'8' | b'9' | b'a' | b'b'));
}

#[test]
fn revisions_start_at_one_and_advance_by_one() {
    assert_eq!(Revision::initial().get(), 1);
    assert_eq!(Revision::initial().next().expect("next").get(), 2);
    assert!(Revision::new(0).is_err());
    assert!(Revision::new(u64::MAX).expect("max").next().is_err());
}

#[test]
fn chart_subtitles_name_the_date_and_place() {
    let modern = record(CivilDate::new(1985, 7, 4).expect("date"), "New York");
    assert_eq!(chart_subtitle(&modern), "Jul 4, 1985 · New York");
    let ancient = record(CivilDate::new(-44, 3, 15).expect("date"), "Rome");
    assert_eq!(chart_subtitle(&ancient), "Mar 15, -44 · Rome");
}

#[test]
fn error_messages_name_what_failed() {
    let empty = DomainValidationError::new("title", DomainValidationIssue::Empty);
    assert_eq!(empty.to_string(), "title: must not be empty");
    assert_eq!(empty.prepend("profile").to_string(), "profile.title: must not be empty");
    let mismatch = WorkspaceCommandError::WorkspaceMismatch {
        expected: ResourceId::from_u128(1),
        actual: ResourceId::from_u128(2),
    };
    assert_eq!(
        mismatch.to_string(),
        "command targets workspace 00000000-0000-0000-0000-000000000002, but the active workspace is 00000000-0000-0000-0000-000000000001"
    );
    let pinned = BindingResolutionError::PinnedMissing {
        id: ResourceId::from_u128(3),
        revision: Revision::new(12).expect("revision"),
    };
    assert_eq!(pinned.to_string(), "pinned resource 00000000-0000-0000-0000-000000000003 revision 12 was not found");
    let unavailable = pinned_unavailable(ResourceId::from_u128(3), Revision::new(12).expect("revision"));
    assert_eq!(unavailable.kind, AppErrorKind::Initialization);
    assert_eq!(unavailable.message, "Pinned resource 00000000-0000-0000-0000-000000000003 revision 12 was not available");
}

#[test]
fn bootstrap_creates_only_missing_resources() {
    let id = bootstrap_ids().aspect_set_standard;
    assert_eq!(bootstrap_step(id, ResourceKind::AspectSet, BootstrapHead::Missing), Ok(true));
    assert_eq!(
        bootstrap_step(id, ResourceKind::AspectSet, BootstrapHead::Present(ResourceKind::AspectSet)),
        Ok(false)
    );
    let wrong = bootstrap_step(id, ResourceKind::AspectSet, BootstrapHead::Present(ResourceKind::Theme))
        .expect_err("kind mismatch");
    assert_eq!(wrong.message, "Bootstrap identity 13000000-0000-4000-8000-000000000001 contains Theme, expected AspectSet");
    let deleted = bootstrap_step(id, ResourceKind::AspectSet, BootstrapHead::Deleted).expect_err("deleted");
    assert_eq!(deleted.message, "Bootstrap resource 13000000-0000-4000-8000-000000000001 was deleted and cannot be recreated");
}

#[test]
fn demo_fixtures_hold_their_values() {
    let names: Vec<String> = demo::points()
        .points
        .iter()
        .map(|selector| match selector {
            PointSelector::Point(point) => point.as_str().to_string(),
            PointSelector::Category(category) => category.clone(),
        })
        .collect();
    assert_eq!(names, vec!["sun", "moon", "mercury", "venus", "mars", "jupiter"]);
    assert_eq!(demo::dark_theme().background, "#111827");
    assert_eq!(demo::light_theme().accent, "#2563eb");
    assert!(demo::analysis_profile().include_applying_state);
    assert!(!demo::analysis_profile().include_patterns);
}

#[test]
fn slot_assignments_read_back_what_was_written() {
    let mut charts = SlotAssignments::new();
    let first = InstanceId::from_u128(1);
    let second = InstanceId::from_u128(2);
    charts.insert(slot("radix"), first);
    charts.insert(slot("comparison"), first);
    charts.insert(slot("radix"), second);
    assert_eq!(charts.get(&slot("radix")), Some(second));
    assert_eq!(charts.get(&slot("comparison")), Some(first));
    assert!(charts.is_well_formed());
    charts.remove(&slot("radix"));
    assert_eq!(charts.get(&slot("radix")), None);
    let of_first: Vec<String> = charts.slots_of(first).iter().map(|s| s.as_str().to_string()).collect();
    assert_eq!(of_first, vec!["comparison"]);
}

#[test]
fn units_enforce_their_domains() {
    assert!(Offset::from_seconds(86_400).is_ok());
    assert_eq!(Offset::from_seconds(86_401), Err(UnitError::OffsetOutOfRange(86_401)));
    assert!(Latitude::from_bits(90.0f64.to_bits()).is_ok());
    assert!(Latitude::from_bits(f64::NAN.to_bits()).is_err());
    assert!(Longitude::from_bits(180.5f64.to_bits()).is_err());
    assert!(CivilTime::new(23, 59, 59).is_ok());
    assert!(CivilTime::new(24, 0, 0).is_err());
    assert!(is_leap_year(2024));
    assert!(!is_leap_year(2100));
    assert_eq!(days_in_month(2024, 2), 29);
    assert_eq!(days_in_month(2023, 2), 28);
}

#[test]
fn automation_database_names_are_isolated() {
    assert!(valid_database_name("mirabile-workbench-dev-a1"));
    assert!(!valid_database_name("mirabile-workbench-dev-A1"));
    assert!(!valid_database_name("mirabile"));
}

#[test]
fn a_pin_keeps_its_revision_after_a_newer_one_is_written() {
    let first = ResourceEnvelope::new("Points", PointSet { points: Vec::new() }, Timestamp::from_unix_millis(1));
    let id = first.id;
    let second = first
        .next_with_payload(
            PointSet { points: vec![PointSelector::Point(PointId::new("sun").expect("point"))] },
            Timestamp::from_unix_millis(2),
        )
        .expect("second");
    let mut catalog = Catalog::new();
    catalog.insert_current(CanonicalResource::PointSet(first));
    catalog.insert_current(CanonicalResource::PointSet(second));
    let pin = ResourceBinding::<PointSet>::Pinned { id, revision: Revision::initial() };
    let follow = ResourceBinding::<PointSet>::Follow { id };
    assert!(resolve_typed_binding(&pin, &catalog).expect("pinned").value.points.is_empty());
    assert_eq!(resolve_typed_binding(&follow, &catalog).expect("followed").value.points.len(), 1);
    let missing = ResourceBinding::<PointSet>::Pinned { id, revision: Revision::new(9).expect("revision") };
    assert_eq!(
        resolve_typed_binding(&missing, &catalog).err(),
        Some(BindingResolutionError::PinnedMissing { id, revision: Revision::new(9).expect("revision") })
    );
    assert_eq!(catalog.current(id).expect("current").revision().get(), 2);
}

#[test]
fn a_deep_copy_equals_its_original() {
    let original = record(CivilDate::new(2000, 1, 1).expect("date"), "Greenwich");
    let copied = original.payload.time.deep_copy();
    assert_eq!(copied, original.payload.time);
    let points = demo::points();
    assert_eq!(points.deep_copy(), points);
}

#[test]
fn command_titles_name_the_shortcut_or_the_reason() {
    let save = metadata(CommandId::SaveDraft);
    assert_eq!(command_title(&save, &Availability::Enabled), "Save (Ctrl/\u{2318} S)");
    let disabled = Availability::Disabled { reason: Some("Begin an edit before saving".to_owned()) };
    assert_eq!(command_title(&save, &disabled), "Save: Begin an edit before saving");
    assert_eq!(availability_title(&disabled), "Begin an edit before saving");
    assert_eq!(availability_title(&Availability::Hidden), "");
    let revision = Revision::initial();
    assert_eq!(draft_state_label(&DraftState::Clean { revision }), "Clean");
    assert_eq!(
        draft_state_label(&DraftState::Conflict { base_revision: revision, remote_revision: revision }),
        "Conflict"
    );
}

#[test]
fn identities_are_read_in_every_accepted_form() {
    let id = ResourceId::from_u128(0x550e_8400_e29b_41d4_a716_4466_5544_0000);
    for text in [
        "550e8400-e29b-41d4-a716-446655440000",
        "550E8400-E29B-41D4-A716-446655440000",
        "550e8400e29b41d4a716446655440000",
        "{550e8400-e29b-41d4-a716-446655440000}",
        "URN:uuid:550e8400-e29b-41d4-a716-446655440000",
    ] {
        assert_eq!(ResourceId::parse(text), Ok(id), "{text}");
    }
    for text in [
        "",
        "550e8400-e29b-41d4-a716-44665544000g",
        "550e8400e29b-41d4-a716-4466554400000",
        "(550e8400-e29b-41d4-a716-446655440000)",
        "urn:uid:550e8400-e29b-41d4-a716-4466554400000",
        "550e8400-e29b-41d4-a716-44665544000é",
    ] {
        assert!(ResourceId::parse(text).is_err(), "{text}");
    }
}

#[test]
fn demonstration_resources_hold_their_values() {
    let record = demo::record();
    assert_eq!(record.id.to_string(), "b0388048-c627-4fe3-a37f-93445bb6828a");
    assert_eq!(record.payload.location.latitude.to_bits(), 51.48f64.to_bits());
    record.validate().expect("demo record validates");
    let definition = demo::definition(record.id);
    assert_eq!(definition.id.to_string(), "687d75b4-c8e1-4775-912b-1f38046fbd6f");
    definition.validate().expect("demo definition validates");
    let aspects = demo::aspect_resource();
    assert_eq!(aspects.id.to_string(), "3e552f02-b997-48d2-9677-b7e6c217bef4");
    let orbs: Vec<f64> =
        aspects.payload.aspects.iter().map(|aspect| f64::from_bits(aspect.orbs.maximum.to_bits())).collect();
    assert_eq!(orbs, vec![8.0, 5.0, 5.0, 6.0, 7.0]);
    aspects.validate().expect("demo aspects validate");
    assert_eq!(f64::from_bits(demo::wheel().aspect_field.radius.bits), 105.0);
}

#[test]
fn timestamps_order_by_their_milliseconds() {
    assert!(Timestamp::from_unix_millis(1) < Timestamp::from_unix_millis(2));
    assert!(Timestamp::from_unix_millis(-5) <= Timestamp::from_unix_millis(-5));
    assert!(Timestamp::from_unix_millis(3) > Timestamp::from_unix_millis(-3));
}
