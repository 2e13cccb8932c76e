use vstd::prelude::*;

use crate::chart::{
    CalculationSpec, ChartDefinition, ChartRecord, ChartSource, EventKind, LocationAssertion,
    SourceProvenance, SourceType,
};
use crate::demo;
use crate::ids::{is_blank, is_white_space, AspectId, ChartSlotId, InstanceId, ResourceId, Timestamp, ViewInstanceId};
use crate::resource::{
    AspectClass, AspectDefinition, AspectSet, CanonicalResource, OrbPolicy, ResourceBinding, ResourceEnvelope,
    ResourceKind,
};
use crate::slots::SlotAssignments;
use crate::resource::{aspect_id_texts, has_duplicate_text};
use crate::validation::{positive_bits, within_zero_to, DomainValidate};
use crate::workspace::{open_chart_ids, view_ids};
use crate::workspace_commands::views_wf;
use crate::time::{CalendarSpec, CivilDate, CivilDateTime, CivilTime, TemporalAssertion, TimeZoneAssertion};
use crate::units::{
    finite_bits, within_symmetric_bound, Angle, Binary64, Latitude, Longitude, Offset, NINETY_DEGREES_BITS,
    ONE_HUNDRED_EIGHTY_DEGREES_BITS,
};
use crate::view::{
    AnalysisProfile, ChartSlot, ObjectFrame, PageLayout, Theme, ViewDocument, ViewInstance, ViewObject,
    ViewOverrides, WheelObject,
};
use crate::workspace::{Workspace, WorkspaceChart, WorkspaceProfile};

verus! {

/// Identity of the first bootstrap chart record, `11000000-0000-4000-8000-000000000001`.
pub const CHART_RECORD_A: u128 = 0x11000000_0000_4000_8000_000000000001;

/// Identity of the second bootstrap chart record, `11000000-0000-4000-8000-000000000002`.
pub const CHART_RECORD_B: u128 = 0x11000000_0000_4000_8000_000000000002;

/// Identity of the first bootstrap chart definition, `12000000-0000-4000-8000-000000000001`.
pub const CHART_DEFINITION_A: u128 = 0x12000000_0000_4000_8000_000000000001;

/// Identity of the second bootstrap chart definition, `12000000-0000-4000-8000-000000000002`.
pub const CHART_DEFINITION_B: u128 = 0x12000000_0000_4000_8000_000000000002;

/// Identity of the standard Aspect Set, `13000000-0000-4000-8000-000000000001`.
pub const ASPECT_SET_STANDARD: u128 = 0x13000000_0000_4000_8000_000000000001;

/// Identity of the tight Aspect Set, `13000000-0000-4000-8000-000000000002`.
pub const ASPECT_SET_TIGHT: u128 = 0x13000000_0000_4000_8000_000000000002;

/// Identity of the bootstrap workspace, `14000000-0000-4000-8000-000000000001`.
pub const WORKSPACE: u128 = 0x14000000_0000_4000_8000_000000000001;

/// Identity of the chart opened in the bootstrap workspace, `15000000-0000-4000-8000-000000000001`.
pub const CHART_INSTANCE_A: u128 = 0x15000000_0000_4000_8000_000000000001;

/// Identity of the bootstrap view, `16000000-0000-4000-8000-000000000001`.
pub const VIEW: u128 = 0x16000000_0000_4000_8000_000000000001;

/// The stable identities reserved for the deterministic first-run bootstrap.
#[derive(Clone, Copy, Debug, PartialEq, Eq, Structural)]
pub struct BootstrapIds {
    pub chart_record_a: ResourceId,
    pub chart_record_b: ResourceId,
    pub chart_definition_a: ResourceId,
    pub chart_definition_b: ResourceId,
    pub aspect_set_standard: ResourceId,
    pub aspect_set_tight: ResourceId,
    pub workspace: ResourceId,
    pub chart_instance_a: InstanceId,
    pub view: ViewInstanceId,
}

/// The stable identities reserved for the deterministic first-run bootstrap.
pub open spec fn spec_bootstrap_ids() -> BootstrapIds {
    BootstrapIds {
        chart_record_a: ResourceId(CHART_RECORD_A),
        chart_record_b: ResourceId(CHART_RECORD_B),
        chart_definition_a: ResourceId(CHART_DEFINITION_A),
        chart_definition_b: ResourceId(CHART_DEFINITION_B),
        aspect_set_standard: ResourceId(ASPECT_SET_STANDARD),
        aspect_set_tight: ResourceId(ASPECT_SET_TIGHT),
        workspace: ResourceId(WORKSPACE),
        chart_instance_a: InstanceId(CHART_INSTANCE_A),
        view: ViewInstanceId(VIEW),
    }
}

/// Returns the stable identities reserved for the deterministic first-run bootstrap.
pub fn bootstrap_ids() -> (r: BootstrapIds)
    ensures
        r == spec_bootstrap_ids(),
        r.chart_record_a@ == CHART_RECORD_A,
        r.chart_record_b@ == CHART_RECORD_B,
        r.chart_definition_a@ == CHART_DEFINITION_A,
        r.chart_definition_b@ == CHART_DEFINITION_B,
        r.aspect_set_standard@ == ASPECT_SET_STANDARD,
        r.aspect_set_tight@ == ASPECT_SET_TIGHT,
        r.workspace@ == WORKSPACE,
        r.chart_instance_a@ == CHART_INSTANCE_A,
        r.view@ == VIEW,
{
    BootstrapIds {
        chart_record_a: ResourceId::from_u128(CHART_RECORD_A),
        chart_record_b: ResourceId::from_u128(CHART_RECORD_B),
        chart_definition_a: ResourceId::from_u128(CHART_DEFINITION_A),
        chart_definition_b: ResourceId::from_u128(CHART_DEFINITION_B),
        aspect_set_standard: ResourceId::from_u128(ASPECT_SET_STANDARD),
        aspect_set_tight: ResourceId::from_u128(ASPECT_SET_TIGHT),
        workspace: ResourceId::from_u128(WORKSPACE),
        chart_instance_a: InstanceId::from_u128(CHART_INSTANCE_A),
        view: ViewInstanceId::from_u128(VIEW),
    }
}

/// Binary64 encoding of 0.
pub const ZERO_BITS: u64 = 0x0;

/// Binary64 encoding of 1.
pub const ONE_BITS: u64 = 0x3ff0_0000_0000_0000;

/// Binary64 encoding of 3.
pub const THREE_BITS: u64 = 0x4008_0000_0000_0000;

/// Binary64 encoding of 4.
pub const FOUR_BITS: u64 = 0x4010_0000_0000_0000;

/// Binary64 encoding of 6.
pub const SIX_BITS: u64 = 0x4018_0000_0000_0000;

/// Binary64 encoding of 8.
pub const EIGHT_BITS: u64 = 0x4020_0000_0000_0000;

/// Binary64 encoding of 90.
pub const NINETY_BITS: u64 = 0x4056_8000_0000_0000;

/// Binary64 encoding of 105.
pub const ONE_HUNDRED_FIVE_BITS: u64 = 0x405a_4000_0000_0000;

/// Binary64 encoding of 125.
pub const ONE_HUNDRED_TWENTY_FIVE_BITS: u64 = 0x405f_4000_0000_0000;

/// Binary64 encoding of 150.
pub const ONE_HUNDRED_FIFTY_BITS: u64 = 0x4062_c000_0000_0000;

/// Binary64 encoding of 400.
pub const FOUR_HUNDRED_BITS: u64 = 0x4079_0000_0000_0000;

/// Binary64 encoding of the latitude of Greenwich, 51.48.
pub const GREENWICH_LATITUDE_BITS: u64 = 0x4049_bd70_a3d7_0a3d;

/// Binary64 encoding of the latitude of New York, 40.7128.
pub const NEW_YORK_LATITUDE_BITS: u64 = 0x4044_5b3d_07c8_4b5e;

/// Binary64 encoding of the longitude of New York, -74.006.
pub const NEW_YORK_LONGITUDE_BITS: u64 = 0xc052_8062_4dd2_f1aa;

/// The bootstrap angles are finite and its coordinates lie within their ranges.
pub(crate) proof fn lemma_bootstrap_bits()
    ensures
        finite_bits(ZERO_BITS),
        finite_bits(THREE_BITS),
        finite_bits(FOUR_BITS),
        finite_bits(SIX_BITS),
        finite_bits(EIGHT_BITS),
        finite_bits(NINETY_BITS),
        finite_bits(GREENWICH_LATITUDE_BITS),
        finite_bits(NEW_YORK_LATITUDE_BITS),
        finite_bits(NEW_YORK_LONGITUDE_BITS),
        within_symmetric_bound(ZERO_BITS, ONE_HUNDRED_EIGHTY_DEGREES_BITS),
        within_symmetric_bound(GREENWICH_LATITUDE_BITS, NINETY_DEGREES_BITS),
        within_symmetric_bound(NEW_YORK_LATITUDE_BITS, NINETY_DEGREES_BITS),
        within_symmetric_bound(NEW_YORK_LONGITUDE_BITS, ONE_HUNDRED_EIGHTY_DEGREES_BITS),
        within_zero_to(ZERO_BITS, ONE_HUNDRED_EIGHTY_DEGREES_BITS),
        within_zero_to(NINETY_BITS, ONE_HUNDRED_EIGHTY_DEGREES_BITS),
        within_zero_to(THREE_BITS, ONE_HUNDRED_EIGHTY_DEGREES_BITS),
        within_zero_to(FOUR_BITS, ONE_HUNDRED_EIGHTY_DEGREES_BITS),
        within_zero_to(SIX_BITS, ONE_HUNDRED_EIGHTY_DEGREES_BITS),
        within_zero_to(EIGHT_BITS, ONE_HUNDRED_EIGHTY_DEGREES_BITS),
        positive_bits(ONE_BITS),
{
    assert(finite_bits(ZERO_BITS) && finite_bits(THREE_BITS) && finite_bits(FOUR_BITS) && finite_bits(SIX_BITS)
        && finite_bits(EIGHT_BITS) && finite_bits(NINETY_BITS) && finite_bits(GREENWICH_LATITUDE_BITS)
        && finite_bits(NEW_YORK_LATITUDE_BITS) && finite_bits(NEW_YORK_LONGITUDE_BITS)
        && within_symmetric_bound(ZERO_BITS, ONE_HUNDRED_EIGHTY_DEGREES_BITS)
        && within_symmetric_bound(GREENWICH_LATITUDE_BITS, NINETY_DEGREES_BITS)
        && within_symmetric_bound(NEW_YORK_LATITUDE_BITS, NINETY_DEGREES_BITS)
        && within_symmetric_bound(NEW_YORK_LONGITUDE_BITS, ONE_HUNDRED_EIGHTY_DEGREES_BITS)) by (bit_vector);
}

pub(crate) fn fixed_angle(bits: u64) -> (r: Angle)
    requires
        finite_bits(bits),
    ensures
        r.spec_bits() == bits,
{
    Angle::from_bits(bits).unwrap()
}

pub(crate) fn fixed_slot(text: &str) -> (r: ChartSlotId)
    requires
        !is_blank(text@),
    ensures
        r@ == text@,
{
    ChartSlotId::new(text).unwrap()
}

pub(crate) fn bootstrap_aspect(id: &str, name: &str, degrees: u64, orb: u64) -> (r: AspectDefinition)
    requires
        !is_blank(id@),
        finite_bits(degrees),
        finite_bits(orb),
    ensures
        r.id@ == id@,
        r.name@ == name@,
        r.angle.spec_bits() == degrees,
        r.orbs.maximum.spec_bits() == orb,
        r.orbs.applying_multiplier.bits == ONE_BITS,
{
    AspectDefinition {
        id: AspectId::new(id).unwrap(),
        name: name.to_owned(),
        angle: fixed_angle(degrees),
        enabled: true,
        orbs: OrbPolicy { maximum: fixed_angle(orb), applying_multiplier: Binary64 { bits: ONE_BITS } },
        classification: AspectClass::Major,
    }
}

/// The bootstrap Aspect Set: a conjunction and a square with the given orbs.
fn bootstrap_aspect_set(conjunction_orb: u64, square_orb: u64) -> (r: AspectSet)
    requires
        finite_bits(conjunction_orb),
        finite_bits(square_orb),
        within_zero_to(conjunction_orb, ONE_HUNDRED_EIGHTY_DEGREES_BITS),
        within_zero_to(square_orb, ONE_HUNDRED_EIGHTY_DEGREES_BITS),
    ensures
        bootstrap_aspects(r, conjunction_orb, square_orb),
        r.domain_valid(),
{
    proof {
        lemma_bootstrap_bits();
        reveal_strlit("conjunction");
        reveal_strlit("square");
        assert(!is_white_space("conjunction"@[0]));
        assert(!is_white_space("square"@[0]));
    }
    let r = AspectSet {
        aspects: vec![
            bootstrap_aspect("conjunction", "Conjunction", ZERO_BITS, conjunction_orb),
            bootstrap_aspect("square", "Square", NINETY_BITS, square_orb),
        ],
    };
    proof {
        reveal_strlit("Conjunction");
        reveal_strlit("Square");
        assert(!is_white_space("Conjunction"@[0]));
        assert(!is_white_space("Square"@[0]));
        assert("conjunction"@.len() != "square"@.len());
        let ids = aspect_id_texts(r.aspects@);
        assert(ids[0] == "conjunction"@ && ids[1] == "square"@);
        assert(!has_duplicate_text(ids));
    }
    r
}

/// A bootstrap chart record at a place given by its latitude and longitude encodings.
fn bootstrap_record(
    id: ResourceId,
    title: &str,
    event_kind: EventKind,
    date: CivilDate,
    time: CivilTime,
    zone: TimeZoneAssertion,
    place: &str,
    country: &str,
    latitude: u64,
    longitude: u64,
    now: Timestamp,
) -> (r: ResourceEnvelope<ChartRecord>)
    requires
        !is_blank(title@),
        finite_bits(latitude) && within_symmetric_bound(latitude, NINETY_DEGREES_BITS),
        finite_bits(longitude) && within_symmetric_bound(longitude, ONE_HUNDRED_EIGHTY_DEGREES_BITS),
    ensures
        r.id == id,
        r.title@ == title@,
        r.revision@ == 1,
        r.spec_valid(),
        r.payload.event_kind == event_kind,
        r.payload.time.civil_datetime.date == date,
        r.payload.time.civil_datetime.time == time,
        r.payload.time.zone == zone,
        r.payload.location.display_name@ == place@,
        r.payload.location.country_region matches Some(c) && c@ == country@,
        r.payload.location.latitude.spec_bits() == latitude,
        r.payload.location.longitude.spec_bits() == longitude,
{
    ResourceEnvelope::with_id(
        id,
        title,
        ChartRecord {
            event_kind,
            subject: None,
            time: TemporalAssertion {
                civil_datetime: CivilDateTime { date, time },
                calendar: CalendarSpec::ProlepticGregorian,
                zone,
                disambiguation: None,
            },
            location: LocationAssertion {
                display_name: place.to_owned(),
                country_region: Some(country.to_owned()),
                latitude: Latitude::from_bits(latitude).unwrap(),
                longitude: Longitude::from_bits(longitude).unwrap(),
                atlas_provenance: None,
            },
            source: SourceProvenance {
                description: "Deterministic Astra bootstrap fixture".to_owned(),
                source_type: SourceType::UserAssertion,
                recorded_by: None,
            },
            notes: Vec::new(),
            life_events: Vec::new(),
        },
        now,
    )
}

/// A bootstrap chart definition: the radix of `record`, with the default calculation.
fn bootstrap_definition(id: ResourceId, title: &str, record: ResourceId, now: Timestamp) -> (r: ResourceEnvelope<ChartDefinition>)
    requires
        !is_blank(title@),
    ensures
        r.id == id,
        r.title@ == title@,
        r.revision@ == 1,
        r.spec_valid(),
        r.payload.source == (ChartSource::Radix { record }),
{
    ResourceEnvelope::with_id(
        id,
        title,
        ChartDefinition { source: ChartSource::Radix { record }, calculation: CalculationSpec::default() },
        now,
    )
}

/// The two aspects of a bootstrap Aspect Set: a conjunction at 0° and a square at 90°, with the
/// given maximum orbs.
pub open spec fn bootstrap_aspects(set: AspectSet, conjunction_orb: u64, square_orb: u64) -> bool {
    &&& set.aspects@.len() == 2
    &&& set.aspects@[0].id@ == "conjunction"@
    &&& set.aspects@[0].name@ == "Conjunction"@
    &&& set.aspects@[0].angle.spec_bits() == ZERO_BITS
    &&& set.aspects@[0].orbs.maximum.spec_bits() == conjunction_orb
    &&& set.aspects@[1].id@ == "square"@
    &&& set.aspects@[1].name@ == "Square"@
    &&& set.aspects@[1].angle.spec_bits() == NINETY_BITS
    &&& set.aspects@[1].orbs.maximum.spec_bits() == square_orb
}

/// The document of the bootstrap view: a required `radix` slot and an optional `comparison` one.
pub open spec fn bootstrap_document(document: ViewDocument) -> bool {
    &&& document.chart_slots@.len() == 2
    &&& document.chart_slots@[0].id@ == "radix"@
    &&& document.chart_slots@[0].required
    &&& document.chart_slots@[1].id@ == "comparison"@
    &&& !document.chart_slots@[1].required
}

/// What the bootstrap workspace holds: the first chart open and active in the required radix
/// slot of a single-wheel inline view, which is active and well formed, with the standard Aspect
/// Set followed.
pub open spec fn bootstrap_workspace_shape(w: Workspace, ids: BootstrapIds) -> bool {
    &&& w.chart_instances@ == seq![WorkspaceChart::Saved {
        instance_id: ids.chart_instance_a,
        definition: ids.chart_definition_a,
    }]
    &&& w.active_chart == Some(ids.chart_instance_a)
    &&& w.selected_charts@.len() == 0
    &&& w.views@.len() == 1
    &&& w.views@[0].id == ids.view
    &&& (w.views@[0].document matches ResourceBinding::Inline { value } && bootstrap_document(value))
    &&& w.views@[0].charts.spec_map() == Map::<Seq<char>, InstanceId>::empty().insert("radix"@, ids.chart_instance_a)
    &&& views_wf(w.views@)
    &&& w.active_view == Some(ids.view)
    &&& w.profile.aspects == (ResourceBinding::<AspectSet>::Follow { id: ids.aspect_set_standard })
}

fn bootstrap_workspace(ids: BootstrapIds) -> (r: Workspace)
    ensures
        bootstrap_workspace_shape(r, ids),
        r.domain_valid(),
{
    proof {
        reveal_strlit("radix");
        reveal_strlit("comparison");
        assert(!is_white_space("radix"@[0]));
        assert(!is_white_space("comparison"@[0]));
        lemma_bootstrap_bits();
    }
    let document = ViewDocument {
        chart_slots: vec![
            ChartSlot { id: fixed_slot("radix"), label: "Radix".to_owned(), required: true },
            ChartSlot { id: fixed_slot("comparison"), label: "Comparison".to_owned(), required: false },
        ],
        objects: vec![ViewObject::Wheel(WheelObject {
            slot: fixed_slot("radix"),
            frame: ObjectFrame {
                x: Binary64 { bits: ZERO_BITS },
                y: Binary64 { bits: ZERO_BITS },
                width: Binary64 { bits: FOUR_HUNDRED_BITS },
                height: Binary64 { bits: FOUR_HUNDRED_BITS },
            },
        })],
        layout: PageLayout { width: Binary64 { bits: FOUR_HUNDRED_BITS }, height: Binary64 { bits: FOUR_HUNDRED_BITS } },
    };
    let mut charts = SlotAssignments::new();
    charts.insert(fixed_slot("radix"), ids.chart_instance_a);
    assert(charts.spec_map() =~= Map::<Seq<char>, InstanceId>::empty().insert("radix"@, ids.chart_instance_a));
    let view = ViewInstance {
        id: ids.view,
        document: ResourceBinding::Inline { value: document },
        charts,
        overrides: ViewOverrides::default(),
    };
    let w = Workspace {
        chart_instances: vec![WorkspaceChart::Saved {
            instance_id: ids.chart_instance_a,
            definition: ids.chart_definition_a,
        }],
        active_chart: Some(ids.chart_instance_a),
        selected_charts: Vec::new(),
        views: vec![view],
        active_view: Some(ids.view),
        profile: WorkspaceProfile {
            displayed_points: ResourceBinding::Inline { value: demo::points() },
            aspected_points: ResourceBinding::Inline { value: demo::points() },
            transit_points: ResourceBinding::Inline { value: demo::points() },
            aspects: ResourceBinding::Follow { id: ids.aspect_set_standard },
            analysis: ResourceBinding::Inline { value: AnalysisProfile::default() },
            theme: ResourceBinding::Inline {
                value: Theme {
                    background: "#121416".to_owned(),
                    foreground: "#f4f1e8".to_owned(),
                    muted: "#7f8790".to_owned(),
                    accent: "#c79a5b".to_owned(),
                    aspect_color: "#a96772".to_owned(),
                },
            },
            wheel: ResourceBinding::Inline { value: demo::wheel() },
        },
    };
    assert(w.chart_instances@ =~= seq![WorkspaceChart::Saved {
        instance_id: ids.chart_instance_a,
        definition: ids.chart_definition_a,
    }]);
    assert(open_chart_ids(w.chart_instances@) =~= seq![ids.chart_instance_a]);
    assert(view_ids(w.views@) =~= seq![ids.view]);
    assert(open_chart_ids(w.chart_instances@).contains(ids.chart_instance_a)) by {
        assert(open_chart_ids(w.chart_instances@)[0] == ids.chart_instance_a);
    }
    assert(view_ids(w.views@).contains(ids.view)) by {
        assert(view_ids(w.views@)[0] == ids.view);
    }
    w
}

/// The resources written on first run, in order: the two chart records, each followed by its
/// definition, the standard and tight Aspect Sets, and the workspace; each is a first revision
/// under its reserved identity.
pub fn bootstrap_resources() -> (r: Vec<CanonicalResource>)
    ensures
        r@.len() == 7,
        r@.map_values(|c: CanonicalResource| c.spec_id()@) == seq![
            CHART_RECORD_A,
            CHART_DEFINITION_A,
            CHART_RECORD_B,
            CHART_DEFINITION_B,
            ASPECT_SET_STANDARD,
            ASPECT_SET_TIGHT,
            WORKSPACE,
        ],
        r@.map_values(|c: CanonicalResource| c.spec_kind()) == seq![
            ResourceKind::ChartRecord,
            ResourceKind::ChartDefinition,
            ResourceKind::ChartRecord,
            ResourceKind::ChartDefinition,
            ResourceKind::AspectSet,
            ResourceKind::AspectSet,
            ResourceKind::Workspace,
        ],
        forall|i: int| 0 <= i < 7 ==> (#[trigger] r@[i]).spec_revision()@ == 1,
        forall|i: int| 0 <= i < 7 ==> (#[trigger] r@[i]).spec_valid(),
        r@[0] matches CanonicalResource::ChartRecord(e) && e.title@ == "Example Natal Record"@
            && e.payload.event_kind == EventKind::Birth
            && e.payload.time.civil_datetime.date.spec_year() == 2000 && e.payload.time.civil_datetime.date.spec_month() == 1
            && e.payload.time.civil_datetime.date.spec_day() == 1 && e.payload.time.civil_datetime.time.spec_hour() == 12
            && e.payload.time.civil_datetime.time.spec_minute() == 0 && e.payload.time.civil_datetime.time.spec_second() == 0
            && e.payload.time.zone == TimeZoneAssertion::UniversalTime
            && e.payload.location.display_name@ == "Greenwich"@
            && e.payload.location.latitude.spec_bits() == GREENWICH_LATITUDE_BITS
            && e.payload.location.longitude.spec_bits() == ZERO_BITS,
        r@[1] matches CanonicalResource::ChartDefinition(e) && e.title@ == "Example Natal"@
            && e.payload.source == (ChartSource::Radix { record: ResourceId(CHART_RECORD_A) }),
        r@[2] matches CanonicalResource::ChartRecord(e) && e.title@ == "Example Event Record"@
            && e.payload.event_kind == EventKind::Event
            && e.payload.time.civil_datetime.date.spec_year() == 1985 && e.payload.time.civil_datetime.date.spec_month() == 7
            && e.payload.time.civil_datetime.date.spec_day() == 4 && e.payload.time.civil_datetime.time.spec_hour() == 9
            && e.payload.time.civil_datetime.time.spec_minute() == 30 && e.payload.time.civil_datetime.time.spec_second() == 0
            && (e.payload.time.zone matches TimeZoneAssertion::FixedOffset(o) && o.spec_seconds() == -14_400)
            && e.payload.location.display_name@ == "New York"@
            && e.payload.location.latitude.spec_bits() == NEW_YORK_LATITUDE_BITS
            && e.payload.location.longitude.spec_bits() == NEW_YORK_LONGITUDE_BITS,
        r@[3] matches CanonicalResource::ChartDefinition(e) && e.title@ == "Example Event"@
            && e.payload.source == (ChartSource::Radix { record: ResourceId(CHART_RECORD_B) }),
        r@[4] matches CanonicalResource::AspectSet(e) && e.title@ == "Standard"@
            && bootstrap_aspects(e.payload, EIGHT_BITS, SIX_BITS),
        r@[5] matches CanonicalResource::AspectSet(e) && e.title@ == "Tight"@
            && bootstrap_aspects(e.payload, FOUR_BITS, THREE_BITS),
        r@[6] matches CanonicalResource::Workspace(w) && w.title@ == "Astra Workspace"@
            && bootstrap_workspace_shape(w.payload, spec_bootstrap_ids()),
{
    let ids = bootstrap_ids();
    let now = Timestamp::from_unix_millis(1);
    proof {
        lemma_bootstrap_bits();
        reveal_strlit("Example Natal Record");
        reveal_strlit("Example Event Record");
        reveal_strlit("Example Natal");
        reveal_strlit("Example Event");
        reveal_strlit("Standard");
        reveal_strlit("Tight");
        reveal_strlit("Astra Workspace");
        assert(!is_white_space("Example Natal Record"@[0]));
        assert(!is_white_space("Example Event Record"@[0]));
        assert(!is_white_space("Example Natal"@[0]));
        assert(!is_white_space("Example Event"@[0]));
        assert(!is_white_space("Standard"@[0]));
        assert(!is_white_space("Tight"@[0]));
        assert(!is_white_space("Astra Workspace"@[0]));
    }
    let record_a = bootstrap_record(
        ids.chart_record_a,
        "Example Natal Record",
        EventKind::Birth,
        CivilDate::new(2000, 1, 1).unwrap(),
        CivilTime::new(12, 0, 0).unwrap(),
        TimeZoneAssertion::UniversalTime,
        "Greenwich",
        "GB",
        GREENWICH_LATITUDE_BITS,
        ZERO_BITS,
        now,
    );
    let record_b = bootstrap_record(
        ids.chart_record_b,
        "Example Event Record",
        EventKind::Event,
        CivilDate::new(1985, 7, 4).unwrap(),
        CivilTime::new(9, 30, 0).unwrap(),
        TimeZoneAssertion::FixedOffset(Offset::from_seconds(-14_400).unwrap()),
        "New York",
        "US",
        NEW_YORK_LATITUDE_BITS,
        NEW_YORK_LONGITUDE_BITS,
        now,
    );
    let definition_a = bootstrap_definition(ids.chart_definition_a, "Example Natal", ids.chart_record_a, now);
    let definition_b = bootstrap_definition(ids.chart_definition_b, "Example Event", ids.chart_record_b, now);
    let standard = ResourceEnvelope::with_id(ids.aspect_set_standard, "Standard", bootstrap_aspect_set(EIGHT_BITS, SIX_BITS), now);
    let tight = ResourceEnvelope::with_id(ids.aspect_set_tight, "Tight", bootstrap_aspect_set(FOUR_BITS, THREE_BITS), now);
    let workspace = ResourceEnvelope::with_id(ids.workspace, "Astra Workspace", bootstrap_workspace(ids), now);
    let r = vec![
        CanonicalResource::ChartRecord(record_a),
        CanonicalResource::ChartDefinition(definition_a),
        CanonicalResource::ChartRecord(record_b),
        CanonicalResource::ChartDefinition(definition_b),
        CanonicalResource::AspectSet(standard),
        CanonicalResource::AspectSet(tight),
        CanonicalResource::Workspace(workspace),
    ];
    proof {
        assert(r@.map_values(|c: CanonicalResource| c.spec_id()@) =~= seq![
            CHART_RECORD_A,
            CHART_DEFINITION_A,
            CHART_RECORD_B,
            CHART_DEFINITION_B,
            ASPECT_SET_STANDARD,
            ASPECT_SET_TIGHT,
            WORKSPACE,
        ]);
        assert(r@.map_values(|c: CanonicalResource| c.spec_kind()) =~= seq![
            ResourceKind::ChartRecord,
            ResourceKind::ChartDefinition,
            ResourceKind::ChartRecord,
            ResourceKind::ChartDefinition,
            ResourceKind::AspectSet,
            ResourceKind::AspectSet,
            ResourceKind::Workspace,
        ]);
    }
    r
}

} // verus!
