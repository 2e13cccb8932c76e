use vstd::prelude::*;

use crate::bootstrap::{
    bootstrap_aspect, fixed_slot, lemma_bootstrap_bits, EIGHT_BITS, GREENWICH_LATITUDE_BITS, NINETY_BITS,
    ONE_HUNDRED_FIFTY_BITS, ONE_HUNDRED_FIVE_BITS, ONE_HUNDRED_TWENTY_FIVE_BITS, SIX_BITS, ZERO_BITS,
};
use crate::chart::{
    CalculationSpec, ChartDefinition, ChartRecord, ChartSource, EventKind, LocationAssertion, SourceProvenance,
    SourceType, SubjectInfo,
};
use crate::ids::{is_blank, is_white_space, PointId, ResourceId, Timestamp};
use crate::resource::{AspectSet, PointSelector, PointSet, ResourceEnvelope, ResourceKind};
use crate::time::{CalendarSpec, CivilDate, CivilDateTime, CivilTime, TemporalAssertion, TimeZoneAssertion};
use crate::units::{finite_bits, Binary64, Latitude, Longitude};
use crate::view::{
    AnalysisProfile, AspectFieldSpec, HouseDisplaySpec, LabelSpec, PointRole, RingGeometry, RingSpec, Theme,
    WheelTemplate, ZodiacDisplaySpec,
};

verus! {

/// The point with the identifier `name`, which is not blank.
fn fixture_point(name: &str) -> (r: PointSelector)
    requires
        !is_blank(name@),
    ensures
        r matches PointSelector::Point(p) && p@ == name@,
{
    PointSelector::Point(PointId::new(name).unwrap())
}

/// The texts of the demonstration points, in order.
pub open spec fn demo_point_names() -> Seq<Seq<char>> {
    seq!["sun"@, "moon"@, "mercury"@, "venus"@, "mars"@, "jupiter"@]
}

/// The demonstration points: the Sun, the Moon and the planets out to Jupiter.
pub fn points() -> (r: PointSet)
    ensures
        r.points@.len() == demo_point_names().len(),
        forall|i: int| 0 <= i < r.points@.len() ==> ((#[trigger] r.points@[i]) matches PointSelector::Point(p)
            && p@ == demo_point_names()[i]),
{
    proof {
        reveal_strlit("sun");
        reveal_strlit("moon");
        reveal_strlit("mercury");
        reveal_strlit("venus");
        reveal_strlit("mars");
        reveal_strlit("jupiter");
        assert(!is_white_space("sun"@[0]));
        assert(!is_white_space("moon"@[0]));
        assert(!is_white_space("mercury"@[0]));
        assert(!is_white_space("venus"@[0]));
        assert(!is_white_space("mars"@[0]));
        assert(!is_white_space("jupiter"@[0]));
    }
    let mut points: Vec<PointSelector> = Vec::new();
    points.push(fixture_point("sun"));
    points.push(fixture_point("moon"));
    points.push(fixture_point("mercury"));
    points.push(fixture_point("venus"));
    points.push(fixture_point("mars"));
    points.push(fixture_point("jupiter"));
    PointSet { points }
}

/// The demonstration analysis profile: the default one.
pub fn analysis_profile() -> (r: AnalysisProfile)
    ensures
        r == (AnalysisProfile { include_applying_state: true, include_patterns: false, maximum_hits: None }),
{
    AnalysisProfile::default()
}

/// The dark demonstration theme.
pub fn dark_theme() -> (r: Theme)
    ensures
        r.background@ == "#111827"@,
        r.foreground@ == "#f8fafc"@,
        r.muted@ == "#64748b"@,
        r.accent@ == "#67e8f9"@,
        r.aspect_color@ == "#f472b6"@,
{
    Theme {
        background: "#111827".to_owned(),
        foreground: "#f8fafc".to_owned(),
        muted: "#64748b".to_owned(),
        accent: "#67e8f9".to_owned(),
        aspect_color: "#f472b6".to_owned(),
    }
}

/// The light demonstration theme.
pub fn light_theme() -> (r: Theme)
    ensures
        r.background@ == "#f8fafc"@,
        r.foreground@ == "#172033"@,
        r.muted@ == "#94a3b8"@,
        r.accent@ == "#2563eb"@,
        r.aspect_color@ == "#be185d"@,
{
    Theme {
        background: "#f8fafc".to_owned(),
        foreground: "#172033".to_owned(),
        muted: "#94a3b8".to_owned(),
        accent: "#2563eb".to_owned(),
        aspect_color: "#be185d".to_owned(),
    }
}

/// The demonstration wheel: one primary ring on the radix slot and an aspect field.
pub fn wheel() -> (r: WheelTemplate)
    ensures
        r.rings@.len() == 1,
        r.rings@[0].chart_slot@ == "radix"@,
{
    proof {
        reveal_strlit("radix");
        assert(!is_white_space("radix"@[0]));
    }
    WheelTemplate {
        rings: vec![RingSpec {
            chart_slot: fixed_slot("radix"),
            point_role: PointRole::Primary,
            geometry: RingGeometry {
                inner_radius: Binary64 { bits: ONE_HUNDRED_TWENTY_FIVE_BITS },
                outer_radius: Binary64 { bits: ONE_HUNDRED_FIFTY_BITS },
            },
        }],
        aspect_field: AspectFieldSpec { radius: Binary64 { bits: ONE_HUNDRED_FIVE_BITS } },
        houses: HouseDisplaySpec { show_cusps: true, show_numbers: true },
        zodiac: ZodiacDisplaySpec { show_boundaries: true, show_labels: true },
        labels: LabelSpec { show_degrees: true, show_retrograde: true },
    }
}

/// Identity of the demonstration chart record, `b0388048-c627-4fe3-a37f-93445bb6828a`.
pub const RECORD_ID: u128 = 0xb0388048_c627_4fe3_a37f_93445bb6828a;

/// Identity of the demonstration chart definition, `687d75b4-c8e1-4775-912b-1f38046fbd6f`.
pub const DEFINITION_ID: u128 = 0x687d75b4_c8e1_4775_912b_1f38046fbd6f;

/// Identity of the demonstration Aspect Set, `3e552f02-b997-48d2-9677-b7e6c217bef4`.
pub const ASPECT_SET_ID: u128 = 0x3e552f02_b997_48d2_9677_b7e6c217bef4;

/// Binary64 encoding of 5.
pub const FIVE_BITS: u64 = 0x4014_0000_0000_0000;

/// Binary64 encoding of 7.
pub const SEVEN_BITS: u64 = 0x401c_0000_0000_0000;

/// Binary64 encoding of 60.
pub const SIXTY_BITS: u64 = 0x404e_0000_0000_0000;

/// Binary64 encoding of 120.
pub const ONE_HUNDRED_TWENTY_BITS: u64 = 0x405e_0000_0000_0000;

/// Binary64 encoding of 180.
pub const ONE_HUNDRED_EIGHTY_BITS: u64 = 0x4066_8000_0000_0000;

proof fn lemma_demo_bits()
    ensures
        finite_bits(FIVE_BITS),
        finite_bits(SEVEN_BITS),
        finite_bits(SIXTY_BITS),
        finite_bits(ONE_HUNDRED_TWENTY_BITS),
        finite_bits(ONE_HUNDRED_EIGHTY_BITS),
{
    assert(finite_bits(FIVE_BITS) && finite_bits(SEVEN_BITS) && finite_bits(SIXTY_BITS) && finite_bits(
        ONE_HUNDRED_TWENTY_BITS,
    ) && finite_bits(ONE_HUNDRED_EIGHTY_BITS)) by (bit_vector);
}

/// The demonstration chart record: a birth at noon on 1 January 2000 in Greenwich.
pub fn record() -> (r: ResourceEnvelope<ChartRecord>)
    ensures
        r.id@ == RECORD_ID,
        r.kind == ResourceKind::ChartRecord,
        r.title@ == "Architecture demonstration"@,
        r.revision@ == 1,
        r.modified_at@ == 0,
        r.payload.event_kind == EventKind::Birth,
        r.payload.location.display_name@ == "Greenwich"@,
        r.payload.location.latitude.spec_bits() == GREENWICH_LATITUDE_BITS,
        r.payload.location.longitude.spec_bits() == ZERO_BITS,
{
    proof { lemma_bootstrap_bits(); }
    ResourceEnvelope::with_id(
        ResourceId::from_u128(RECORD_ID),
        "Architecture demonstration",
        ChartRecord {
            event_kind: EventKind::Birth,
            subject: Some(SubjectInfo { display_name: "Astra example".to_owned(), pronouns: None }),
            time: TemporalAssertion {
                civil_datetime: CivilDateTime {
                    date: CivilDate::new(2000, 1, 1).unwrap(),
                    time: CivilTime::new(12, 0, 0).unwrap(),
                },
                calendar: CalendarSpec::ProlepticGregorian,
                zone: TimeZoneAssertion::UniversalTime,
                disambiguation: None,
            },
            location: LocationAssertion {
                display_name: "Greenwich".to_owned(),
                country_region: Some("GB".to_owned()),
                latitude: Latitude::from_bits(GREENWICH_LATITUDE_BITS).unwrap(),
                longitude: Longitude::from_bits(ZERO_BITS).unwrap(),
                atlas_provenance: None,
            },
            source: SourceProvenance {
                description: "Deterministic architecture fixture".to_owned(),
                source_type: SourceType::UserAssertion,
                recorded_by: None,
            },
            notes: Vec::new(),
            life_events: Vec::new(),
        },
        Timestamp::from_unix_millis(0),
    )
}

/// The demonstration chart definition: the radix of `record`.
pub fn definition(record: ResourceId) -> (r: ResourceEnvelope<ChartDefinition>)
    ensures
        r.id@ == DEFINITION_ID,
        r.kind == ResourceKind::ChartDefinition,
        r.title@ == "Natal definition"@,
        r.revision@ == 1,
        r.payload.source == (ChartSource::Radix { record }),
{
    ResourceEnvelope::with_id(
        ResourceId::from_u128(DEFINITION_ID),
        "Natal definition",
        ChartDefinition { source: ChartSource::Radix { record }, calculation: CalculationSpec::default() },
        Timestamp::from_unix_millis(0),
    )
}

/// The demonstration Aspect Set: the five major aspects with their orbs.
pub fn aspect_resource() -> (r: ResourceEnvelope<AspectSet>)
    ensures
        r.id@ == ASPECT_SET_ID,
        r.kind == ResourceKind::AspectSet,
        r.title@ == "Demo aspects"@,
        r.revision@ == 1,
        r.payload.aspects@.len() == 5,
        r.payload.aspects@[0].id@ == "conjunction"@ && r.payload.aspects@[0].angle.spec_bits() == ZERO_BITS
            && r.payload.aspects@[0].orbs.maximum.spec_bits() == EIGHT_BITS,
        r.payload.aspects@[1].id@ == "sextile"@ && r.payload.aspects@[1].angle.spec_bits() == SIXTY_BITS
            && r.payload.aspects@[1].orbs.maximum.spec_bits() == FIVE_BITS,
        r.payload.aspects@[2].id@ == "square"@ && r.payload.aspects@[2].angle.spec_bits() == NINETY_BITS
            && r.payload.aspects@[2].orbs.maximum.spec_bits() == FIVE_BITS,
        r.payload.aspects@[3].id@ == "trine"@ && r.payload.aspects@[3].angle.spec_bits() == ONE_HUNDRED_TWENTY_BITS
            && r.payload.aspects@[3].orbs.maximum.spec_bits() == SIX_BITS,
        r.payload.aspects@[4].id@ == "opposition"@ && r.payload.aspects@[4].angle.spec_bits()
            == ONE_HUNDRED_EIGHTY_BITS && r.payload.aspects@[4].orbs.maximum.spec_bits() == SEVEN_BITS,
{
    proof {
        lemma_bootstrap_bits();
        lemma_demo_bits();
        reveal_strlit("conjunction");
        reveal_strlit("sextile");
        reveal_strlit("square");
        reveal_strlit("trine");
        reveal_strlit("opposition");
        assert(!is_white_space("conjunction"@[0]));
        assert(!is_white_space("sextile"@[0]));
        assert(!is_white_space("square"@[0]));
        assert(!is_white_space("trine"@[0]));
        assert(!is_white_space("opposition"@[0]));
    }
    ResourceEnvelope::with_id(
        ResourceId::from_u128(ASPECT_SET_ID),
        "Demo aspects",
        AspectSet {
            aspects: vec![
                bootstrap_aspect("conjunction", "Conjunction", ZERO_BITS, EIGHT_BITS),
                bootstrap_aspect("sextile", "Sextile", SIXTY_BITS, FIVE_BITS),
                bootstrap_aspect("square", "Square", NINETY_BITS, FIVE_BITS),
                bootstrap_aspect("trine", "Trine", ONE_HUNDRED_TWENTY_BITS, SIX_BITS),
                bootstrap_aspect("opposition", "Opposition", ONE_HUNDRED_EIGHTY_BITS, SEVEN_BITS),
            ],
        },
        Timestamp::from_unix_millis(0),
    )
}

} // verus!
