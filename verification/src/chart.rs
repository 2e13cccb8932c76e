use vstd::prelude::*;

use crate::copy::{copy_vec, DeepCopy};

use crate::ids::{PointId, ResourceId, Timestamp};
use crate::time::{AstroInstant, TemporalAssertion};
use crate::units::{Angle, AngularVelocity, Binary64, Latitude, Longitude};

verus! {

/// What kind of moment a chart record describes.
#[derive(Clone, Debug, PartialEq, Eq)]
pub enum EventKind {
    Birth,
    Event,
    Ingress,
    Question,
    Other(String),
}

/// The person or entity a chart record is about.
#[derive(Clone, Debug, PartialEq, Eq)]
pub struct SubjectInfo {
    pub display_name: String,
    pub pronouns: Option<String>,
}

/// Where an atlas lookup came from.
#[derive(Clone, Debug, PartialEq, Eq)]
pub struct AtlasRef {
    pub provider: String,
    pub record_id: Option<String>,
    pub data_version: Option<String>,
}

/// A place as asserted by a source.
#[derive(Clone, Debug, PartialEq, Eq)]
pub struct LocationAssertion {
    pub display_name: String,
    pub country_region: Option<String>,
    pub latitude: Latitude,
    pub longitude: Longitude,
    pub atlas_provenance: Option<AtlasRef>,
}

/// A place used by a calculation, with the role it plays.
#[derive(Clone, Debug, PartialEq, Eq)]
pub struct ResolvedLocation {
    pub display_name: String,
    pub latitude: Latitude,
    pub longitude: Longitude,
    pub role: LocationRole,
}

/// How a resolved location relates to the asserted one.
#[derive(Clone, Copy, Debug, PartialEq, Eq, Structural)]
pub enum LocationRole {
    Asserted,
    Relocated,
    Derived,
}

/// Where the data of a chart record came from.
#[derive(Clone, Debug, PartialEq, Eq)]
pub struct SourceProvenance {
    pub description: String,
    pub source_type: SourceType,
    pub recorded_by: Option<String>,
}

/// Kind of source behind a chart record.
#[derive(Clone, Copy, Debug, PartialEq, Eq, Structural)]
pub enum SourceType {
    BirthCertificate,
    Memory,
    Published,
    Research,
    UserAssertion,
    Unknown,
}

/// A dated free-text note.
#[derive(Clone, Debug, PartialEq, Eq)]
pub struct Note {
    pub text: String,
    pub created_at: Timestamp,
}

/// An event in the life of a chart's subject.
#[derive(Clone, Debug, PartialEq, Eq)]
pub struct LifeEvent {
    pub title: String,
    pub time: TemporalAssertion,
    pub location: Option<LocationAssertion>,
    pub notes: Vec<Note>,
}

/// The source assertions of a chart: when, where, who and on what authority.
#[derive(Clone, Debug, PartialEq, Eq)]
pub struct ChartRecord {
    pub event_kind: EventKind,
    pub subject: Option<SubjectInfo>,
    pub time: TemporalAssertion,
    pub location: LocationAssertion,
    pub source: SourceProvenance,
    pub notes: Vec<Note>,
    pub life_events: Vec<LifeEvent>,
}

/// What to calculate: the chart's source and its calculation settings.
#[derive(Clone, Debug, PartialEq, Eq)]
pub struct ChartDefinition {
    pub source: ChartSource,
    pub calculation: CalculationSpec,
}

/// A chart is either calculated from a record or derived from other charts.
#[derive(Clone, Debug, PartialEq, Eq)]
pub enum ChartSource {
    Radix { record: ResourceId },
    Derived { recipe: DerivationSpec },
}

/// How a derived chart is obtained.
#[derive(Clone, Debug, PartialEq, Eq)]
pub enum DerivationSpec {
    Transit { at: TemporalAssertion, location: LocationAssertion },
    Harmonic { radix: ResourceId, harmonic: Binary64 },
    Relocation { radix: ResourceId, location: LocationAssertion },
    Composite { charts: Vec<ResourceId>, method: CompositeMethod },
}

/// How composite charts combine their inputs.
#[derive(Clone, Copy, Debug, PartialEq, Eq, Structural)]
pub enum CompositeMethod {
    Midpoint,
    Davison,
}

/// The settings of a calculation.
#[derive(Clone, Debug, PartialEq, Eq)]
pub struct CalculationSpec {
    pub zodiac: ZodiacSpec,
    pub houses: HouseSystem,
    pub coordinates: CoordinateSystem,
    pub lunar_node: LunarNodeType,
    pub black_moon: BlackMoonType,
    pub fortune_formula: FortuneFormula,
    pub corrections: CorrectionSpec,
}

impl Default for CalculationSpec {
    /// Tropical zodiac, Placidus houses, geocentric coordinates, true node, mean Black Moon,
    /// day/night Part of Fortune and no corrections.
    fn default() -> (r: Self)
        ensures
            r.zodiac == ZodiacSpec::Tropical,
            r.houses == HouseSystem::Placidus,
            r.coordinates == CoordinateSystem::Geocentric,
            r.lunar_node == LunarNodeType::True,
            r.black_moon == BlackMoonType::Mean,
            r.fortune_formula == FortuneFormula::DayNight,
            r.corrections == (CorrectionSpec { aberration: false, light_time: false, nutation: false }),
    {
        CalculationSpec {
            zodiac: ZodiacSpec::Tropical,
            houses: HouseSystem::Placidus,
            coordinates: CoordinateSystem::Geocentric,
            lunar_node: LunarNodeType::True,
            black_moon: BlackMoonType::Mean,
            fortune_formula: FortuneFormula::DayNight,
            corrections: CorrectionSpec { aberration: false, light_time: false, nutation: false },
        }
    }
}

/// Tropical or sidereal zodiac.
#[derive(Clone, Debug, PartialEq, Eq)]
pub enum ZodiacSpec {
    Tropical,
    Sidereal { ayanamsha: String },
}

/// House division.
#[derive(Clone, Copy, Debug, PartialEq, Eq, Structural)]
pub enum HouseSystem {
    Placidus,
    WholeSign,
    Equal,
    NoHouses,
}

/// Observer frame of the calculation.
#[derive(Clone, Copy, Debug, PartialEq, Eq, Structural)]
pub enum CoordinateSystem {
    Geocentric,
    Topocentric,
    Heliocentric,
}

/// Which lunar node is calculated.
#[derive(Clone, Copy, Debug, PartialEq, Eq, Structural)]
pub enum LunarNodeType {
    Mean,
    True,
}

/// Which Black Moon is calculated.
#[derive(Clone, Copy, Debug, PartialEq, Eq, Structural)]
pub enum BlackMoonType {
    Mean,
    Osculating,
}

/// Formula of the Part of Fortune.
#[derive(Clone, Copy, Debug, PartialEq, Eq, Structural)]
pub enum FortuneFormula {
    DayNight,
    AlwaysAscendantPlusMoonMinusSun,
}

/// Optional astronomical corrections.
#[derive(Clone, Copy, Debug, Default, PartialEq, Eq, Structural)]
pub struct CorrectionSpec {
    pub aberration: bool,
    pub light_time: bool,
    pub nutation: bool,
}

/// Calculated state of one point.
#[derive(Clone, Debug, PartialEq, Eq)]
pub struct PointState {
    pub longitude: Angle,
    pub latitude: Angle,
    pub declination: Angle,
    pub right_ascension: Angle,
    pub speed_longitude: AngularVelocity,
    pub retrograde: bool,
    pub azimuth: Option<Angle>,
    pub altitude: Option<Angle>,
}

/// Calculated house cusps.
#[derive(Clone, Debug, PartialEq, Eq)]
pub struct HouseState {
    pub cusps: Vec<Angle>,
}

/// Calculated chart angles.
#[derive(Clone, Debug, PartialEq, Eq)]
pub struct AngleState {
    pub ascendant: Option<Angle>,
    pub midheaven: Option<Angle>,
}

/// A point at an instant.
#[derive(Clone, Debug, PartialEq, Eq)]
pub struct PointPosition {
    pub point: PointId,
    pub instant: AstroInstant,
}

/// A copy of an optional text.
pub fn copy_text(text: &Option<String>) -> (r: Option<String>)
    ensures
        r == *text,
{
    match text {
        Some(t) => Some(t.clone()),
        None => None,
    }
}

impl DeepCopy for AtlasRef {
    open spec fn copy_of(self, other: Self) -> bool {
        self == other
    }

    fn deep_copy(&self) -> (r: Self) {
        AtlasRef {
            provider: self.provider.clone(),
            record_id: copy_text(&self.record_id),
            data_version: copy_text(&self.data_version),
        }
    }
}

impl DeepCopy for LocationAssertion {
    open spec fn copy_of(self, other: Self) -> bool {
        self == other
    }

    fn deep_copy(&self) -> (r: Self) {
        LocationAssertion {
            display_name: self.display_name.clone(),
            country_region: copy_text(&self.country_region),
            latitude: self.latitude,
            longitude: self.longitude,
            atlas_provenance: match &self.atlas_provenance {
                Some(atlas) => Some(atlas.deep_copy()),
                None => None,
            },
        }
    }
}

impl DeepCopy for CalculationSpec {
    open spec fn copy_of(self, other: Self) -> bool {
        self == other
    }

    fn deep_copy(&self) -> (r: Self) {
        CalculationSpec {
            zodiac: match &self.zodiac {
                ZodiacSpec::Tropical => ZodiacSpec::Tropical,
                ZodiacSpec::Sidereal { ayanamsha } => ZodiacSpec::Sidereal { ayanamsha: ayanamsha.clone() },
            },
            houses: self.houses,
            coordinates: self.coordinates,
            lunar_node: self.lunar_node,
            black_moon: self.black_moon,
            fortune_formula: self.fortune_formula,
            corrections: self.corrections,
        }
    }
}

impl DeepCopy for DerivationSpec {
    open spec fn copy_of(self, other: Self) -> bool {
        match (self, other) {
            (DerivationSpec::Composite { charts: a, method: m }, DerivationSpec::Composite { charts: b, method: n }) => a@ == b@ && m == n,
            (DerivationSpec::Composite { .. }, _) => false,
            (_, DerivationSpec::Composite { .. }) => false,
            _ => self == other,
        }
    }

    fn deep_copy(&self) -> (r: Self) {
        match self {
            DerivationSpec::Transit { at, location } => DerivationSpec::Transit { at: at.deep_copy(), location: location.deep_copy() },
            DerivationSpec::Harmonic { radix, harmonic } => DerivationSpec::Harmonic { radix: *radix, harmonic: *harmonic },
            DerivationSpec::Relocation { radix, location } => DerivationSpec::Relocation { radix: *radix, location: location.deep_copy() },
            DerivationSpec::Composite { charts, method } => {
                let copied = copy_vec(charts);
                assert(copied@ =~= charts@);
                DerivationSpec::Composite { charts: copied, method: *method }
            },
        }
    }
}

impl DeepCopy for ChartSource {
    open spec fn copy_of(self, other: Self) -> bool {
        match (self, other) {
            (ChartSource::Derived { recipe: a }, ChartSource::Derived { recipe: b }) => a.copy_of(b),
            (ChartSource::Radix { record: a }, ChartSource::Radix { record: b }) => a == b,
            _ => false,
        }
    }

    fn deep_copy(&self) -> (r: Self) {
        match self {
            ChartSource::Radix { record } => ChartSource::Radix { record: *record },
            ChartSource::Derived { recipe } => ChartSource::Derived { recipe: recipe.deep_copy() },
        }
    }
}

impl DeepCopy for ChartDefinition {
    open spec fn copy_of(self, other: Self) -> bool {
        self.source.copy_of(other.source) && self.calculation == other.calculation
    }

    fn deep_copy(&self) -> (r: Self) {
        ChartDefinition { source: self.source.deep_copy(), calculation: self.calculation.deep_copy() }
    }
}


} // verus!
