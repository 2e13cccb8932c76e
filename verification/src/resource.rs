use vstd::prelude::*;

use crate::copy::{copy_vec, DeepCopy};

use crate::chart::{ChartDefinition, ChartRecord};
use crate::ids::{
    is_blank, is_white_space, char_is_white_space, text_equals, AspectId, PointId, ResourceId,
    Revision, RevisionError, SchemaVersion, Timestamp,
};
use crate::query::QueryDefinition;
use crate::units::{Angle, ONE_HUNDRED_EIGHTY_DEGREES_BITS};
use crate::validation::{in_range_from_zero, indexed_path, nonempty, positive, positive_bits, spec_indexed_path, within_zero_to, DomainValidate, DomainValidationError, DomainValidationIssue};
use crate::units::Binary64;
use crate::view::{AnalysisProfile, Theme, ViewDocument, WheelTemplate};
use crate::workspace::Workspace;

verus! {

/// The kinds of canonical resource.
#[derive(Clone, Copy, Debug, PartialEq, Eq, Hash, PartialOrd, Ord, Structural)]
pub enum ResourceKind {
    ChartRecord,
    ChartDefinition,
    PointSet,
    AspectSet,
    CalculationProfile,
    AnalysisProfile,
    WheelTemplate,
    ViewDocument,
    Theme,
    RulershipScheme,
    DignityScheme,
    ArabicPartsSet,
    FixedStarSet,
    QueryDefinition,
    Workspace,
}

/// A payload that can be stored in a resource envelope, with the kind it is stored under.
pub trait ResourcePayload: DomainValidate {
    spec fn spec_kind() -> ResourceKind;

    fn kind() -> (r: ResourceKind)
        ensures
            r == Self::spec_kind(),
    ;
}

/// Errors found by resource validation.
#[derive(Clone, Debug, PartialEq, Eq)]
pub enum ResourceError {
    EmptyTitle,
    KindMismatch { declared: ResourceKind, payload: ResourceKind },
    UnsupportedSchemaVersion { actual: SchemaVersion },
    Domain(DomainValidationError),
    Revision(RevisionError),
}

/// Strips leading white space.
pub open spec fn trim_front(s: Seq<char>) -> Seq<char>
    decreases s.len(),
{
    if s.len() > 0 && is_white_space(s[0]) {
        trim_front(s.drop_first())
    } else {
        s
    }
}

/// Strips trailing white space.
pub open spec fn trim_back(s: Seq<char>) -> Seq<char>
    decreases s.len(),
{
    if s.len() > 0 && is_white_space(s.last()) {
        trim_back(s.drop_last())
    } else {
        s
    }
}

/// The text `str::trim` leaves.
pub open spec fn trimmed(s: Seq<char>) -> Seq<char> {
    trim_back(trim_front(s))
}

/// `str::trim`, as an owned text.
pub fn trim_text(s: &str) -> (r: String)
    ensures
        r@ == trimmed(s@),
{
    let n = s.unicode_len();
    let mut start: usize = 0;
    assert(s@.subrange(0, n as int) =~= s@);
    while start < n && char_is_white_space(s.get_char(start))
        invariant
            n == s@.len(),
            start <= n,
            trim_front(s@) == trim_front(s@.subrange(start as int, n as int)),
        decreases n - start,
    {
        assert(s@.subrange(start as int, n as int).drop_first() =~= s@.subrange(start + 1, n as int));
        start += 1;
    }
    assert(trim_front(s@) == s@.subrange(start as int, n as int));
    let mut end: usize = n;
    while end > start && char_is_white_space(s.get_char(end - 1))
        invariant
            n == s@.len(),
            start <= end <= n,
            trim_back(s@.subrange(start as int, n as int)) == trim_back(s@.subrange(start as int, end as int)),
        decreases end - start,
    {
        assert(s@.subrange(start as int, end as int).drop_last() =~= s@.subrange(start as int, end - 1));
        end -= 1;
    }
    let piece = s.substring_char(start, end);
    piece.to_owned()
}

/// Whether two texts of `v` coincide.
pub open spec fn has_duplicate_text(v: Seq<Seq<char>>) -> bool {
    exists|a: int, b: int| 0 <= a < b < v.len() && v[a] == v[b]
}

pub fn strings_have_duplicate(v: &Vec<String>) -> (r: bool)
    ensures
        r == has_duplicate_text(v@.map_values(|s: String| s@)),
{
    let ghost texts = v@.map_values(|s: String| s@);
    let mut i: usize = 0;
    while i < v.len()
        invariant
            texts == v@.map_values(|s: String| s@),
            i <= v@.len(),
            forall|a: int, b: int| 0 <= a < b < i ==> texts[a] != texts[b],
        decreases v@.len() - i,
    {
        let mut j: usize = 0;
        while j < i
            invariant
                texts == v@.map_values(|s: String| s@),
                i < v@.len(),
                j <= i,
                forall|a: int| 0 <= a < j ==> texts[a] != texts[i as int],
            decreases i - j,
        {
            if v[j] == v[i] {
                assert(texts[j as int] == texts[i as int]);
                return true;
            }
            j += 1;
        }
        i += 1;
    }
    false
}

/// A resource header around a typed payload.
#[derive(Clone, Debug, PartialEq, Eq)]
pub struct ResourceEnvelope<T> {
    pub id: ResourceId,
    pub kind: ResourceKind,
    pub schema_version: SchemaVersion,
    pub title: String,
    pub description: Option<String>,
    pub tags: Vec<String>,
    pub revision: Revision,
    pub created_at: Timestamp,
    pub modified_at: Timestamp,
    pub payload: T,
}

/// Texts of the tags of an envelope after trimming.
pub open spec fn trimmed_tags(tags: Seq<String>) -> Seq<Seq<char>> {
    tags.map_values(|t: String| trimmed(t@))
}

impl<T: ResourcePayload> ResourceEnvelope<T> {
    /// The header checks of `validate` that come before the tags.
    pub open spec fn header_valid(self) -> bool {
        &&& self.kind == T::spec_kind()
        &&& !is_blank(self.title@)
        &&& self.schema_version@ == 1
        &&& self.modified_at@ >= self.created_at@
    }

    /// No tag is blank and no two tags are equal once trimmed.
    pub open spec fn tags_valid(self) -> bool {
        &&& forall|i: int| 0 <= i < self.tags@.len() ==> !is_blank(#[trigger] self.tags@[i]@)
        &&& !has_duplicate_text(trimmed_tags(self.tags@))
    }

    /// Every rule `validate` checks.
    pub open spec fn spec_valid(self) -> bool {
        self.header_valid() && self.tags_valid() && self.payload.domain_valid()
    }

    /// A new envelope with a fresh random identity.
    pub fn new(title: &str, payload: T, now: Timestamp) -> (r: Self)
        ensures
            r.kind == T::spec_kind(),
            r.schema_version@ == 1,
            r.title@ == title@,
            r.description is None,
            r.tags@.len() == 0,
            r.revision@ == 1,
            r.created_at == now,
            r.modified_at == now,
            r.payload == payload,
    {
        Self::with_id(ResourceId::new(), title, payload, now)
    }

    /// A first revision of a resource with the given identity.
    pub fn with_id(id: ResourceId, title: &str, payload: T, now: Timestamp) -> (r: Self)
        ensures
            r.id == id,
            r.kind == T::spec_kind(),
            r.schema_version@ == 1,
            r.title@ == title@,
            r.description is None,
            r.tags@.len() == 0,
            r.revision@ == 1,
            r.created_at == now,
            r.modified_at == now,
            r.payload == payload,
    {
        ResourceEnvelope {
            id,
            kind: T::kind(),
            schema_version: SchemaVersion::v1(),
            title: title.to_owned(),
            description: None,
            tags: Vec::new(),
            revision: Revision::initial(),
            created_at: now,
            modified_at: now,
            payload,
        }
    }

    /// Checks the envelope and then its payload, reporting the first rule broken in this order:
    /// kind, title, schema version, chronology, each tag, tag duplicates, payload.
    pub fn validate(&self) -> (r: Result<(), ResourceError>)
        ensures
            r is Ok <==> self.spec_valid(),
            self.kind != T::spec_kind() ==> r == Err::<(), ResourceError>(
                ResourceError::KindMismatch { declared: self.kind, payload: T::spec_kind() },
            ),
            self.kind == T::spec_kind() && is_blank(self.title@) ==> r == Err::<(), ResourceError>(
                ResourceError::EmptyTitle,
            ),
            self.kind == T::spec_kind() && !is_blank(self.title@) && self.schema_version@ != 1 ==> r
                == Err::<(), ResourceError>(
                ResourceError::UnsupportedSchemaVersion { actual: self.schema_version },
            ),
            self.kind == T::spec_kind() && !is_blank(self.title@) && self.schema_version@ == 1
                && self.modified_at@ < self.created_at@ ==> (r matches Err(ResourceError::Domain(e))
                && e.path@ == "modified_at"@ && e.issue == DomainValidationIssue::Chronology),
            self.header_valid() ==> forall|i: int| 0 <= i < self.tags@.len() && is_blank(#[trigger] self.tags@[i]@)
                && (forall|j: int| 0 <= j < i ==> !is_blank(self.tags@[j]@)) ==> (r matches Err(
                ResourceError::Domain(e)) && e.path@ == spec_indexed_path("tags"@, i)
                && e.issue == DomainValidationIssue::Empty),
            self.header_valid() && (forall|i: int| 0 <= i < self.tags@.len() ==> !is_blank(#[trigger] self.tags@[i]@))
                && has_duplicate_text(trimmed_tags(self.tags@)) ==> (r matches Err(
                ResourceError::Domain(e)) && e.path@ == "tags"@ && e.issue
                == DomainValidationIssue::Duplicate),
            self.header_valid() && self.tags_valid() && !self.payload.domain_valid() ==> (r matches Err(
                ResourceError::Domain(e)) && e.path@.len() >= 8 && e.path@.subrange(0, 8) == "payload."@),
    {
        let declared = self.kind;
        let expected = T::kind();
        if declared != expected {
            return Err(ResourceError::KindMismatch { declared, payload: expected });
        }
        if crate::ids::text_is_blank(self.title.as_str()) {
            return Err(ResourceError::EmptyTitle);
        }
        if self.schema_version.get() != 1 {
            return Err(ResourceError::UnsupportedSchemaVersion { actual: self.schema_version });
        }
        if self.modified_at.0 < self.created_at.0 {
            return Err(ResourceError::Domain(DomainValidationError::new("modified_at", DomainValidationIssue::Chronology)));
        }
        let mut normalized: Vec<String> = Vec::new();
        let mut i: usize = 0;
        while i < self.tags.len()
            invariant
                self.header_valid(),
                i <= self.tags@.len(),
                normalized@.len() == i,
                forall|j: int| 0 <= j < i ==> !is_blank(#[trigger] self.tags@[j]@),
                forall|j: int| 0 <= j < i ==> (#[trigger] normalized@[j])@ == trimmed(self.tags@[j]@),
            decreases self.tags@.len() - i,
        {
            let path = indexed_path("tags", i);
            match nonempty(self.tags[i].as_str(), path.as_str()) {
                Ok(()) => {},
                Err(e) => {
                    proof { reveal_strlit("tags"); }
                    return Err(ResourceError::Domain(e));
                },
            }
            normalized.push(trim_text(self.tags[i].as_str()));
            i += 1;
        }
        assert(normalized@.map_values(|s: String| s@) =~= trimmed_tags(self.tags@));
        if strings_have_duplicate(&normalized) {
            return Err(ResourceError::Domain(DomainValidationError::new("tags", DomainValidationIssue::Duplicate)));
        }
        match self.payload.domain_validate() {
            Ok(()) => Ok(()),
            Err(error) => {
                let e = error.prepend("payload");
                proof {
                    reveal_strlit("payload");
                    reveal_strlit("payload.");
                    assert(e.path@.subrange(0, 8) =~= "payload."@);
                }
                Err(ResourceError::Domain(e))
            },
        }
    }

    /// The next revision of this resource with `payload`, modified at `modified_at`; every other
    /// header field is kept. Fails only where the revision cannot advance.
    pub fn next_with_payload(&self, payload: T, modified_at: Timestamp) -> (r: Result<Self, ResourceError>)
        ensures
            r is Ok <==> self.revision@ < u64::MAX,
            r matches Ok(next) ==> {
                &&& next.id == self.id
                &&& next.kind == self.kind
                &&& next.schema_version == self.schema_version
                &&& next.title@ == self.title@
                &&& next.description == self.description
                &&& next.tags@.map_values(|t: String| t@) == self.tags@.map_values(|t: String| t@)
                &&& next.revision@ == self.revision@ + 1
                &&& next.created_at == self.created_at
                &&& next.modified_at == modified_at
                &&& next.payload == payload
            },
            r matches Err(e) ==> e == ResourceError::Revision(RevisionError::Overflow),
    {
        let revision = match self.revision.next() {
            Ok(revision) => revision,
            Err(error) => return Err(ResourceError::Revision(error)),
        };
        let description = match &self.description {
            Some(text) => Some(text.clone()),
            None => None,
        };
        let tags = self.tags.clone();
        proof {
            assert(tags@.map_values(|t: String| t@) =~= self.tags@.map_values(|t: String| t@)) by {
                assert forall|i: int| 0 <= i < tags@.len() implies tags@[i] == self.tags@[i] by {
                    assert(cloned::<String>(self.tags@[i], tags@[i]));
                }
            }
        }
        Ok(ResourceEnvelope {
            id: self.id,
            kind: self.kind,
            schema_version: self.schema_version,
            title: self.title.clone(),
            description,
            tags,
            revision,
            created_at: self.created_at,
            modified_at,
            payload,
        })
    }
}

/// How a workspace refers to a resource: following its head, pinned to a revision, or inline.
#[derive(Clone, Debug, PartialEq, Eq)]
pub enum ResourceBinding<T> {
    Follow { id: ResourceId },
    Pinned { id: ResourceId, revision: Revision },
    Inline { value: T },
}

impl<T> ResourceBinding<T> {
    pub open spec fn spec_id(self) -> Option<ResourceId> {
        match self {
            ResourceBinding::Follow { id } => Some(id),
            ResourceBinding::Pinned { id, .. } => Some(id),
            ResourceBinding::Inline { .. } => None,
        }
    }

    pub open spec fn spec_pinned_revision(self) -> Option<Revision> {
        match self {
            ResourceBinding::Pinned { revision, .. } => Some(revision),
            _ => None,
        }
    }

    /// The identity of a bound library resource; none for an inline value.
    pub fn id(&self) -> (r: Option<ResourceId>)
        ensures
            r == self.spec_id(),
    {
        match self {
            ResourceBinding::Follow { id } => Some(*id),
            ResourceBinding::Pinned { id, .. } => Some(*id),
            ResourceBinding::Inline { .. } => None,
        }
    }

    /// The pinned revision; none unless pinned.
    pub fn pinned_revision(&self) -> (r: Option<Revision>)
        ensures
            r == self.spec_pinned_revision(),
    {
        match self {
            ResourceBinding::Pinned { revision, .. } => Some(*revision),
            ResourceBinding::Follow { .. } => None,
            ResourceBinding::Inline { .. } => None,
        }
    }
}

/// A point chosen directly or through a category.
#[derive(Clone, Debug, PartialEq, Eq)]
pub enum PointSelector {
    Point(PointId),
    Category(String),
}

/// The sort key of a selector: points before categories, then by text.
pub open spec fn spec_selector_key(selector: PointSelector) -> (u8, Seq<char>) {
    match selector {
        PointSelector::Point(point) => (0u8, point@),
        PointSelector::Category(category) => (1u8, category@),
    }
}

pub fn selector_key(selector: &PointSelector) -> (r: (u8, &str))
    ensures
        (r.0, r.1@) == spec_selector_key(*selector),
{
    match selector {
        PointSelector::Point(point) => (0, point.as_str()),
        PointSelector::Category(category) => (1, category.as_str()),
    }
}

/// A set of points to display or analyse.
#[derive(Clone, Debug, PartialEq, Eq)]
pub struct PointSet {
    pub points: Vec<PointSelector>,
}

/// The directly chosen points of a selector list, in order.
pub open spec fn direct_point_texts(points: Seq<PointSelector>) -> Seq<Seq<char>>
    decreases points.len(),
{
    if points.len() == 0 {
        seq![]
    } else {
        let rest = direct_point_texts(points.drop_last());
        match points.last() {
            PointSelector::Point(p) => rest.push(p@),
            PointSelector::Category(_) => rest,
        }
    }
}

impl PointSet {
    /// The points chosen directly, in order; categories are skipped.
    pub fn direct_points(&self) -> (r: Vec<PointId>)
        ensures
            r@.map_values(|p: PointId| p@) == direct_point_texts(self.points@),
    {
        let mut out: Vec<PointId> = Vec::new();
        let mut i: usize = 0;
        while i < self.points.len()
            invariant
                i <= self.points@.len(),
                out@.map_values(|p: PointId| p@) =~= direct_point_texts(self.points@.subrange(0, i as int)),
            decreases self.points@.len() - i,
        {
            let ghost prev = out@;
            assert(self.points@.subrange(0, i + 1).drop_last() =~= self.points@.subrange(0, i as int));
            match &self.points[i] {
                PointSelector::Point(point) => {
                    out.push(point.clone());
                    assert(out@.map_values(|p: PointId| p@) =~= prev.map_values(|p: PointId| p@).push(point@));
                },
                PointSelector::Category(_) => {},
            }
            i += 1;
        }
        assert(self.points@.subrange(0, self.points@.len() as int) =~= self.points@);
        out
    }
}

/// Keys of a selector list.
pub open spec fn selector_keys(points: Seq<PointSelector>) -> Seq<(u8, Seq<char>)> {
    points.map_values(|p: PointSelector| spec_selector_key(p))
}

impl DomainValidate for PointSet {
    /// No selector occurs twice and no category is blank.
    open spec fn domain_valid(&self) -> bool {
        &&& forall|a: int, b: int| 0 <= a < b < self.points@.len() ==> selector_keys(self.points@)[a] != selector_keys(self.points@)[b]
        &&& forall|i: int| 0 <= i < self.points@.len() ==> match #[trigger] self.points@[i] {
            PointSelector::Category(c) => !is_blank(c@),
            PointSelector::Point(_) => true,
        }
    }

    fn domain_validate(&self) -> (r: Result<(), DomainValidationError>) {
        let ghost keys = selector_keys(self.points@);
        let mut i: usize = 0;
        while i < self.points.len()
            invariant
                keys == selector_keys(self.points@),
                i <= self.points@.len(),
                forall|a: int, b: int| 0 <= a < b < i ==> keys[a] != keys[b],
            decreases self.points@.len() - i,
        {
            let (ti, si) = selector_key(&self.points[i]);
            let mut j: usize = 0;
            while j < i
                invariant
                    keys == selector_keys(self.points@),
                    i < self.points@.len(),
                    j <= i,
                    (ti, si@) == keys[i as int],
                    forall|a: int| 0 <= a < j ==> keys[a] != keys[i as int],
                decreases i - j,
            {
                let (tj, sj) = selector_key(&self.points[j]);
                assert((tj, sj@) == keys[j as int]);
                if tj == ti && text_equals(sj, si) {
                    assert(keys[j as int] == keys[i as int]);
                    return Err(DomainValidationError::new("points", DomainValidationIssue::Duplicate));
                }
                j += 1;
            }
            i += 1;
        }
        let mut k: usize = 0;
        while k < self.points.len()
            invariant
                k <= self.points@.len(),
                forall|i: int| 0 <= i < k ==> match #[trigger] self.points@[i] {
                    PointSelector::Category(c) => !is_blank(c@),
                    PointSelector::Point(_) => true,
                },
            decreases self.points@.len() - k,
        {
            match &self.points[k] {
                PointSelector::Category(category) => {
                    let mut path = indexed_path("points", k);
                    path.append(".value");
                    nonempty(category.as_str(), path.as_str())?;
                },
                PointSelector::Point(_) => {},
            }
            k += 1;
        }
        Ok(())
    }
}

/// How wide an orb an aspect allows.
#[derive(Clone, Copy, Debug, PartialEq, Eq, Structural)]
pub struct OrbPolicy {
    pub maximum: Angle,
    pub applying_multiplier: Binary64,
}

/// Classification of an aspect.
#[derive(Clone, Copy, Debug, PartialEq, Eq, Structural)]
pub enum AspectClass {
    Major,
    Minor,
    Harmonic,
    Custom,
}

/// One aspect of an Aspect Set.
#[derive(Debug, PartialEq, Eq)]
pub struct AspectDefinition {
    pub id: AspectId,
    pub name: String,
    pub angle: Angle,
    pub enabled: bool,
    pub orbs: OrbPolicy,
    pub classification: AspectClass,
}

impl Clone for AspectDefinition {
    fn clone(&self) -> (r: Self)
        ensures
            r == *self,
    {
        AspectDefinition {
            id: self.id.clone(),
            name: self.name.clone(),
            angle: self.angle,
            enabled: self.enabled,
            orbs: self.orbs,
            classification: self.classification,
        }
    }
}

/// The aspects a chart is analysed with.
#[derive(Debug, PartialEq, Eq)]
pub struct AspectSet {
    pub aspects: Vec<AspectDefinition>,
}

impl Clone for AspectSet {
    fn clone(&self) -> (r: Self)
        ensures
            r.aspects@ == self.aspects@,
    {
        let mut aspects: Vec<AspectDefinition> = Vec::new();
        let mut i: usize = 0;
        while i < self.aspects.len()
            invariant
                i <= self.aspects@.len(),
                aspects@ =~= self.aspects@.subrange(0, i as int),
            decreases self.aspects@.len() - i,
        {
            aspects.push(self.aspects[i].clone());
            i += 1;
        }
        assert(aspects@ =~= self.aspects@);
        AspectSet { aspects }
    }
}

/// An aspect definition is valid with a name and an angle and an orb in `[0, 180]` and a positive
/// applying multiplier.
pub open spec fn aspect_valid(aspect: AspectDefinition) -> bool {
    &&& !is_blank(aspect.name@)
    &&& within_zero_to(aspect.angle.spec_bits(), ONE_HUNDRED_EIGHTY_DEGREES_BITS)
    &&& within_zero_to(aspect.orbs.maximum.spec_bits(), ONE_HUNDRED_EIGHTY_DEGREES_BITS)
    &&& positive_bits(aspect.orbs.applying_multiplier.bits)
}

/// Texts of the aspect identities of a list, in order.
pub open spec fn aspect_id_texts(aspects: Seq<AspectDefinition>) -> Seq<Seq<char>> {
    aspects.map_values(|a: AspectDefinition| a.id@)
}

impl DomainValidate for AspectSet {
    /// Aspect identities are distinct and every aspect is valid.
    open spec fn domain_valid(&self) -> bool {
        !has_duplicate_text(aspect_id_texts(self.aspects@)) && forall|i: int| 0 <= i < self.aspects@.len()
            ==> aspect_valid(#[trigger] self.aspects@[i])
    }

    fn domain_validate(&self) -> (r: Result<(), DomainValidationError>) {
        let ghost ids = aspect_id_texts(self.aspects@);
        let mut i: usize = 0;
        while i < self.aspects.len()
            invariant
                ids == aspect_id_texts(self.aspects@),
                i <= self.aspects@.len(),
                forall|a: int, b: int| 0 <= a < b < i ==> ids[a] != ids[b],
            decreases self.aspects@.len() - i,
        {
            let mut j: usize = 0;
            while j < i
                invariant
                    ids == aspect_id_texts(self.aspects@),
                    i < self.aspects@.len(),
                    j <= i,
                    forall|a: int| 0 <= a < j ==> ids[a] != ids[i as int],
                decreases i - j,
            {
                if self.aspects[j].id == self.aspects[i].id {
                    assert(ids[j as int] == ids[i as int]);
                    return Err(DomainValidationError::new("aspects.id", DomainValidationIssue::Duplicate));
                }
                j += 1;
            }
            i += 1;
        }
        let mut k: usize = 0;
        while k < self.aspects.len()
            invariant
                ids == aspect_id_texts(self.aspects@),
                !has_duplicate_text(ids),
                k <= self.aspects@.len(),
                forall|m: int| 0 <= m < k ==> aspect_valid(#[trigger] self.aspects@[m]),
            decreases self.aspects@.len() - k,
        {
            let aspect = &self.aspects[k];
            let prefix = indexed_path("aspects", k);
            let mut name_path = prefix.clone();
            name_path.append(".name");
            nonempty(aspect.name.as_str(), name_path.as_str())?;
            let mut angle_path = prefix.clone();
            angle_path.append(".angle");
            in_range_from_zero(Binary64 { bits: aspect.angle.to_bits() }, ONE_HUNDRED_EIGHTY_DEGREES_BITS, angle_path.as_str())?;
            let mut orb_path = prefix.clone();
            orb_path.append(".orbs.maximum");
            in_range_from_zero(Binary64 { bits: aspect.orbs.maximum.to_bits() }, ONE_HUNDRED_EIGHTY_DEGREES_BITS, orb_path.as_str())?;
            let mut multiplier_path = prefix.clone();
            multiplier_path.append(".orbs.applying_multiplier");
            positive(aspect.orbs.applying_multiplier, multiplier_path.as_str())?;
            k += 1;
        }
        Ok(())
    }
}

impl DomainValidate for ChartRecord {
    /// No rule beyond those its types carry.
    open spec fn domain_valid(&self) -> bool {
        true
    }

    fn domain_validate(&self) -> (r: Result<(), DomainValidationError>) {
        Ok(())
    }
}

impl DomainValidate for ChartDefinition {
    /// No rule beyond those its types carry.
    open spec fn domain_valid(&self) -> bool {
        true
    }

    fn domain_validate(&self) -> (r: Result<(), DomainValidationError>) {
        Ok(())
    }
}

impl DomainValidate for QueryDefinition {
    /// No rule beyond those its types carry.
    open spec fn domain_valid(&self) -> bool {
        true
    }

    fn domain_validate(&self) -> (r: Result<(), DomainValidationError>) {
        Ok(())
    }
}

impl ResourcePayload for ChartRecord {
    open spec fn spec_kind() -> ResourceKind {
        ResourceKind::ChartRecord
    }

    fn kind() -> (r: ResourceKind) {
        ResourceKind::ChartRecord
    }
}

impl ResourcePayload for ChartDefinition {
    open spec fn spec_kind() -> ResourceKind {
        ResourceKind::ChartDefinition
    }

    fn kind() -> (r: ResourceKind) {
        ResourceKind::ChartDefinition
    }
}

impl ResourcePayload for PointSet {
    open spec fn spec_kind() -> ResourceKind {
        ResourceKind::PointSet
    }

    fn kind() -> (r: ResourceKind) {
        ResourceKind::PointSet
    }
}

impl ResourcePayload for AspectSet {
    open spec fn spec_kind() -> ResourceKind {
        ResourceKind::AspectSet
    }

    fn kind() -> (r: ResourceKind) {
        ResourceKind::AspectSet
    }
}

impl ResourcePayload for AnalysisProfile {
    open spec fn spec_kind() -> ResourceKind {
        ResourceKind::AnalysisProfile
    }

    fn kind() -> (r: ResourceKind) {
        ResourceKind::AnalysisProfile
    }
}

impl ResourcePayload for WheelTemplate {
    open spec fn spec_kind() -> ResourceKind {
        ResourceKind::WheelTemplate
    }

    fn kind() -> (r: ResourceKind) {
        ResourceKind::WheelTemplate
    }
}

impl ResourcePayload for ViewDocument {
    open spec fn spec_kind() -> ResourceKind {
        ResourceKind::ViewDocument
    }

    fn kind() -> (r: ResourceKind) {
        ResourceKind::ViewDocument
    }
}

impl ResourcePayload for Theme {
    open spec fn spec_kind() -> ResourceKind {
        ResourceKind::Theme
    }

    fn kind() -> (r: ResourceKind) {
        ResourceKind::Theme
    }
}

impl ResourcePayload for QueryDefinition {
    open spec fn spec_kind() -> ResourceKind {
        ResourceKind::QueryDefinition
    }

    fn kind() -> (r: ResourceKind) {
        ResourceKind::QueryDefinition
    }
}

impl ResourcePayload for Workspace {
    open spec fn spec_kind() -> ResourceKind {
        ResourceKind::Workspace
    }

    fn kind() -> (r: ResourceKind) {
        ResourceKind::Workspace
    }
}

/// Any canonical library resource.
#[derive(Debug, PartialEq, Eq)]
pub enum CanonicalResource {
    ChartRecord(ResourceEnvelope<ChartRecord>),
    ChartDefinition(ResourceEnvelope<ChartDefinition>),
    PointSet(ResourceEnvelope<PointSet>),
    AspectSet(ResourceEnvelope<AspectSet>),
    AnalysisProfile(ResourceEnvelope<AnalysisProfile>),
    WheelTemplate(ResourceEnvelope<WheelTemplate>),
    ViewDocument(ResourceEnvelope<ViewDocument>),
    Theme(ResourceEnvelope<Theme>),
    QueryDefinition(ResourceEnvelope<QueryDefinition>),
    Workspace(ResourceEnvelope<Workspace>),
}

impl CanonicalResource {
    pub open spec fn spec_id(self) -> ResourceId {
        match self {
            CanonicalResource::ChartRecord(value) => value.id,
            CanonicalResource::ChartDefinition(value) => value.id,
            CanonicalResource::PointSet(value) => value.id,
            CanonicalResource::AspectSet(value) => value.id,
            CanonicalResource::AnalysisProfile(value) => value.id,
            CanonicalResource::WheelTemplate(value) => value.id,
            CanonicalResource::ViewDocument(value) => value.id,
            CanonicalResource::Theme(value) => value.id,
            CanonicalResource::QueryDefinition(value) => value.id,
            CanonicalResource::Workspace(value) => value.id,
        }
    }

    pub open spec fn spec_revision(self) -> Revision {
        match self {
            CanonicalResource::ChartRecord(value) => value.revision,
            CanonicalResource::ChartDefinition(value) => value.revision,
            CanonicalResource::PointSet(value) => value.revision,
            CanonicalResource::AspectSet(value) => value.revision,
            CanonicalResource::AnalysisProfile(value) => value.revision,
            CanonicalResource::WheelTemplate(value) => value.revision,
            CanonicalResource::ViewDocument(value) => value.revision,
            CanonicalResource::Theme(value) => value.revision,
            CanonicalResource::QueryDefinition(value) => value.revision,
            CanonicalResource::Workspace(value) => value.revision,
        }
    }

    pub open spec fn spec_schema_version(self) -> SchemaVersion {
        match self {
            CanonicalResource::ChartRecord(value) => value.schema_version,
            CanonicalResource::ChartDefinition(value) => value.schema_version,
            CanonicalResource::PointSet(value) => value.schema_version,
            CanonicalResource::AspectSet(value) => value.schema_version,
            CanonicalResource::AnalysisProfile(value) => value.schema_version,
            CanonicalResource::WheelTemplate(value) => value.schema_version,
            CanonicalResource::ViewDocument(value) => value.schema_version,
            CanonicalResource::Theme(value) => value.schema_version,
            CanonicalResource::QueryDefinition(value) => value.schema_version,
            CanonicalResource::Workspace(value) => value.schema_version,
        }
    }

    pub open spec fn spec_title(self) -> Seq<char> {
        match self {
            CanonicalResource::ChartRecord(value) => value.title@,
            CanonicalResource::ChartDefinition(value) => value.title@,
            CanonicalResource::PointSet(value) => value.title@,
            CanonicalResource::AspectSet(value) => value.title@,
            CanonicalResource::AnalysisProfile(value) => value.title@,
            CanonicalResource::WheelTemplate(value) => value.title@,
            CanonicalResource::ViewDocument(value) => value.title@,
            CanonicalResource::Theme(value) => value.title@,
            CanonicalResource::QueryDefinition(value) => value.title@,
            CanonicalResource::Workspace(value) => value.title@,
        }
    }

    pub open spec fn spec_modified_at(self) -> Timestamp {
        match self {
            CanonicalResource::ChartRecord(value) => value.modified_at,
            CanonicalResource::ChartDefinition(value) => value.modified_at,
            CanonicalResource::PointSet(value) => value.modified_at,
            CanonicalResource::AspectSet(value) => value.modified_at,
            CanonicalResource::AnalysisProfile(value) => value.modified_at,
            CanonicalResource::WheelTemplate(value) => value.modified_at,
            CanonicalResource::ViewDocument(value) => value.modified_at,
            CanonicalResource::Theme(value) => value.modified_at,
            CanonicalResource::QueryDefinition(value) => value.modified_at,
            CanonicalResource::Workspace(value) => value.modified_at,
        }
    }

    pub open spec fn spec_kind(self) -> ResourceKind {
        match self {
            CanonicalResource::ChartRecord(_) => ResourceKind::ChartRecord,
            CanonicalResource::ChartDefinition(_) => ResourceKind::ChartDefinition,
            CanonicalResource::PointSet(_) => ResourceKind::PointSet,
            CanonicalResource::AspectSet(_) => ResourceKind::AspectSet,
            CanonicalResource::AnalysisProfile(_) => ResourceKind::AnalysisProfile,
            CanonicalResource::WheelTemplate(_) => ResourceKind::WheelTemplate,
            CanonicalResource::ViewDocument(_) => ResourceKind::ViewDocument,
            CanonicalResource::Theme(_) => ResourceKind::Theme,
            CanonicalResource::QueryDefinition(_) => ResourceKind::QueryDefinition,
            CanonicalResource::Workspace(_) => ResourceKind::Workspace,
        }
    }

    pub open spec fn spec_valid(self) -> bool {
        match self {
            CanonicalResource::ChartRecord(value) => value.spec_valid(),
            CanonicalResource::ChartDefinition(value) => value.spec_valid(),
            CanonicalResource::PointSet(value) => value.spec_valid(),
            CanonicalResource::AspectSet(value) => value.spec_valid(),
            CanonicalResource::AnalysisProfile(value) => value.spec_valid(),
            CanonicalResource::WheelTemplate(value) => value.spec_valid(),
            CanonicalResource::ViewDocument(value) => value.spec_valid(),
            CanonicalResource::Theme(value) => value.spec_valid(),
            CanonicalResource::QueryDefinition(value) => value.spec_valid(),
            CanonicalResource::Workspace(value) => value.spec_valid(),
        }
    }

    pub fn id(&self) -> (r: ResourceId)
        ensures
            r == self.spec_id(),
    {
        match self {
            CanonicalResource::ChartRecord(value) => value.id,
            CanonicalResource::ChartDefinition(value) => value.id,
            CanonicalResource::PointSet(value) => value.id,
            CanonicalResource::AspectSet(value) => value.id,
            CanonicalResource::AnalysisProfile(value) => value.id,
            CanonicalResource::WheelTemplate(value) => value.id,
            CanonicalResource::ViewDocument(value) => value.id,
            CanonicalResource::Theme(value) => value.id,
            CanonicalResource::QueryDefinition(value) => value.id,
            CanonicalResource::Workspace(value) => value.id,
        }
    }

    pub fn revision(&self) -> (r: Revision)
        ensures
            r == self.spec_revision(),
    {
        match self {
            CanonicalResource::ChartRecord(value) => value.revision,
            CanonicalResource::ChartDefinition(value) => value.revision,
            CanonicalResource::PointSet(value) => value.revision,
            CanonicalResource::AspectSet(value) => value.revision,
            CanonicalResource::AnalysisProfile(value) => value.revision,
            CanonicalResource::WheelTemplate(value) => value.revision,
            CanonicalResource::ViewDocument(value) => value.revision,
            CanonicalResource::Theme(value) => value.revision,
            CanonicalResource::QueryDefinition(value) => value.revision,
            CanonicalResource::Workspace(value) => value.revision,
        }
    }

    pub fn schema_version(&self) -> (r: SchemaVersion)
        ensures
            r == self.spec_schema_version(),
    {
        match self {
            CanonicalResource::ChartRecord(value) => value.schema_version,
            CanonicalResource::ChartDefinition(value) => value.schema_version,
            CanonicalResource::PointSet(value) => value.schema_version,
            CanonicalResource::AspectSet(value) => value.schema_version,
            CanonicalResource::AnalysisProfile(value) => value.schema_version,
            CanonicalResource::WheelTemplate(value) => value.schema_version,
            CanonicalResource::ViewDocument(value) => value.schema_version,
            CanonicalResource::Theme(value) => value.schema_version,
            CanonicalResource::QueryDefinition(value) => value.schema_version,
            CanonicalResource::Workspace(value) => value.schema_version,
        }
    }

    pub fn title(&self) -> (r: &str)
        ensures
            r@ == self.spec_title(),
    {
        match self {
            CanonicalResource::ChartRecord(value) => value.title.as_str(),
            CanonicalResource::ChartDefinition(value) => value.title.as_str(),
            CanonicalResource::PointSet(value) => value.title.as_str(),
            CanonicalResource::AspectSet(value) => value.title.as_str(),
            CanonicalResource::AnalysisProfile(value) => value.title.as_str(),
            CanonicalResource::WheelTemplate(value) => value.title.as_str(),
            CanonicalResource::ViewDocument(value) => value.title.as_str(),
            CanonicalResource::Theme(value) => value.title.as_str(),
            CanonicalResource::QueryDefinition(value) => value.title.as_str(),
            CanonicalResource::Workspace(value) => value.title.as_str(),
        }
    }

    pub fn modified_at(&self) -> (r: Timestamp)
        ensures
            r == self.spec_modified_at(),
    {
        match self {
            CanonicalResource::ChartRecord(value) => value.modified_at,
            CanonicalResource::ChartDefinition(value) => value.modified_at,
            CanonicalResource::PointSet(value) => value.modified_at,
            CanonicalResource::AspectSet(value) => value.modified_at,
            CanonicalResource::AnalysisProfile(value) => value.modified_at,
            CanonicalResource::WheelTemplate(value) => value.modified_at,
            CanonicalResource::ViewDocument(value) => value.modified_at,
            CanonicalResource::Theme(value) => value.modified_at,
            CanonicalResource::QueryDefinition(value) => value.modified_at,
            CanonicalResource::Workspace(value) => value.modified_at,
        }
    }

    pub fn kind(&self) -> (r: ResourceKind)
        ensures
            r == self.spec_kind(),
    {
        match self {
            CanonicalResource::ChartRecord(_) => ResourceKind::ChartRecord,
            CanonicalResource::ChartDefinition(_) => ResourceKind::ChartDefinition,
            CanonicalResource::PointSet(_) => ResourceKind::PointSet,
            CanonicalResource::AspectSet(_) => ResourceKind::AspectSet,
            CanonicalResource::AnalysisProfile(_) => ResourceKind::AnalysisProfile,
            CanonicalResource::WheelTemplate(_) => ResourceKind::WheelTemplate,
            CanonicalResource::ViewDocument(_) => ResourceKind::ViewDocument,
            CanonicalResource::Theme(_) => ResourceKind::Theme,
            CanonicalResource::QueryDefinition(_) => ResourceKind::QueryDefinition,
            CanonicalResource::Workspace(_) => ResourceKind::Workspace,
        }
    }

    /// Validates the envelope of whichever resource this is.
    pub fn validate(&self) -> (r: Result<(), ResourceError>)
        ensures
            r is Ok <==> self.spec_valid(),
    {
        match self {
            CanonicalResource::ChartRecord(value) => value.validate(),
            CanonicalResource::ChartDefinition(value) => value.validate(),
            CanonicalResource::PointSet(value) => value.validate(),
            CanonicalResource::AspectSet(value) => value.validate(),
            CanonicalResource::AnalysisProfile(value) => value.validate(),
            CanonicalResource::WheelTemplate(value) => value.validate(),
            CanonicalResource::ViewDocument(value) => value.validate(),
            CanonicalResource::Theme(value) => value.validate(),
            CanonicalResource::QueryDefinition(value) => value.validate(),
            CanonicalResource::Workspace(value) => value.validate(),
        }
    }
}

impl DeepCopy for PointSelector {
    open spec fn copy_of(self, other: Self) -> bool {
        self == other
    }

    fn deep_copy(&self) -> (r: Self) {
        match self {
            PointSelector::Point(p) => PointSelector::Point(p.clone()),
            PointSelector::Category(c) => PointSelector::Category(c.clone()),
        }
    }
}

impl DeepCopy for PointSet {
    open spec fn copy_of(self, other: Self) -> bool {
        self.points@ == other.points@
    }

    fn deep_copy(&self) -> (r: Self) {
        let points = copy_vec(&self.points);
        assert(points@ =~= self.points@);
        PointSet { points }
    }
}

impl DeepCopy for AspectDefinition {
    open spec fn copy_of(self, other: Self) -> bool {
        self == other
    }

    fn deep_copy(&self) -> (r: Self) {
        self.clone()
    }
}

impl DeepCopy for AspectSet {
    open spec fn copy_of(self, other: Self) -> bool {
        self.aspects@ == other.aspects@
    }

    fn deep_copy(&self) -> (r: Self) {
        self.clone()
    }
}

impl<T: DeepCopy> DeepCopy for ResourceBinding<T> {
    open spec fn copy_of(self, other: Self) -> bool {
        match (self, other) {
            (ResourceBinding::Inline { value: a }, ResourceBinding::Inline { value: b }) => a.copy_of(b),
            (ResourceBinding::Inline { .. }, _) => false,
            (_, ResourceBinding::Inline { .. }) => false,
            _ => self == other,
        }
    }

    fn deep_copy(&self) -> (r: Self) {
        match self {
            ResourceBinding::Follow { id } => ResourceBinding::Follow { id: *id },
            ResourceBinding::Pinned { id, revision } => ResourceBinding::Pinned { id: *id, revision: *revision },
            ResourceBinding::Inline { value } => ResourceBinding::Inline { value: value.deep_copy() },
        }
    }
}


} // verus!
