use vstd::prelude::*;

use crate::copy::{copies_of, copy_vec, DeepCopy};

use crate::ids::{is_blank, ChartSlotId, PointId, ViewInstanceId};
use crate::resource::ResourceBinding;
use crate::slots::{distinct_texts, SlotAssignments};
use crate::units::{finite_bits, Angle, Binary64};
use crate::validation::{
    finite, indexed_path, nonempty, positive, positive_bits, DomainValidate,
    DomainValidationError, DomainValidationIssue,
};

verus! {

/// Which analyses are run over a chart.
#[derive(Clone, Copy, Debug, PartialEq, Eq, Structural)]
pub struct AnalysisProfile {
    pub include_applying_state: bool,
    pub include_patterns: bool,
    pub maximum_hits: Option<u32>,
}

impl Default for AnalysisProfile {
    /// Applying state on, patterns off, no cap on hits.
    fn default() -> (r: Self)
        ensures
            r == (AnalysisProfile {
                include_applying_state: true,
                include_patterns: false,
                maximum_hits: None,
            }),
    {
        AnalysisProfile { include_applying_state: true, include_patterns: false, maximum_hits: None }
    }
}

/// How a wheel is drawn.
#[derive(Clone, Debug, PartialEq, Eq)]
pub struct WheelTemplate {
    pub rings: Vec<RingSpec>,
    pub aspect_field: AspectFieldSpec,
    pub houses: HouseDisplaySpec,
    pub zodiac: ZodiacDisplaySpec,
    pub labels: LabelSpec,
}

/// One ring of a wheel and the chart slot it shows.
#[derive(Clone, Debug, PartialEq, Eq)]
pub struct RingSpec {
    pub chart_slot: ChartSlotId,
    pub point_role: PointRole,
    pub geometry: RingGeometry,
}

/// The role of the points a ring shows.
#[derive(Clone, Copy, Debug, PartialEq, Eq, Structural)]
pub enum PointRole {
    Primary,
    Transit,
    Progressed,
    Comparison,
}

/// Radii of a ring.
#[derive(Clone, Copy, Debug, PartialEq, Eq, Structural)]
pub struct RingGeometry {
    pub inner_radius: Binary64,
    pub outer_radius: Binary64,
}

/// Radius of the aspect field.
#[derive(Clone, Copy, Debug, PartialEq, Eq, Structural)]
pub struct AspectFieldSpec {
    pub radius: Binary64,
}

/// Display of houses.
#[derive(Clone, Copy, Debug, PartialEq, Eq, Structural)]
pub struct HouseDisplaySpec {
    pub show_cusps: bool,
    pub show_numbers: bool,
}

/// Display of the zodiac.
#[derive(Clone, Copy, Debug, PartialEq, Eq, Structural)]
pub struct ZodiacDisplaySpec {
    pub show_boundaries: bool,
    pub show_labels: bool,
}

/// Display of point labels.
#[derive(Clone, Copy, Debug, PartialEq, Eq, Structural)]
pub struct LabelSpec {
    pub show_degrees: bool,
    pub show_retrograde: bool,
}

/// Colours of a theme.
#[derive(Clone, Debug, PartialEq, Eq)]
pub struct Theme {
    pub background: String,
    pub foreground: String,
    pub muted: String,
    pub accent: String,
    pub aspect_color: String,
}

/// A named place in a view document that a chart can fill.
#[derive(Clone, Debug, PartialEq, Eq)]
pub struct ChartSlot {
    pub id: ChartSlotId,
    pub label: String,
    pub required: bool,
}

/// A printable or on-screen arrangement of charts and objects.
#[derive(Clone, Debug, PartialEq, Eq)]
pub struct ViewDocument {
    pub chart_slots: Vec<ChartSlot>,
    pub objects: Vec<ViewObject>,
    pub layout: PageLayout,
}

/// One object placed in a view document.
#[derive(Clone, Debug, PartialEq, Eq)]
pub enum ViewObject {
    Wheel(WheelObject),
    AspectGrid(GridObject),
    ChartDetails(ChartDetailsObject),
    PointTable(PointTableObject),
    AspectTable(AspectTableObject),
    Text(TextObject),
}

/// Position and size of an object on the page.
#[derive(Clone, Copy, Debug, PartialEq, Eq, Structural)]
pub struct ObjectFrame {
    pub x: Binary64,
    pub y: Binary64,
    pub width: Binary64,
    pub height: Binary64,
}

#[derive(Clone, Debug, PartialEq, Eq)]
pub struct WheelObject {
    pub slot: ChartSlotId,
    pub frame: ObjectFrame,
}

#[derive(Clone, Debug, PartialEq, Eq)]
pub struct GridObject {
    pub lhs: ChartSlotId,
    pub rhs: Option<ChartSlotId>,
    pub frame: ObjectFrame,
}

#[derive(Clone, Debug, PartialEq, Eq)]
pub struct ChartDetailsObject {
    pub slot: ChartSlotId,
    pub frame: ObjectFrame,
}

#[derive(Clone, Debug, PartialEq, Eq)]
pub struct PointTableObject {
    pub slot: ChartSlotId,
    pub points: Vec<PointId>,
    pub frame: ObjectFrame,
}

#[derive(Clone, Debug, PartialEq, Eq)]
pub struct AspectTableObject {
    pub slot: ChartSlotId,
    pub frame: ObjectFrame,
}

#[derive(Clone, Debug, PartialEq, Eq)]
pub struct TextObject {
    pub text: String,
    pub frame: ObjectFrame,
}

/// Page size.
#[derive(Clone, Copy, Debug, PartialEq, Eq, Structural)]
pub struct PageLayout {
    pub width: Binary64,
    pub height: Binary64,
}

/// A view placed in a workspace: its document binding and the charts filling its slots.
#[derive(Debug, PartialEq, Eq)]
pub struct ViewInstance {
    pub id: ViewInstanceId,
    pub document: ResourceBinding<ViewDocument>,
    pub charts: SlotAssignments,
    pub overrides: ViewOverrides,
}

/// Per-view display overrides.
#[derive(Clone, Debug, PartialEq, Eq)]
pub struct ViewOverrides {
    pub rotation: Option<Angle>,
    pub hidden_points: Vec<PointId>,
}

impl Default for ViewOverrides {
    fn default() -> (r: Self)
        ensures
            r.rotation is None,
            r.hidden_points@.len() == 0,
    {
        ViewOverrides { rotation: None, hidden_points: Vec::new() }
    }
}

/// Texts of the slot identities of a document, in order.
pub open spec fn slot_texts(slots: Seq<ChartSlot>) -> Seq<Seq<char>> {
    slots.map_values(|s: ChartSlot| s.id@)
}

/// Texts of the slots that must be filled, in document order.
pub open spec fn required_slot_texts(slots: Seq<ChartSlot>) -> Set<Seq<char>> {
    Set::new(|k: Seq<char>| exists|i: int| 0 <= i < slots.len() && slots[i].required && slots[i].id@ == k)
}

/// A frame is valid with finite coordinates and a positive size.
pub open spec fn frame_valid(frame: ObjectFrame) -> bool {
    finite_bits(frame.x.bits) && finite_bits(frame.y.bits) && positive_bits(frame.width.bits)
        && positive_bits(frame.height.bits)
}

impl ObjectFrame {
    pub fn validate(&self) -> (r: Result<(), DomainValidationError>)
        ensures
            r is Ok <==> frame_valid(*self),
    {
        finite(self.x, "x")?;
        finite(self.y, "y")?;
        positive(self.width, "width")?;
        positive(self.height, "height")
    }
}

impl ViewObject {
    pub open spec fn spec_frame(self) -> ObjectFrame {
        match self {
            ViewObject::Wheel(v) => v.frame,
            ViewObject::AspectGrid(v) => v.frame,
            ViewObject::ChartDetails(v) => v.frame,
            ViewObject::PointTable(v) => v.frame,
            ViewObject::AspectTable(v) => v.frame,
            ViewObject::Text(v) => v.frame,
        }
    }

    /// The slots an object refers to, in order: the grid's left slot, then its right slot.
    pub open spec fn spec_slots(self) -> Seq<Seq<char>> {
        match self {
            ViewObject::Wheel(v) => seq![v.slot@],
            ViewObject::AspectGrid(v) => match v.rhs {
                Some(rhs) => seq![v.lhs@, rhs@],
                None => seq![v.lhs@],
            },
            ViewObject::ChartDetails(v) => seq![v.slot@],
            ViewObject::PointTable(v) => seq![v.slot@],
            ViewObject::AspectTable(v) => seq![v.slot@],
            ViewObject::Text(_) => seq![],
        }
    }

    pub fn frame(&self) -> (r: ObjectFrame)
        ensures
            r == self.spec_frame(),
    {
        match self {
            ViewObject::Wheel(v) => v.frame,
            ViewObject::AspectGrid(v) => v.frame,
            ViewObject::ChartDetails(v) => v.frame,
            ViewObject::PointTable(v) => v.frame,
            ViewObject::AspectTable(v) => v.frame,
            ViewObject::Text(v) => v.frame,
        }
    }

    pub fn slots(&self) -> (r: Vec<ChartSlotId>)
        ensures
            r@.map_values(|s: ChartSlotId| s@) =~= self.spec_slots(),
    {
        let mut out: Vec<ChartSlotId> = Vec::new();
        match self {
            ViewObject::Wheel(v) => out.push(v.slot.clone()),
            ViewObject::AspectGrid(v) => {
                out.push(v.lhs.clone());
                match &v.rhs {
                    Some(rhs) => out.push(rhs.clone()),
                    None => {},
                }
            },
            ViewObject::ChartDetails(v) => out.push(v.slot.clone()),
            ViewObject::PointTable(v) => out.push(v.slot.clone()),
            ViewObject::AspectTable(v) => out.push(v.slot.clone()),
            ViewObject::Text(_) => {},
        }
        out
    }
}

/// Whether `key` is among the slot texts of `slots`.
pub fn slot_listed(slots: &Vec<ChartSlot>, key: &ChartSlotId) -> (r: bool)
    ensures
        r == slot_texts(slots@).contains(key@),
{
    let mut i: usize = 0;
    while i < slots.len()
        invariant
            i <= slots@.len(),
            forall|j: int| 0 <= j < i ==> slots@[j].id@ != key@,
        decreases slots@.len() - i,
    {
        if slots[i].id == *key {
            assert(slot_texts(slots@)[i as int] == key@);
            return true;
        }
        i += 1;
    }
    false
}

/// Whether no slot identity occurs twice.
pub fn slots_distinct(slots: &Vec<ChartSlot>) -> (r: bool)
    ensures
        r == distinct_texts(slot_texts(slots@)),
{
    let mut i: usize = 0;
    while i < slots.len()
        invariant
            i <= slots@.len(),
            forall|a: int, b: int| 0 <= a < i && 0 <= b < i && a != b ==> slots@[a].id@ != slots@[b].id@,
        decreases slots@.len() - i,
    {
        let mut j: usize = 0;
        while j < i
            invariant
                i < slots@.len(),
                j <= i,
                forall|b: int| 0 <= b < j ==> slots@[b].id@ != slots@[i as int].id@,
            decreases i - j,
        {
            if slots[j].id == slots[i].id {
                assert(slot_texts(slots@)[j as int] == slot_texts(slots@)[i as int]);
                return false;
            }
            j += 1;
        }
        i += 1;
    }
    true
}

impl DomainValidate for ViewDocument {
    /// Slot identities are distinct, labels are not blank, the page has a positive size, every
    /// object has a valid frame and refers only to slots of the document.
    open spec fn domain_valid(&self) -> bool {
        &&& distinct_texts(slot_texts(self.chart_slots@))
        &&& forall|i: int| 0 <= i < self.chart_slots@.len() ==> !is_blank(#[trigger] self.chart_slots@[i].label@)
        &&& positive_bits(self.layout.width.bits)
        &&& positive_bits(self.layout.height.bits)
        &&& forall|i: int| 0 <= i < self.objects@.len() ==> frame_valid(#[trigger] self.objects@[i].spec_frame())
        &&& forall|i: int, k: int| 0 <= i < self.objects@.len() && 0 <= k < self.objects@[i].spec_slots().len()
            ==> slot_texts(self.chart_slots@).contains(#[trigger] self.objects@[i].spec_slots()[k])
    }

    fn domain_validate(&self) -> (r: Result<(), DomainValidationError>) {
        if !slots_distinct(&self.chart_slots) {
            return Err(DomainValidationError::new("chart_slots.id", DomainValidationIssue::Duplicate));
        }
        let mut i: usize = 0;
        while i < self.chart_slots.len()
            invariant
                i <= self.chart_slots@.len(),
                forall|j: int| 0 <= j < i ==> !is_blank(#[trigger] self.chart_slots@[j].label@),
            decreases self.chart_slots@.len() - i,
        {
            let path = indexed_path("chart_slots", i);
            let mut label_path = path;
            label_path.append(".label");
            nonempty(self.chart_slots[i].label.as_str(), label_path.as_str())?;
            i += 1;
        }
        positive(self.layout.width, "layout.width")?;
        positive(self.layout.height, "layout.height")?;
        let mut o: usize = 0;
        while o < self.objects.len()
            invariant
                o <= self.objects@.len(),
                forall|i: int| 0 <= i < o ==> frame_valid(#[trigger] self.objects@[i].spec_frame()),
                forall|i: int, k: int| 0 <= i < o && 0 <= k < self.objects@[i].spec_slots().len()
                    ==> slot_texts(self.chart_slots@).contains(#[trigger] self.objects@[i].spec_slots()[k]),
            decreases self.objects@.len() - o,
        {
            let prefix = indexed_path("objects", o);
            let object = &self.objects[o];
            match object.frame().validate() {
                Ok(()) => {},
                Err(error) => {
                    let mut frame_path = prefix.clone();
                    frame_path.append(".frame");
                    return Err(error.prepend(frame_path.as_str()));
                },
            }
            let slots = object.slots();
            let mut k: usize = 0;
            while k < slots.len()
                invariant
                    o < self.objects@.len(),
                    *object == self.objects@[o as int],
                    k <= slots@.len(),
                    slots@.map_values(|s: ChartSlotId| s@) =~= object.spec_slots(),
                    forall|m: int| 0 <= m < k ==> slot_texts(self.chart_slots@).contains(#[trigger] object.spec_slots()[m]),
                decreases slots@.len() - k,
            {
                assert(object.spec_slots()[k as int] == slots@[k as int]@);
                if !slot_listed(&self.chart_slots, &slots[k]) {
                    assert(self.objects@[o as int].spec_slots()[k as int] == slots@[k as int]@);
                    let mut slot_path = prefix.clone();
                    slot_path.append(".slot");
                    return Err(DomainValidationError::new(slot_path.as_str(), DomainValidationIssue::InvalidReference));
                }
                assert(object.spec_slots()[k as int] == slots@[k as int]@);
                k += 1;
            }
            o += 1;
        }
        Ok(())
    }
}

impl DomainValidate for Theme {
    /// No colour is blank.
    open spec fn domain_valid(&self) -> bool {
        !is_blank(self.background@) && !is_blank(self.foreground@) && !is_blank(self.muted@)
            && !is_blank(self.accent@) && !is_blank(self.aspect_color@)
    }

    fn domain_validate(&self) -> (r: Result<(), DomainValidationError>) {
        nonempty(self.background.as_str(), "background")?;
        nonempty(self.foreground.as_str(), "foreground")?;
        nonempty(self.muted.as_str(), "muted")?;
        nonempty(self.accent.as_str(), "accent")?;
        nonempty(self.aspect_color.as_str(), "aspect_color")
    }
}

impl DomainValidate for AnalysisProfile {
    open spec fn domain_valid(&self) -> bool {
        true
    }

    fn domain_validate(&self) -> (r: Result<(), DomainValidationError>) {
        Ok(())
    }
}

/// A ring is valid with positive radii, the inner one smaller than the outer one.
pub open spec fn ring_valid(ring: RingSpec) -> bool {
    positive_bits(ring.geometry.inner_radius.bits) && positive_bits(ring.geometry.outer_radius.bits)
        && ring.geometry.inner_radius.bits < ring.geometry.outer_radius.bits
}

impl DomainValidate for WheelTemplate {
    /// Every ring is valid and the aspect field has a positive radius. For positive finite values
    /// the binary64 encodings order as the values do, so the radii are compared by encoding.
    open spec fn domain_valid(&self) -> bool {
        (forall|i: int| 0 <= i < self.rings@.len() ==> ring_valid(#[trigger] self.rings@[i]))
            && positive_bits(self.aspect_field.radius.bits)
    }

    fn domain_validate(&self) -> (r: Result<(), DomainValidationError>) {
        let mut i: usize = 0;
        while i < self.rings.len()
            invariant
                i <= self.rings@.len(),
                forall|j: int| 0 <= j < i ==> ring_valid(#[trigger] self.rings@[j]),
            decreases self.rings@.len() - i,
        {
            let ring = &self.rings[i];
            let prefix = indexed_path("rings", i);
            let mut inner = prefix.clone();
            inner.append(".geometry.inner_radius");
            positive(ring.geometry.inner_radius, inner.as_str())?;
            let mut outer = prefix.clone();
            outer.append(".geometry.outer_radius");
            positive(ring.geometry.outer_radius, outer.as_str())?;
            if ring.geometry.inner_radius.bits >= ring.geometry.outer_radius.bits {
                let mut geometry = prefix.clone();
                geometry.append(".geometry");
                let requirement = "inner radius must be smaller than outer radius".to_owned();
                return Err(DomainValidationError::new(geometry.as_str(), DomainValidationIssue::InvalidStructure { requirement }));
            }
            i += 1;
        }
        positive(self.aspect_field.radius, "aspect_field.radius")
    }
}

impl DeepCopy for AnalysisProfile {
    open spec fn copy_of(self, other: Self) -> bool {
        self == other
    }

    fn deep_copy(&self) -> (r: Self) {
        *self
    }
}

impl DeepCopy for Theme {
    open spec fn copy_of(self, other: Self) -> bool {
        self == other
    }

    fn deep_copy(&self) -> (r: Self) {
        Theme {
            background: self.background.clone(),
            foreground: self.foreground.clone(),
            muted: self.muted.clone(),
            accent: self.accent.clone(),
            aspect_color: self.aspect_color.clone(),
        }
    }
}

impl DeepCopy for RingSpec {
    open spec fn copy_of(self, other: Self) -> bool {
        self == other
    }

    fn deep_copy(&self) -> (r: Self) {
        RingSpec { chart_slot: self.chart_slot.clone(), point_role: self.point_role, geometry: self.geometry }
    }
}

impl DeepCopy for WheelTemplate {
    open spec fn copy_of(self, other: Self) -> bool {
        self.rings@ == other.rings@ && self.aspect_field == other.aspect_field && self.houses == other.houses
            && self.zodiac == other.zodiac && self.labels == other.labels
    }

    fn deep_copy(&self) -> (r: Self) {
        let rings = copy_vec(&self.rings);
        assert(rings@ =~= self.rings@);
        WheelTemplate {
            rings,
            aspect_field: self.aspect_field,
            houses: self.houses,
            zodiac: self.zodiac,
            labels: self.labels,
        }
    }
}

impl DeepCopy for ChartSlot {
    open spec fn copy_of(self, other: Self) -> bool {
        self == other
    }

    fn deep_copy(&self) -> (r: Self) {
        ChartSlot { id: self.id.clone(), label: self.label.clone(), required: self.required }
    }
}

impl DeepCopy for PointTableObject {
    open spec fn copy_of(self, other: Self) -> bool {
        self.slot == other.slot && self.points@ == other.points@ && self.frame == other.frame
    }

    fn deep_copy(&self) -> (r: Self) {
        let points = copy_vec(&self.points);
        assert(points@ =~= self.points@);
        PointTableObject { slot: self.slot.clone(), points, frame: self.frame }
    }
}

impl DeepCopy for ViewObject {
    open spec fn copy_of(self, other: Self) -> bool {
        match (self, other) {
            (ViewObject::PointTable(a), ViewObject::PointTable(b)) => a.copy_of(b),
            (ViewObject::PointTable(_), _) => false,
            (_, ViewObject::PointTable(_)) => false,
            _ => self == other,
        }
    }

    fn deep_copy(&self) -> (r: Self) {
        match self {
            ViewObject::Wheel(o) => ViewObject::Wheel(WheelObject { slot: o.slot.clone(), frame: o.frame }),
            ViewObject::AspectGrid(o) => ViewObject::AspectGrid(GridObject {
                lhs: o.lhs.clone(),
                rhs: match &o.rhs {
                    Some(slot) => Some(slot.clone()),
                    None => None,
                },
                frame: o.frame,
            }),
            ViewObject::ChartDetails(o) => ViewObject::ChartDetails(ChartDetailsObject { slot: o.slot.clone(), frame: o.frame }),
            ViewObject::PointTable(o) => ViewObject::PointTable(o.deep_copy()),
            ViewObject::AspectTable(o) => ViewObject::AspectTable(AspectTableObject { slot: o.slot.clone(), frame: o.frame }),
            ViewObject::Text(o) => ViewObject::Text(TextObject { text: o.text.clone(), frame: o.frame }),
        }
    }
}

impl DeepCopy for ViewDocument {
    open spec fn copy_of(self, other: Self) -> bool {
        self.chart_slots@ == other.chart_slots@ && copies_of(self.objects@, other.objects@)
            && self.layout == other.layout
    }

    fn deep_copy(&self) -> (r: Self) {
        let chart_slots = copy_vec(&self.chart_slots);
        assert(chart_slots@ =~= self.chart_slots@);
        ViewDocument { chart_slots, objects: copy_vec(&self.objects), layout: self.layout }
    }
}

impl DeepCopy for ViewOverrides {
    open spec fn copy_of(self, other: Self) -> bool {
        self.rotation == other.rotation && self.hidden_points@ == other.hidden_points@
    }

    fn deep_copy(&self) -> (r: Self) {
        let hidden_points = copy_vec(&self.hidden_points);
        assert(hidden_points@ =~= self.hidden_points@);
        ViewOverrides { rotation: self.rotation, hidden_points }
    }
}

impl DeepCopy for ViewInstance {
    open spec fn copy_of(self, other: Self) -> bool {
        self.id == other.id && self.document.copy_of(other.document) && self.charts.copy_of(other.charts)
            && self.overrides.copy_of(other.overrides)
    }

    fn deep_copy(&self) -> (r: Self) {
        ViewInstance {
            id: self.id,
            document: self.document.deep_copy(),
            charts: self.charts.deep_copy(),
            overrides: self.overrides.deep_copy(),
        }
    }
}


} // verus!
