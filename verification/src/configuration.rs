use vstd::prelude::*;

use crate::binding::{
    followed_envelope, resolution_message, resolve_typed_binding, spec_resolve, BoundPayload, ResolutionLayer,
};
use crate::catalog::Catalog;
use crate::chart::{CalculationSpec, ChartDefinition};
use crate::copy::DeepCopy;
use crate::ids::{PointId, ResourceId, Revision};
use crate::intents::failed_with;
use crate::read_model::{AppError, AppErrorKind};
use crate::resource::{AspectSet, PointSelector, PointSet, ResourceBinding, ResourceEnvelope};
use crate::session::Session;
use crate::view::{AnalysisProfile, Theme, ViewInstance, WheelTemplate};

verus! {

/// A value a calculation uses, with the resource revision it came from and how it was chosen.
#[derive(Debug)]
pub struct Configured<T> {
    pub value: T,
    pub resource: Option<ResourceId>,
    pub revision: Option<Revision>,
    pub layer: ResolutionLayer,
}

/// Everything a view's calculation, analysis and drawing use.
#[derive(Debug)]
pub struct EffectiveConfiguration {
    pub calculation: CalculationSpec,
    pub displayed_points: Configured<PointSet>,
    pub aspected_points: Configured<PointSet>,
    pub aspect_set: Configured<AspectSet>,
    pub analysis: Configured<AnalysisProfile>,
    pub wheel: Configured<WheelTemplate>,
    pub theme: Configured<Theme>,
}

/// `c` holds a copy of what `binding` resolves to, with its resource, revision and layer.
pub open spec fn configured_from<T: BoundPayload + DeepCopy>(binding: ResourceBinding<T>, catalog: Catalog, c: Configured<T>) -> bool {
    &&& spec_resolve(binding, catalog) matches Ok(value) && c.value.copy_of(value)
    &&& match binding {
        ResourceBinding::Inline { .. } => c.resource is None && c.revision is None && c.layer == ResolutionLayer::Inline,
        ResourceBinding::Follow { id } => c.resource == Some(id) && c.revision == Some(
            followed_envelope::<T>(catalog, id)->0.revision,
        ) && c.layer == ResolutionLayer::FollowedResource,
        ResourceBinding::Pinned { id, revision } => c.resource == Some(id) && c.revision == Some(revision)
            && c.layer == ResolutionLayer::PinnedResource,
    }
}

/// Resolves a binding to an owned copy of its value.
pub fn configure<T: BoundPayload + DeepCopy>(binding: &ResourceBinding<T>, catalog: &Catalog) -> (r: Result<
    Configured<T>,
    AppError,
>)
    ensures
        match spec_resolve(*binding, *catalog) {
            Err(e) => failed_with(r, AppErrorKind::ViewComputation, configuration_message(e)),
            Ok(_) => r matches Ok(c) && configured_from(*binding, *catalog, c),
        },
{
    proof {
        use_type_invariant(catalog);
    }
    match resolve_typed_binding(binding, catalog) {
        Ok(resolved) => Ok(Configured {
            value: resolved.value.deep_copy(),
            resource: resolved.resource,
            revision: resolved.revision,
            layer: resolved.layer,
        }),
        Err(error) => {
            let mut message = "Effective configuration could not be resolved: ".to_owned();
            message.append(error.to_string().as_str());
            Err(AppError { kind: AppErrorKind::ViewComputation, message })
        },
    }
}

/// Whether some hidden point has the text `p`.
pub open spec fn is_hidden(hidden: Seq<PointId>, p: Seq<char>) -> bool {
    exists|j: int| 0 <= j < hidden.len() && hidden[j]@ == p
}

/// The selectors of `points` that a view still shows: categories, and points it does not hide.
pub open spec fn visible_points(points: Seq<PointSelector>, hidden: Seq<PointId>) -> Seq<PointSelector>
    decreases points.len(),
{
    if points.len() == 0 {
        points
    } else {
        let rest = visible_points(points.drop_last(), hidden);
        match points.last() {
            PointSelector::Point(p) => if is_hidden(hidden, p@) { rest } else { rest.push(points.last()) },
            PointSelector::Category(_) => rest.push(points.last()),
        }
    }
}

fn hides(hidden: &Vec<PointId>, point: &PointId) -> (r: bool)
    ensures
        r == is_hidden(hidden@, point@),
{
    let mut i: usize = 0;
    while i < hidden.len()
        invariant
            i <= hidden@.len(),
            forall|j: int| 0 <= j < i ==> hidden@[j]@ != point@,
        decreases hidden@.len() - i,
    {
        if hidden[i] == *point {
            return true;
        }
        i += 1;
    }
    false
}

/// The points of `points` that a view with the hidden points `hidden` shows, in order.
pub fn visible(points: &Vec<PointSelector>, hidden: &Vec<PointId>) -> (r: Vec<PointSelector>)
    ensures
        r@ == visible_points(points@, hidden@),
{
    let mut out: Vec<PointSelector> = Vec::new();
    let mut i: usize = 0;
    while i < points.len()
        invariant
            i <= points@.len(),
            out@ == visible_points(points@.subrange(0, i as int), hidden@),
        decreases points@.len() - i,
    {
        let ghost prefix = points@.subrange(0, i + 1);
        assert(prefix.drop_last() =~= points@.subrange(0, i as int));
        let keep = match &points[i] {
            PointSelector::Point(p) => !hides(hidden, p),
            PointSelector::Category(_) => true,
        };
        if keep {
            out.push(points[i].deep_copy());
        }
        i += 1;
    }
    assert(points@.subrange(0, points@.len() as int) =~= points@);
    out
}

/// How a resolution failure of the configuration reads.
pub open spec fn configuration_message(e: crate::binding::BindingResolutionError) -> Seq<char> {
    "Effective configuration could not be resolved: "@ + resolution_message(e)
}

/// The first resolution failure among the profile's bindings, in the order they are resolved.
pub open spec fn configuration_failure<S>(session: Session<S>) -> Option<Seq<char>> {
    let w = session.spec_workspace()->0;
    let c = session.catalog;
    if spec_resolve(w.profile.displayed_points, c) is Err {
        Some(configuration_message(spec_resolve(w.profile.displayed_points, c)->Err_0))
    } else if spec_resolve(w.profile.aspected_points, c) is Err {
        Some(configuration_message(spec_resolve(w.profile.aspected_points, c)->Err_0))
    } else if spec_resolve(w.profile.aspects, c) is Err {
        Some(configuration_message(spec_resolve(w.profile.aspects, c)->Err_0))
    } else if spec_resolve(w.profile.analysis, c) is Err {
        Some(configuration_message(spec_resolve(w.profile.analysis, c)->Err_0))
    } else if spec_resolve(w.profile.wheel, c) is Err {
        Some(configuration_message(spec_resolve(w.profile.wheel, c)->Err_0))
    } else if spec_resolve(w.profile.theme, c) is Err {
        Some(configuration_message(spec_resolve(w.profile.theme, c)->Err_0))
    } else {
        None
    }
}

/// `e` is the effective configuration of `view` drawing `definition` in `session`: the chart
/// definition's calculation; the displayed points without those the view hides; the Aspect Set
/// draft while one of the workspace's Aspect Set is open; everything else as resolved.
pub open spec fn configuration_of<S>(
    session: Session<S>,
    definition: ResourceEnvelope<ChartDefinition>,
    view: ViewInstance,
    e: EffectiveConfiguration,
) -> bool {
    let w = session.spec_workspace()->0;
    let c = session.catalog;
    &&& e.calculation == definition.payload.calculation
    &&& if view.overrides.hidden_points@.len() == 0 {
        configured_from(w.profile.displayed_points, c, e.displayed_points)
    } else {
        &&& e.displayed_points.value.points@ == visible_points(
            spec_resolve(w.profile.displayed_points, c)->Ok_0.points@,
            view.overrides.hidden_points@,
        )
        &&& e.displayed_points.resource is None
        &&& e.displayed_points.revision is None
        &&& e.displayed_points.layer == ResolutionLayer::ViewOverride
    }
    &&& configured_from(w.profile.aspected_points, c, e.aspected_points)
    &&& match session.editor {
        Some(editor) => if w.profile.aspects.spec_id() == Some(editor.base.id) {
            &&& e.aspect_set.value.aspects@ == editor.draft.aspects@
            &&& e.aspect_set.resource == Some(editor.base.id)
            &&& e.aspect_set.revision == Some(editor.state.spec_base_revision())
            &&& e.aspect_set.layer == ResolutionLayer::EditorPreview
        } else {
            configured_from(w.profile.aspects, c, e.aspect_set)
        },
        None => configured_from(w.profile.aspects, c, e.aspect_set),
    }
    &&& configured_from(w.profile.analysis, c, e.analysis)
    &&& configured_from(w.profile.wheel, c, e.wheel)
    &&& configured_from(w.profile.theme, c, e.theme)
}

impl<S> Session<S> {
    /// The configuration a view of the workspace is calculated and drawn with, for the chart
    /// `definition`.
    pub fn effective_configuration(&self, definition: &ResourceEnvelope<ChartDefinition>, view: &ViewInstance) -> (r: Result<
        EffectiveConfiguration,
        AppError,
    >)
        ensures
            self.spec_workspace() is None ==> failed_with(r, AppErrorKind::ViewComputation, "No workspace is hydrated"@),
            self.spec_workspace() is Some ==> match configuration_failure(*self) {
                Some(message) => failed_with(r, AppErrorKind::ViewComputation, message),
                None => r matches Ok(e) && configuration_of(*self, *definition, *view, e),
            },
    {
        self.hold_wf();
        let w = match self.workspace() {
            Some(w) => w,
            None => return Err(AppError::new(AppErrorKind::ViewComputation, "No workspace is hydrated")),
        };
        let calculation = definition.payload.calculation.deep_copy();
        let resolved_points = match configure(&w.profile.displayed_points, &self.catalog) {
            Ok(c) => c,
            Err(error) => return Err(error),
        };
        let displayed_points = if view.overrides.hidden_points.len() == 0 {
            resolved_points
        } else {
            Configured {
                value: PointSet { points: visible(&resolved_points.value.points, &view.overrides.hidden_points) },
                resource: None,
                revision: None,
                layer: ResolutionLayer::ViewOverride,
            }
        };
        let aspected_points = match configure(&w.profile.aspected_points, &self.catalog) {
            Ok(c) => c,
            Err(error) => return Err(error),
        };
        let resolved_aspects = match configure(&w.profile.aspects, &self.catalog) {
            Ok(c) => c,
            Err(error) => return Err(error),
        };
        let aspect_set = match &self.editor {
            Some(editor) => if w.profile.aspects.id() == Some(editor.base.id) {
                Configured {
                    value: editor.draft.clone(),
                    resource: Some(editor.base.id),
                    revision: Some(editor.state.base_revision()),
                    layer: ResolutionLayer::EditorPreview,
                }
            } else {
                resolved_aspects
            },
            None => resolved_aspects,
        };
        let analysis = match configure(&w.profile.analysis, &self.catalog) {
            Ok(c) => c,
            Err(error) => return Err(error),
        };
        let wheel = match configure(&w.profile.wheel, &self.catalog) {
            Ok(c) => c,
            Err(error) => return Err(error),
        };
        let theme = match configure(&w.profile.theme, &self.catalog) {
            Ok(c) => c,
            Err(error) => return Err(error),
        };
        Ok(EffectiveConfiguration { calculation, displayed_points, aspected_points, aspect_set, analysis, wheel, theme })
    }
}

} // verus!
