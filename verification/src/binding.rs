use vstd::prelude::*;

use crate::catalog::Catalog;
use crate::ids::{uuid_text, ResourceId, Revision};
use crate::resource::{AspectSet, CanonicalResource, PointSet, ResourceBinding, ResourceEnvelope};
use crate::decimal::{decimal_text, format_decimal};
use crate::view::{AnalysisProfile, Theme, ViewDocument, WheelTemplate};

verus! {

/// A payload that a workspace can bind by identity: it is found among the canonical resources
/// of its own kind.
pub trait BoundPayload: Sized {
    /// The envelope of this payload type that `resource` holds, if it is of this kind.
    spec fn spec_envelope(resource: CanonicalResource) -> Option<ResourceEnvelope<Self>>;

    fn envelope(resource: &CanonicalResource) -> (r: Option<&ResourceEnvelope<Self>>)
        ensures
            match Self::spec_envelope(*resource) {
                Some(e) => r matches Some(x) && *x == e,
                None => r is None,
            },
    ;

    /// The envelope found in a resource carries that resource's header.
    proof fn lemma_envelope_header(resource: CanonicalResource)
        ensures
            Self::spec_envelope(resource) matches Some(e) ==> e.id == resource.spec_id()
                && e.revision == resource.spec_revision() && e.title@ == resource.spec_title(),
    ;
}

impl BoundPayload for PointSet {
    proof fn lemma_envelope_header(resource: CanonicalResource) {
    }

    open spec fn spec_envelope(resource: CanonicalResource) -> Option<ResourceEnvelope<Self>> {
        match resource {
            CanonicalResource::PointSet(e) => Some(e),
            _ => None,
        }
    }

    fn envelope(resource: &CanonicalResource) -> (r: Option<&ResourceEnvelope<Self>>) {
        match resource {
            CanonicalResource::PointSet(e) => Some(e),
            _ => None,
        }
    }
}

impl BoundPayload for AspectSet {
    proof fn lemma_envelope_header(resource: CanonicalResource) {
    }

    open spec fn spec_envelope(resource: CanonicalResource) -> Option<ResourceEnvelope<Self>> {
        match resource {
            CanonicalResource::AspectSet(e) => Some(e),
            _ => None,
        }
    }

    fn envelope(resource: &CanonicalResource) -> (r: Option<&ResourceEnvelope<Self>>) {
        match resource {
            CanonicalResource::AspectSet(e) => Some(e),
            _ => None,
        }
    }
}

impl BoundPayload for AnalysisProfile {
    proof fn lemma_envelope_header(resource: CanonicalResource) {
    }

    open spec fn spec_envelope(resource: CanonicalResource) -> Option<ResourceEnvelope<Self>> {
        match resource {
            CanonicalResource::AnalysisProfile(e) => Some(e),
            _ => None,
        }
    }

    fn envelope(resource: &CanonicalResource) -> (r: Option<&ResourceEnvelope<Self>>) {
        match resource {
            CanonicalResource::AnalysisProfile(e) => Some(e),
            _ => None,
        }
    }
}

impl BoundPayload for WheelTemplate {
    proof fn lemma_envelope_header(resource: CanonicalResource) {
    }

    open spec fn spec_envelope(resource: CanonicalResource) -> Option<ResourceEnvelope<Self>> {
        match resource {
            CanonicalResource::WheelTemplate(e) => Some(e),
            _ => None,
        }
    }

    fn envelope(resource: &CanonicalResource) -> (r: Option<&ResourceEnvelope<Self>>) {
        match resource {
            CanonicalResource::WheelTemplate(e) => Some(e),
            _ => None,
        }
    }
}

impl BoundPayload for Theme {
    proof fn lemma_envelope_header(resource: CanonicalResource) {
    }

    open spec fn spec_envelope(resource: CanonicalResource) -> Option<ResourceEnvelope<Self>> {
        match resource {
            CanonicalResource::Theme(e) => Some(e),
            _ => None,
        }
    }

    fn envelope(resource: &CanonicalResource) -> (r: Option<&ResourceEnvelope<Self>>) {
        match resource {
            CanonicalResource::Theme(e) => Some(e),
            _ => None,
        }
    }
}

impl BoundPayload for ViewDocument {
    proof fn lemma_envelope_header(resource: CanonicalResource) {
    }

    open spec fn spec_envelope(resource: CanonicalResource) -> Option<ResourceEnvelope<Self>> {
        match resource {
            CanonicalResource::ViewDocument(e) => Some(e),
            _ => None,
        }
    }

    fn envelope(resource: &CanonicalResource) -> (r: Option<&ResourceEnvelope<Self>>) {
        match resource {
            CanonicalResource::ViewDocument(e) => Some(e),
            _ => None,
        }
    }
}

/// Where a resolved value came from.
#[derive(Clone, Copy, Debug, PartialEq, Eq, Structural)]
pub enum ResolutionLayer {
    Inline,
    FollowedResource,
    PinnedResource,
    ViewOverride,
    EditorPreview,
}

/// A binding resolved against the catalog: the value, and the resource revision it came from
/// unless it is inline.
#[derive(Debug)]
pub struct Resolved<'a, T> {
    pub value: &'a T,
    pub resource: Option<ResourceId>,
    pub revision: Option<Revision>,
    pub layer: ResolutionLayer,
}

/// Why a binding could not be resolved.
#[derive(Clone, Copy, Debug, PartialEq, Eq, Structural)]
pub enum BindingResolutionError {
    FollowedMissing { id: ResourceId },
    PinnedMissing { id: ResourceId, revision: Revision },
}

/// A resolution failure as the user reads it.
pub open spec fn resolution_message(error: BindingResolutionError) -> Seq<char> {
    match error {
        BindingResolutionError::FollowedMissing { id } => "followed resource "@ + uuid_text(id@) + " was not found"@,
        BindingResolutionError::PinnedMissing { id, revision } => "pinned resource "@ + uuid_text(id@)
            + " revision "@ + decimal_text(revision@ as int) + " was not found"@,
    }
}

impl BindingResolutionError {
    /// The failure as the user reads it.
    pub fn to_string(&self) -> (r: String)
        ensures
            r@ == resolution_message(*self),
    {
        match self {
            BindingResolutionError::FollowedMissing { id } => {
                let mut text = "followed resource ".to_owned();
                text.append(id.to_string().as_str());
                text.append(" was not found");
                text
            },
            BindingResolutionError::PinnedMissing { id, revision } => {
                let mut text = "pinned resource ".to_owned();
                text.append(id.to_string().as_str());
                text.append(" revision ");
                text.append(format_decimal(revision.get()).as_str());
                text.append(" was not found");
                text
            },
        }
    }
}

/// The current envelope of `id`, if the current resource is of the payload's kind.
pub open spec fn followed_envelope<T: BoundPayload>(catalog: Catalog, id: ResourceId) -> Option<ResourceEnvelope<T>> {
    match catalog.spec_current(id@) {
        Some(resource) => T::spec_envelope(resource),
        None => None,
    }
}

/// The envelope of revision `revision` of `id`, if it has been seen and is of the payload's kind.
pub open spec fn pinned_envelope<T: BoundPayload>(catalog: Catalog, id: ResourceId, revision: Revision) -> Option<ResourceEnvelope<T>> {
    if catalog.spec_history().contains_key((id@, revision@)) {
        T::spec_envelope(catalog.spec_history()[(id@, revision@)])
    } else {
        None
    }
}

/// What resolving `binding` against `catalog` yields: an inline value as it is, a followed
/// resource at its current revision, a pinned one at exactly its pinned revision.
pub open spec fn resolves_to<T: BoundPayload>(
    binding: ResourceBinding<T>,
    catalog: Catalog,
    r: Result<Resolved<T>, BindingResolutionError>,
) -> bool {
    match binding {
        ResourceBinding::Inline { value } => r matches Ok(x) && *x.value == value && x.resource is None
            && x.revision is None && x.layer == ResolutionLayer::Inline,
        ResourceBinding::Follow { id } => match followed_envelope::<T>(catalog, id) {
            Some(e) => r matches Ok(x) && *x.value == e.payload && x.resource == Some(id)
                && x.revision == Some(e.revision) && x.layer == ResolutionLayer::FollowedResource,
            None => r == Err::<Resolved<T>, BindingResolutionError>(BindingResolutionError::FollowedMissing { id }),
        },
        ResourceBinding::Pinned { id, revision } => match pinned_envelope::<T>(catalog, id, revision) {
            Some(e) => r matches Ok(x) && *x.value == e.payload && x.resource == Some(id)
                && x.revision == Some(revision) && x.layer == ResolutionLayer::PinnedResource,
            None => r == Err::<Resolved<T>, BindingResolutionError>(BindingResolutionError::PinnedMissing { id, revision }),
        },
    }
}

/// The value `binding` resolves to in `catalog`, or why it does not resolve.
pub open spec fn spec_resolve<T: BoundPayload>(binding: ResourceBinding<T>, catalog: Catalog) -> Result<T, BindingResolutionError> {
    match binding {
        ResourceBinding::Inline { value } => Ok(value),
        ResourceBinding::Follow { id } => match followed_envelope::<T>(catalog, id) {
            Some(e) => Ok(e.payload),
            None => Err(BindingResolutionError::FollowedMissing { id }),
        },
        ResourceBinding::Pinned { id, revision } => match pinned_envelope::<T>(catalog, id, revision) {
            Some(e) => Ok(e.payload),
            None => Err(BindingResolutionError::PinnedMissing { id, revision }),
        },
    }
}

/// Resolves a binding against the catalog.
pub fn resolve_typed_binding<'a, T: BoundPayload>(
    binding: &'a ResourceBinding<T>,
    catalog: &'a Catalog,
) -> (r: Result<Resolved<'a, T>, BindingResolutionError>)
    ensures
        resolves_to(*binding, *catalog, r),
        match spec_resolve(*binding, *catalog) {
            Ok(value) => r matches Ok(x) && *x.value == value,
            Err(e) => r == Err::<Resolved<T>, BindingResolutionError>(e),
        },
{
    proof {
        use_type_invariant(catalog);
    }
    match binding {
        ResourceBinding::Inline { value } => Ok(Resolved {
            value,
            resource: None,
            revision: None,
            layer: ResolutionLayer::Inline,
        }),
        ResourceBinding::Follow { id } => {
            let found = match catalog.current(*id) {
                Some(resource) => T::envelope(resource),
                None => None,
            };
            match found {
                Some(e) => Ok(Resolved {
                    value: &e.payload,
                    resource: Some(*id),
                    revision: Some(e.revision),
                    layer: ResolutionLayer::FollowedResource,
                }),
                None => Err(BindingResolutionError::FollowedMissing { id: *id }),
            }
        },
        ResourceBinding::Pinned { id, revision } => {
            let found = match catalog.revision(*id, *revision) {
                Some(resource) => T::envelope(resource),
                None => None,
            };
            match found {
                Some(e) => Ok(Resolved {
                    value: &e.payload,
                    resource: Some(*id),
                    revision: Some(*revision),
                    layer: ResolutionLayer::PinnedResource,
                }),
                None => Err(BindingResolutionError::PinnedMissing { id: *id, revision: *revision }),
            }
        },
    }
}

} // verus!
