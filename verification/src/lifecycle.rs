use vstd::prelude::*;

use std::collections::VecDeque;

use crate::catalog::{heads_after, history_after, latest_modified, lists_pin, pins_increasing, Catalog};
use crate::ids::{uuid_text, ResourceId, Revision};
use crate::intents::failed_with;
use crate::read_model::{AppError, AppErrorKind, AppNoticeKind, ApplicationStatus};
use crate::resource::{CanonicalResource, ResourceKind};
use crate::session::{concat3, info, kind_name, kind_text, refresh_queued_on, runtimes_follow, PendingWork, Session, ViewRuntime};
use crate::decimal::{decimal_text, format_decimal};
use crate::workspace::Workspace;
use crate::workspace_commands::views_hold_wf;

verus! {

/// The library read from the repository at start-up: the current revision of every resource,
/// the pinned revisions added to it, and the time to stamp the next write with.
#[derive(Debug)]
pub struct HydratedLibrary {
    catalog: Catalog,
    next_timestamp: i64,
}

impl HydratedLibrary {
    #[verifier::type_invariant]
    closed spec fn catalog_well_formed(self) -> bool {
        self.catalog.wf()
    }

    pub closed spec fn spec_catalog(self) -> Catalog {
        self.catalog
    }

    pub closed spec fn spec_next_timestamp(self) -> i64 {
        self.next_timestamp
    }

    /// The library of a listing of current resources; the next write is stamped one past the
    /// latest modification, saturating.
    pub fn from_resources(resources: Vec<CanonicalResource>) -> (r: Self)
        ensures
            r.spec_catalog().spec_history() == history_after(resources@),
            r.spec_catalog().spec_heads() == heads_after(resources@),
            r.spec_next_timestamp() == (if latest_modified(resources@) < i64::MAX {
                latest_modified(resources@) + 1
            } else {
                i64::MAX as int
            }),
    {
        let (catalog, next_timestamp) = Catalog::from_resources(resources);
        HydratedLibrary { catalog, next_timestamp }
    }

    /// The revisions that the current workspaces pin, ordered by identity and revision, each
    /// once.
    pub fn pinned_references(&self) -> (r: Vec<(ResourceId, Revision)>)
        ensures
            pins_increasing(r@),
            forall|p: (u128, u64)| lists_pin(r@, p) <==> self.spec_catalog().spec_pins().contains(p),
    {
        proof {
            use_type_invariant(self);
        }
        self.catalog.pinned_references()
    }

    /// Whether the revision `revision` of `id` is already held.
    pub fn has_revision(&self, id: ResourceId, revision: Revision) -> (r: bool)
        ensures
            r == self.spec_catalog().spec_history().contains_key((id@, revision@)),
    {
        self.catalog.has_revision(id, revision)
    }

    /// Adds a pinned revision read from the repository.
    pub fn add_pinned(&mut self, resource: CanonicalResource)
        ensures
            final(self).spec_catalog().spec_history() == old(self).spec_catalog().spec_history().insert(
                (resource.spec_id()@, resource.spec_revision()@),
                resource,
            ),
            final(self).spec_catalog().spec_heads() == old(self).spec_catalog().spec_heads(),
            final(self).spec_next_timestamp() == old(self).spec_next_timestamp(),
    {
        proof {
            use_type_invariant(&*self);
        }
        let mut catalog = Catalog::new();
        core::mem::swap(&mut catalog, &mut self.catalog);
        catalog.insert_history(resource);
        self.catalog = catalog;
    }

    fn into_parts(self) -> (r: (Catalog, i64))
        ensures
            r.0 == self.spec_catalog(),
            r.1 == self.spec_next_timestamp(),
            r.0.wf(),
    {
        proof {
            use_type_invariant(&self);
        }
        let HydratedLibrary { catalog, next_timestamp } = self;
        (catalog, next_timestamp)
    }
}

/// The workspace `id` among revisions `history` with current revisions `heads`.
pub open spec fn workspace_in(history: Map<(u128, u64), CanonicalResource>, heads: Map<u128, u64>, id: ResourceId) -> Option<
    Workspace,
> {
    if heads.contains_key(id@) {
        match history[(id@, heads[id@])] {
            CanonicalResource::Workspace(e) => Some(e.payload),
            _ => None,
        }
    } else {
        None
    }
}

/// Why hydrated data cannot be adopted for the workspace `id`; none where it can.
pub open spec fn hydration_block(history: Map<(u128, u64), CanonicalResource>, heads: Map<u128, u64>, id: ResourceId) -> Option<
    Seq<char>,
> {
    match workspace_in(history, heads, id) {
        None => Some("Bootstrap workspace "@ + uuid_text(id@) + " was not available after hydration"@),
        Some(_) => None,
    }
}

/// A failed initialization: the session reports the error and keeps no pending work.
pub open spec fn initialization_failed<S>(before: Session<S>, after: Session<S>, kind: AppErrorKind, message: Seq<char>) -> bool {
    &&& after.status matches ApplicationStatus::Error(e) && e.kind == kind && e.message@ == message
    &&& after.pending@.len() == 0
    &&& after.notice is None
    &&& after.catalog == before.catalog
    &&& after.views == before.views
    &&& after.editor == before.editor
    &&& after.next_timestamp == before.next_timestamp
    &&& after.workspace_id == before.workspace_id
}

/// What initializing owes: nothing changes once ready; a failure is reported; otherwise the
/// hydrated library becomes the catalog, the session is ready and the active view computes.
pub open spec fn initialized<S>(before: Session<S>, after: Session<S>, hydration: Result<HydratedLibrary, AppError>, r: Result<(), AppError>) -> bool {
    if before.status is Ready {
        r is Ok && after == before
    } else {
        &&& (r is Ok <==> before.version < u64::MAX)
        &&& r is Ok ==> after.version == before.version + 1
        &&& r is Err ==> after.version == before.version
        &&& match hydration {
            Err(e) => initialization_failed(before, after, e.kind, e.message@),
            Ok(library) => {
                let history = library.spec_catalog().spec_history();
                let heads = library.spec_catalog().spec_heads();
                match hydration_block(history, heads, before.workspace_id) {
                    Some(message) => initialization_failed(before, after, AppErrorKind::Initialization, message),
                    None => {
                        &&& after.catalog.spec_history() == history
                        &&& after.catalog.spec_heads() == heads
                        &&& after.next_timestamp == library.spec_next_timestamp()
                        &&& after.status == ApplicationStatus::Ready
                        &&& after.editor is None
                        &&& after.workspace_id == before.workspace_id
                        &&& after.notice matches Some(n) && n.kind == AppNoticeKind::Info
                            && n.message@ == "Canonical library and workspace hydrated; calculating the active view"@
                        &&& exists|views: Map<u128, ViewRuntime<S>>| #[trigger] runtimes_follow(after.spec_workspace(), before.views@, views)
                            && refresh_queued_on(after.spec_active_view(), views, Seq::empty(), after.views@, after.pending@)
                    },
                }
            },
        }
    }
}

impl<S> Session<S> {
    /// Whether the session has been initialized.
    pub fn is_ready(&self) -> (r: bool)
        ensures
            r == (self.status is Ready),
    {
        match self.status {
            ApplicationStatus::Ready => true,
            _ => false,
        }
    }

    fn fail_initialization(&mut self, error: AppError) -> (r: Result<(), AppError>)
        ensures
            initialization_failed(*old(self), *final(self), error.kind, error.message@),
            final(self).version == (if old(self).version < u64::MAX { old(self).version + 1 } else { old(self).version as int }),
            r is Ok <==> old(self).version < u64::MAX,
            final(self).wf() == old(self).wf(),
    {
        self.status = ApplicationStatus::Error(error);
        self.pending = VecDeque::new();
        self.notice = None;
        self.advance()
    }

    /// Adopts what hydration found, or records why it failed.
    pub fn initialize(&mut self, hydration: Result<HydratedLibrary, AppError>) -> (r: Result<(), AppError>)
        ensures
            final(self).wf(),
            initialized(*old(self), *final(self), hydration, r),
    {
        self.hold_wf();
        if self.is_ready() {
            return Ok(());
        }
        let found = match hydration {
            Err(error) => return self.fail_initialization(error),
            Ok(found) => found,
        };
        let (catalog, next_timestamp) = found.into_parts();
        let check = match catalog.workspace(self.workspace_id) {
            None => {
                let id_text = self.workspace_id.to_string();
                let message = concat3("Bootstrap workspace ", id_text.as_str(), " was not available after hydration");
                Err(AppError { kind: AppErrorKind::Initialization, message })
            },
            Some(envelope) => {
                views_hold_wf(&envelope.payload.views);
                Ok(())
            },
        };
        match check {
            Err(error) => return self.fail_initialization(error),
            Ok(()) => {},
        }
        self.catalog = catalog;
        self.next_timestamp = next_timestamp;
        self.status = ApplicationStatus::Ready;
        self.editor = None;
        self.pending = VecDeque::new();
        self.notice = Some(info("Canonical library and workspace hydrated; calculating the active view"));
        self.ensure_view_runtimes();
        self.queue_active_view_refresh();
        self.advance()
    }

    /// Takes the oldest pending work, if any.
    pub fn take_next_pending(&mut self) -> (r: Option<PendingWork>)
        ensures
            final(self).wf(),
            old(self).pending@.len() == 0 ==> r is None && final(self).pending@.len() == 0,
            old(self).pending@.len() > 0 ==> r == Some(old(self).pending@[0])
                && final(self).pending@ == old(self).pending@.drop_first(),
            final(self).version == old(self).version,
            final(self).status == old(self).status,
            final(self).catalog == old(self).catalog,
            final(self).workspace_id == old(self).workspace_id,
            final(self).views == old(self).views,
            final(self).editor == old(self).editor,
            final(self).notice == old(self).notice,
            final(self).next_timestamp == old(self).next_timestamp,
    {
        self.hold_wf();
        self.pending.pop_front()
    }
}

/// The error reported when a pinned revision could not be found.
pub fn pinned_unavailable(id: ResourceId, revision: Revision) -> (r: AppError)
    ensures
        r.kind == AppErrorKind::Initialization,
        r.message@ == "Pinned resource "@ + uuid_text(id@) + " revision "@ + decimal_text(revision@ as int)
            + " was not available"@,
{
    let mut message = "Pinned resource ".to_owned();
    message.append(id.to_string().as_str());
    message.append(" revision ");
    message.append(format_decimal(revision.get()).as_str());
    message.append(" was not available");
    AppError { kind: AppErrorKind::Initialization, message }
}

/// What the repository holds under the identity of a bootstrap resource.
#[derive(Clone, Copy, Debug, PartialEq, Eq, Structural)]
pub enum BootstrapHead {
    Missing,
    Present(ResourceKind),
    Deleted,
}

/// What bootstrapping does with a resource of kind `kind`: create it where it is missing, keep
/// an existing resource of the same kind, and refuse anything else.
pub open spec fn bootstrap_outcome(id: ResourceId, kind: ResourceKind, head: BootstrapHead, r: Result<bool, AppError>) -> bool {
    match head {
        BootstrapHead::Missing => r == Ok::<bool, AppError>(true),
        BootstrapHead::Present(existing) => if existing == kind {
            r == Ok::<bool, AppError>(false)
        } else {
            failed_with(r, AppErrorKind::Initialization, "Bootstrap identity "@ + uuid_text(id@) + " contains "@
                + kind_name(existing) + ", expected "@ + kind_name(kind))
        },
        BootstrapHead::Deleted => failed_with(r, AppErrorKind::Initialization, "Bootstrap resource "@ + uuid_text(id@)
            + " was deleted and cannot be recreated"@),
    }
}

/// Decides, for one bootstrap resource, whether it must be created (`true`), is already there
/// (`false`), or blocks start-up.
pub fn bootstrap_step(id: ResourceId, kind: ResourceKind, head: BootstrapHead) -> (r: Result<bool, AppError>)
    ensures
        bootstrap_outcome(id, kind, head, r),
{
    match head {
        BootstrapHead::Missing => Ok(true),
        BootstrapHead::Present(existing) => if existing == kind {
            Ok(false)
        } else {
            let mut message = concat3("Bootstrap identity ", id.to_string().as_str(), " contains ");
            message.append(kind_text(existing));
            message.append(", expected ");
            message.append(kind_text(kind));
            Err(AppError { kind: AppErrorKind::Initialization, message })
        },
        BootstrapHead::Deleted => {
            let message = concat3("Bootstrap resource ", id.to_string().as_str(), " was deleted and cannot be recreated");
            Err(AppError { kind: AppErrorKind::Initialization, message })
        },
    }
}

/// What waiting for a projection past a seen version does next.
#[derive(Clone, Copy, Debug, PartialEq, Eq, Structural)]
pub enum WaitStep {
    /// The projection has moved past the seen version: publish it.
    Publish,
    /// Nothing has moved yet and work is pending: carry out the oldest pending work.
    CompletePending,
    /// Nothing has moved and nothing is pending: wait for the next change.
    AwaitChange,
}

/// The message for a wait on a version the session has not reached.
pub open spec fn future_wait_message(after: int, version: int) -> Seq<char> {
    "Cannot wait after future projection "@ + decimal_text(after) + "; current projection is "@
        + decimal_text(version)
}

/// The step owed to a wait for a projection newer than `after`; none where the session has not
/// reached `after` and the wait is refused.
pub open spec fn spec_wait_step<S>(s: Session<S>, after: u64) -> Option<WaitStep> {
    if s.version > after {
        Some(WaitStep::Publish)
    } else if s.version < after {
        None
    } else if s.pending@.len() == 0 {
        Some(WaitStep::AwaitChange)
    } else {
        Some(WaitStep::CompletePending)
    }
}

impl<S> Session<S> {
    /// Decides the next step of waiting for a projection newer than `after`; a wait on a version
    /// the session has not reached is refused. Deciding reads the session and changes nothing.
    pub fn wait_step(&self, after: u64) -> (r: Result<WaitStep, AppError>)
        ensures
            match spec_wait_step(*self, after) {
                Some(step) => r == Ok::<WaitStep, AppError>(step),
                None => failed_with(
                    r,
                    AppErrorKind::InvalidIntent,
                    future_wait_message(after as int, self.version as int),
                ),
            },
    {
        if self.version > after {
            Ok(WaitStep::Publish)
        } else if self.version < after {
            let mut message = "Cannot wait after future projection ".to_owned();
            message.append(format_decimal(after).as_str());
            message.append("; current projection is ");
            message.append(format_decimal(self.version).as_str());
            Err(AppError { kind: AppErrorKind::InvalidIntent, message })
        } else if self.pending.len() == 0 {
            Ok(WaitStep::AwaitChange)
        } else {
            Ok(WaitStep::CompletePending)
        }
    }
}

} // verus!
