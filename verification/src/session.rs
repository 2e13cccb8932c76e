use vstd::prelude::*;

use std::collections::VecDeque;

use std::collections::BTreeMap;

use crate::catalog::Catalog;
use crate::ids::{uuid_text, ResourceId, Revision, ViewInstanceId};
use crate::read_model::{
    AppAction, AppError, AppErrorKind, AppNotice, AppNoticeKind, ApplicationStatus,
    Availability, CommandCapability, DraftState, ViewComputationState,
};
use crate::ids::{text_equals, AspectId};
use crate::read_model::AspectSetDraftMutation;
use crate::resource::{AspectDefinition, AspectSet, CanonicalResource, OrbPolicy, ResourceEnvelope};
use crate::ids::Timestamp;
use crate::resource::ResourceKind;
use crate::decimal::{decimal_text, format_decimal};
use crate::workspace::{view_ids, Workspace};
use crate::workspace_commands::{views_hold_wf, views_wf};

verus! {

broadcast use vstd::laws_cmp::group_laws_cmp;

/// Concatenation of three texts.
pub fn concat3(a: &str, b: &str, c: &str) -> (r: String)
    ensures
        r@ == a@ + b@ + c@,
{
    let mut out = a.to_owned();
    out.append(b);
    out.append(c);
    out
}

/// A notice of the given kind.
pub fn notice(kind: AppNoticeKind, message: &str) -> (r: AppNotice)
    ensures
        r.kind == kind,
        r.message@ == message@,
{
    AppNotice { kind, message: message.to_owned() }
}

/// An informational notice.
pub fn info(message: &str) -> (r: AppNotice)
    ensures
        r.kind == AppNoticeKind::Info,
        r.message@ == message@,
{
    notice(AppNoticeKind::Info, message)
}

/// A success notice.
pub fn success(message: &str) -> (r: AppNotice)
    ensures
        r.kind == AppNoticeKind::Success,
        r.message@ == message@,
{
    notice(AppNoticeKind::Success, message)
}

/// An action disabled with a reason.
pub fn disabled(reason: &str) -> (r: Availability)
    ensures
        r matches Availability::Disabled { reason: Some(text) } && text@ == reason@,
{
    Availability::Disabled { reason: Some(reason.to_owned()) }
}

pub fn capability(action: AppAction, availability: Availability) -> (r: CommandCapability)
    ensures
        r.action == action,
        r.availability == availability,
{
    CommandCapability { action, availability }
}

/// Message of a missing resource: `"{noun} {id} was not found"`.
pub open spec fn not_found_message(noun: Seq<char>, id: ResourceId) -> Seq<char> {
    noun + " "@ + uuid_text(id@) + " was not found"@
}

fn not_found_text(noun: &str, id: ResourceId) -> (r: String)
    ensures
        r@ == not_found_message(noun@, id),
{
    let mut text = noun.to_owned();
    text.append(" ");
    let id_text = id.to_string();
    text.append(id_text.as_str());
    text.append(" was not found");
    text
}

/// A resource the intent names is missing.
pub fn not_found(noun: &str, id: ResourceId) -> (r: AppError)
    ensures
        r.kind == AppErrorKind::NotFound,
        r.message@ == not_found_message(noun@, id),
{
    let text = not_found_text(noun, id);
    AppError { kind: AppErrorKind::NotFound, message: text }
}

/// A resource a view computation needs is missing.
pub fn not_found_for_view(noun: &str, id: ResourceId) -> (r: AppError)
    ensures
        r.kind == AppErrorKind::ViewComputation,
        r.message@ == not_found_message(noun@, id),
{
    let text = not_found_text(noun, id);
    AppError { kind: AppErrorKind::ViewComputation, message: text }
}

/// The warning shown when a save conflicted but the remote revision could not be read.
pub open spec fn conflict_refresh_message(detail: Seq<char>) -> Seq<char> {
    "Aspect Set save conflict was detected, but the remote revision could not be loaded; the local draft was retained: "@ + detail
}

pub fn conflict_refresh_warning(detail: &str) -> (r: AppNotice)
    ensures
        r.kind == AppNoticeKind::Warning,
        r.message@ == conflict_refresh_message(detail@),
{
    let mut text = "Aspect Set save conflict was detected, but the remote revision could not be loaded; the local draft was retained: ".to_owned();
    text.append(detail);
    AppNotice { kind: AppNoticeKind::Warning, message: text }
}

/// Computation state of one view and its last good scene.
#[derive(Debug)]
pub struct ViewRuntime<S> {
    pub scene: Option<S>,
    pub computation: ViewComputationState,
}

impl<S> ViewRuntime<S> {
    /// A view that has never been computed.
    pub fn fresh_start() -> (r: Self)
        ensures
            r.scene is None,
            r.computation == ViewComputationState::Loading,
    {
        ViewRuntime { scene: None, computation: ViewComputationState::Loading }
    }
}

/// An open Aspect Set draft: the canonical revision it started from, the edited value and its
/// state.
#[derive(Debug)]
pub struct AspectSetEditor {
    pub base: ResourceEnvelope<AspectSet>,
    pub draft: AspectSet,
    pub state: DraftState,
}

/// Work the application has accepted but not yet completed.
#[derive(Debug)]
pub enum PendingWork {
    ComputeView { view_id: ViewInstanceId },
    SaveAspectSet { expected_revision: Revision, next: ResourceEnvelope<AspectSet> },
}

/// `pending` without any computation of `view`, order kept.
pub open spec fn without_view_work(pending: Seq<PendingWork>, view: ViewInstanceId) -> Seq<PendingWork>
    decreases pending.len(),
{
    if pending.len() == 0 {
        pending
    } else {
        let rest = without_view_work(pending.drop_last(), view);
        if pending.last() == (PendingWork::ComputeView { view_id: view }) {
            rest
        } else {
            rest.push(pending.last())
        }
    }
}

/// Whether a save is among the pending work.
pub open spec fn has_pending_save(pending: Seq<PendingWork>) -> bool {
    exists|i: int| 0 <= i < pending.len() && #[trigger] pending[i] is SaveAspectSet
}

/// Authoritative application state: what has been projected, the library, the workspace, the
/// view computations, the open draft and the queue of accepted work.
pub struct Session<S> {
    pub version: u64,
    pub status: ApplicationStatus,
    pub catalog: Catalog,
    pub workspace_id: ResourceId,
    pub views: BTreeMap<u128, ViewRuntime<S>>,
    pub editor: Option<AspectSetEditor>,
    pub pending: VecDeque<PendingWork>,
    pub notice: Option<AppNotice>,
    pub next_timestamp: i64,
}

impl<S> Session<S> {
    /// The catalog is well formed and the slot assignments of the workspace's views are too.
    pub open spec fn wf(self) -> bool {
        &&& self.catalog.wf()
        &&& match self.spec_workspace() {
            Some(w) => views_wf(w.views@),
            None => true,
        }
    }

    /// The hydrated workspace, if any.
    pub open spec fn spec_workspace(self) -> Option<Workspace> {
        match self.catalog.spec_current(self.workspace_id@) {
            Some(CanonicalResource::Workspace(envelope)) => Some(envelope.payload),
            _ => None,
        }
    }

    /// The active view of the hydrated workspace, if any.
    pub open spec fn spec_active_view(self) -> Option<ViewInstanceId> {
        match self.spec_workspace() {
            Some(w) => w.active_view,
            None => None,
        }
    }

    /// Every session is well formed: its catalog and the slot assignments of its views keep
    /// the invariants of their types.
    pub fn hold_wf(&self)
        ensures
            self.wf(),
    {
        proof {
            use_type_invariant(&self.catalog);
        }
        match self.catalog.workspace(self.workspace_id) {
            Some(envelope) => views_hold_wf(&envelope.payload.views),
            None => {},
        }
    }

    /// A session before initialization for the workspace `workspace_id`.
    pub fn new(workspace_id: ResourceId) -> (r: Self)
        ensures
            r.wf(),
            r.version == 1,
            r.status == ApplicationStatus::Initializing,
            r.workspace_id == workspace_id,
            r.spec_workspace() is None,
            r.views@ == Map::<u128, ViewRuntime<S>>::empty(),
            r.editor is None,
            r.pending@.len() == 0,
            r.notice is None,
            r.next_timestamp == 1,
    {
        Session {
            version: 1,
            status: ApplicationStatus::Initializing,
            catalog: Catalog::new(),
            workspace_id,
            views: BTreeMap::new(),
            editor: None,
            pending: VecDeque::new(),
            notice: None,
            next_timestamp: 1,
        }
    }

    /// The hydrated workspace, if any.
    pub fn workspace(&self) -> (r: Option<&Workspace>)
        ensures
            match self.spec_workspace() {
                Some(w) => r matches Some(x) && *x == w,
                None => r is None,
            },
    {
        self.hold_wf();
        match self.catalog.workspace(self.workspace_id) {
            Some(envelope) => Some(&envelope.payload),
            None => None,
        }
    }

    pub fn active_view(&self) -> (r: Option<ViewInstanceId>)
        ensures
            r == self.spec_active_view(),
    {
        self.hold_wf();
        match self.workspace() {
            Some(w) => w.active_view,
            None => None,
        }
    }

    /// Publishes a new projection version; fails only when the version cannot advance.
    pub fn advance(&mut self) -> (r: Result<(), AppError>)
        ensures
            r is Ok <==> old(self).version < u64::MAX,
            r is Ok ==> final(self).version == old(self).version + 1,
            r is Err ==> final(self).version == old(self).version,
            r matches Err(e) ==> e.kind == AppErrorKind::Unavailable && e.message@ == "Application projection version overflowed"@
                && final(self).version == old(self).version,
            final(self).status == old(self).status,
            final(self).catalog == old(self).catalog,
            final(self).workspace_id == old(self).workspace_id,
            final(self).views == old(self).views,
            final(self).editor == old(self).editor,
            final(self).pending == old(self).pending,
            final(self).notice == old(self).notice,
            final(self).next_timestamp == old(self).next_timestamp,
    {
        match self.version.checked_add(1) {
            Some(next) => {
                self.version = next;
                Ok(())
            },
            None => Err(AppError::new(AppErrorKind::Unavailable, "Application projection version overflowed")),
        }
    }

    /// Whether a save is pending.
    pub fn save_pending(&self) -> (r: bool)
        ensures
            r == has_pending_save(self.pending@),
    {
        let mut i: usize = 0;
        while i < self.pending.len()
            invariant
                i <= self.pending@.len(),
                forall|j: int| 0 <= j < i ==> !(#[trigger] self.pending@[j] is SaveAspectSet),
            decreases self.pending@.len() - i,
        {
            match &self.pending[i] {
                PendingWork::SaveAspectSet { .. } => return true,
                PendingWork::ComputeView { .. } => {},
            }
            i += 1;
        }
        false
    }

    /// The effect of queueing the active view's refresh on the view runtimes.
    pub open spec fn views_refreshed(before: Self, after: Self) -> bool {
        match before.spec_active_view() {
            None => after.views == before.views,
            Some(v) => {
                &&& after.views@.dom() == before.views@.dom().insert(v@)
                &&& forall|k: u128| k != v@ && #[trigger] before.views@.contains_key(k) ==> after.views@[k] == before.views@[k]
                &&& after.views@[v@].scene == (if before.views@.contains_key(v@) { before.views@[v@].scene } else { None })
                &&& after.views@[v@].computation == (if after.views@[v@].scene is Some {
                    ViewComputationState::Refreshing
                } else {
                    ViewComputationState::Loading
                })
            },
        }
    }

    /// The effect of queueing the active view's refresh on the view runtimes and the queue.
    pub open spec fn refresh_queued(before: Self, after: Self) -> bool {
        &&& Self::views_refreshed(before, after)
        &&& match before.spec_active_view() {
            None => after.pending == before.pending,
            Some(v) => after.pending@ == seq![PendingWork::ComputeView { view_id: v }] + without_view_work(before.pending@, v),
        }
    }

    /// Marks the active view as computing and puts its computation at the front of the queue,
    /// replacing any computation of it already queued. A view with a last good scene is
    /// refreshing; one without is loading.
    pub fn queue_active_view_refresh(&mut self)
        ensures
            final(self).wf(),
            final(self).version == old(self).version,
            final(self).status == old(self).status,
            final(self).catalog == old(self).catalog,
            final(self).workspace_id == old(self).workspace_id,
            final(self).editor == old(self).editor,
            final(self).notice == old(self).notice,
            final(self).next_timestamp == old(self).next_timestamp,
            Self::refresh_queued(*old(self), *final(self)),
            refresh_queued_on(old(self).spec_active_view(), old(self).views@, old(self).pending@, final(self).views@, final(self).pending@),
    {
        self.hold_wf();
        let view_id = match self.active_view() {
            Some(v) => v,
            None => return,
        };
        let mut runtime = match self.views.remove(&view_id.0) {
            Some(runtime) => runtime,
            None => ViewRuntime::fresh_start(),
        };
        runtime.computation = match runtime.scene {
            Some(_) => ViewComputationState::Refreshing,
            None => ViewComputationState::Loading,
        };
        self.views.insert(view_id.0, runtime);
        let mut old_pending: VecDeque<PendingWork> = VecDeque::new();
        core::mem::swap(&mut old_pending, &mut self.pending);
        let ghost original = old_pending@;
        let mut kept: VecDeque<PendingWork> = VecDeque::new();
        kept.push_back(PendingWork::ComputeView { view_id });
        let ghost mut consumed: Seq<PendingWork> = Seq::empty();
        while old_pending.len() > 0
            invariant
                original == consumed + old_pending@,
                kept@ == seq![PendingWork::ComputeView { view_id }] + without_view_work(consumed, view_id),
            decreases old_pending@.len(),
        {
            let work = old_pending.pop_front().unwrap();
            let drop = match &work {
                PendingWork::ComputeView { view_id: pending_id } => *pending_id == view_id,
                PendingWork::SaveAspectSet { .. } => false,
            };
            let ghost before = consumed;
            proof {
                consumed = consumed.push(work);
                assert(consumed.drop_last() =~= before);
                assert(original =~= consumed + old_pending@);
            }
            if !drop {
                kept.push_back(work);
                assert(kept@ =~= seq![PendingWork::ComputeView { view_id }] + without_view_work(consumed, view_id));
            }
        }
        proof {
            assert(consumed =~= original);
        }
        self.pending = kept;
        proof {
            assert(self.views@.dom() =~= old(self).views@.dom().insert(view_id@));
            assert(old(self).spec_active_view() == Some(view_id));
        }
    }
}

/// `after` holds exactly one runtime per view of `workspace`: the runtime in `before` where
/// there was one, and otherwise a fresh one that is loading.
pub open spec fn runtimes_follow<S>(
    workspace: Option<Workspace>,
    before: Map<u128, ViewRuntime<S>>,
    after: Map<u128, ViewRuntime<S>>,
) -> bool {
    &&& forall|k: u128| #[trigger] after.contains_key(k) <==> (workspace matches Some(w)
        && view_ids(w.views@).map_values(|v: ViewInstanceId| v@).contains(k))
    &&& forall|k: u128| #[trigger] after.contains_key(k) ==> if before.contains_key(k) {
        after[k] == before[k]
    } else {
        after[k].scene is None && after[k].computation == ViewComputationState::Loading
    }
}

/// The effect of queueing a refresh of the view `active` on view runtimes and pending work:
/// the view is computing, keeping its last good scene, and its computation is the first
/// pending work, replacing any already queued.
pub open spec fn refresh_queued_on<S>(
    active: Option<ViewInstanceId>,
    views: Map<u128, ViewRuntime<S>>,
    pending: Seq<PendingWork>,
    views_after: Map<u128, ViewRuntime<S>>,
    pending_after: Seq<PendingWork>,
) -> bool {
    match active {
        None => views_after == views && pending_after == pending,
        Some(v) => {
            &&& views_after.dom() == views.dom().insert(v@)
            &&& forall|k: u128| k != v@ && #[trigger] views.contains_key(k) ==> views_after[k] == views[k]
            &&& views_after[v@].scene == (if views.contains_key(v@) { views[v@].scene } else { None })
            &&& views_after[v@].computation == (if views_after[v@].scene is Some {
                ViewComputationState::Refreshing
            } else {
                ViewComputationState::Loading
            })
            &&& pending_after == seq![PendingWork::ComputeView { view_id: v }] + without_view_work(pending, v)
        },
    }
}

/// `a` is enabled when `reason` is none, and otherwise disabled with that reason.
pub open spec fn availability_is(a: Availability, reason: Option<Seq<char>>) -> bool {
    match reason {
        None => a == Availability::Enabled,
        Some(text) => a matches Availability::Disabled { reason: Some(t) } && t@ == text,
    }
}

/// Why saving is unavailable in each editor state; none where it is available.
pub open spec fn save_block(state: Option<DraftState>) -> Option<Seq<char>> {
    match state {
        None => Some("Begin an Aspect Set edit before saving"@),
        Some(DraftState::Clean { .. }) => Some("The draft has no changes"@),
        Some(DraftState::Dirty { .. }) => None,
        Some(DraftState::Saving { .. }) => Some("The draft is currently saving"@),
        Some(DraftState::Conflict { .. }) => Some("Resolve or cancel the revision conflict before saving"@),
    }
}

/// Why canceling is unavailable in each editor state; none where it is available.
pub open spec fn cancel_block(state: Option<DraftState>) -> Option<Seq<char>> {
    match state {
        None => Some("There is no draft to cancel"@),
        Some(DraftState::Clean { .. }) => Some("The draft has no changes"@),
        Some(DraftState::Dirty { .. }) => None,
        Some(DraftState::Saving { .. }) => Some("Wait for the save to finish"@),
        Some(DraftState::Conflict { .. }) => None,
    }
}

/// Why beginning an edit is unavailable; none where it is available.
pub open spec fn begin_block(state: Option<DraftState>, aspects_bound: bool) -> Option<Seq<char>> {
    if state matches Some(DraftState::Saving { .. }) {
        Some("Wait for the current Aspect Set save to finish"@)
    } else if aspects_bound {
        None
    } else {
        Some("The active Aspect Set is inline and has no canonical resource to edit"@)
    }
}

/// Why refreshing is unavailable given the active view's computation; none where available.
pub open spec fn refresh_block(computation: Option<ViewComputationState>) -> Option<Seq<char>> {
    match computation {
        None => Some("No active view"@),
        Some(ViewComputationState::Loading) => Some("The active view is already computing"@),
        Some(ViewComputationState::Refreshing) => Some("The active view is already computing"@),
        Some(_) => None,
    }
}

impl<S> Session<S> {
    /// The editor's draft state, if a draft is open.
    pub open spec fn spec_editor_state(self) -> Option<DraftState> {
        match self.editor {
            Some(e) => Some(e.state),
            None => None,
        }
    }

    /// Whether the workspace Aspect Set is bound to a library resource.
    pub open spec fn spec_aspects_bound(self) -> bool {
        match self.spec_workspace() {
            Some(w) => w.profile.aspects.spec_id() is Some,
            None => false,
        }
    }

    /// The computation state of the active view, where it has a runtime.
    pub open spec fn spec_active_computation(self) -> Option<ViewComputationState> {
        match self.spec_active_view() {
            Some(v) => if self.views@.contains_key(v@) { Some(self.views@[v@].computation) } else { None },
            None => None,
        }
    }

    fn editor_saving(&self) -> (r: bool)
        ensures
            r == (self.spec_editor_state() matches Some(DraftState::Saving { .. })),
    {
        match &self.editor {
            Some(editor) => match editor.state {
                DraftState::Saving { .. } => true,
                _ => false,
            },
            None => false,
        }
    }

    /// The capabilities owed: begin edit, save, cancel and refresh, in that order, each enabled
    /// or disabled with the reason that applies.
    pub open spec fn capabilities_of(self, r: Seq<CommandCapability>) -> bool {
        &&& r.len() == 4
        &&& r[0].action == AppAction::BeginAspectSetEdit
        &&& availability_is(r[0].availability, begin_block(self.spec_editor_state(), self.spec_aspects_bound()))
        &&& r[1].action == AppAction::SaveDraft
        &&& availability_is(r[1].availability, save_block(self.spec_editor_state()))
        &&& r[2].action == AppAction::CancelDraft
        &&& availability_is(r[2].availability, cancel_block(self.spec_editor_state()))
        &&& r[3].action == AppAction::RefreshView
        &&& availability_is(r[3].availability, refresh_block(self.spec_active_computation()))
    }

    /// The actions and their availability, in the order begin edit, save, cancel, refresh.
    pub fn capabilities(&self) -> (r: Vec<CommandCapability>)
        ensures
            self.capabilities_of(r@),

    {
        self.hold_wf();
        let (save, cancel) = match &self.editor {
            None => (disabled("Begin an Aspect Set edit before saving"), disabled("There is no draft to cancel")),
            Some(editor) => match editor.state {
                DraftState::Clean { .. } => (disabled("The draft has no changes"), disabled("The draft has no changes")),
                DraftState::Dirty { .. } => (Availability::Enabled, Availability::Enabled),
                DraftState::Saving { .. } => (disabled("The draft is currently saving"), disabled("Wait for the save to finish")),
                DraftState::Conflict { .. } => (disabled("Resolve or cancel the revision conflict before saving"), Availability::Enabled),
            },
        };
        let bound = match self.workspace() {
            Some(w) => w.profile.aspects.id().is_some(),
            None => false,
        };
        let begin = if self.editor_saving() {
            disabled("Wait for the current Aspect Set save to finish")
        } else if bound {
            Availability::Enabled
        } else {
            disabled("The active Aspect Set is inline and has no canonical resource to edit")
        };
        let refresh = match self.active_view() {
            Some(v) => match self.views.get(&v.0) {
                Some(runtime) => match runtime.computation {
                    ViewComputationState::Loading => disabled("The active view is already computing"),
                    ViewComputationState::Refreshing => disabled("The active view is already computing"),
                    _ => Availability::Enabled,
                },
                None => disabled("No active view"),
            },
            None => disabled("No active view"),
        };
        let mut out: Vec<CommandCapability> = Vec::new();
        out.push(capability(AppAction::BeginAspectSetEdit, begin));
        out.push(capability(AppAction::SaveDraft, save));
        out.push(capability(AppAction::CancelDraft, cancel));
        out.push(capability(AppAction::RefreshView, refresh));
        out
    }

    /// Keeps exactly one runtime per view of the workspace: runtimes of removed views are dropped
    /// and new views start loading.
    pub fn ensure_view_runtimes(&mut self)
        ensures
            final(self).wf(),
            final(self).version == old(self).version,
            final(self).status == old(self).status,
            final(self).catalog == old(self).catalog,
            final(self).workspace_id == old(self).workspace_id,
            final(self).editor == old(self).editor,
            final(self).pending == old(self).pending,
            final(self).notice == old(self).notice,
            final(self).next_timestamp == old(self).next_timestamp,
            runtimes_follow(old(self).spec_workspace(), old(self).views@, final(self).views@),
    {
        self.hold_wf();
        let mut old_views: BTreeMap<u128, ViewRuntime<S>> = BTreeMap::new();
        core::mem::swap(&mut old_views, &mut self.views);
        let ghost original = old_views@;
        let mut ids: Vec<u128> = Vec::new();
        match self.workspace() {
            Some(w) => {
                let mut i: usize = 0;
                while i < w.views.len()
                    invariant
                        i <= w.views@.len(),
                        ids@ == view_ids(w.views@).map_values(|v: ViewInstanceId| v@).subrange(0, i as int),
                    decreases w.views@.len() - i,
                {
                    ids.push(w.views[i].id.0);
                    i += 1;
                }
                assert(ids@ =~= view_ids(w.views@).map_values(|v: ViewInstanceId| v@));
            },
            None => {},
        }
        let mut fresh: BTreeMap<u128, ViewRuntime<S>> = BTreeMap::new();
        let mut j: usize = 0;
        while j < ids.len()
            invariant
                j <= ids@.len(),
                forall|k: u128| #[trigger] fresh@.contains_key(k) <==> ids@.subrange(0, j as int).contains(k),
                forall|k: u128| #[trigger] old_views@.contains_key(k) <==> (original.contains_key(k) && !ids@.subrange(0, j as int).contains(k)),
                forall|k: u128| #[trigger] old_views@.contains_key(k) ==> old_views@[k] == original[k],
                forall|k: u128| #[trigger] fresh@.contains_key(k) ==> if original.contains_key(k) {
                    fresh@[k] == original[k]
                } else {
                    fresh@[k].scene is None && fresh@[k].computation == ViewComputationState::Loading
                },
            decreases ids@.len() - j,
        {
            let id = ids[j];
            let ghost prefix = ids@.subrange(0, j as int);
            assert(ids@.subrange(0, j + 1) =~= prefix.push(id));
            if !fresh.contains_key(&id) {
                let runtime = match old_views.remove(&id) {
                    Some(runtime) => runtime,
                    None => ViewRuntime::fresh_start(),
                };
                fresh.insert(id, runtime);
            }
            proof {
                let next = ids@.subrange(0, j + 1);
                assert forall|k: u128| next.contains(k) <==> (prefix.contains(k) || k == id) by {
                    if k == id {
                        assert(next[j as int] == id);
                    }
                    if next.contains(k) && k != id {
                        let m = choose|m: int| 0 <= m < next.len() && next[m] == k;
                        assert(prefix[m] == k);
                    }
                    if prefix.contains(k) {
                        let m = choose|m: int| 0 <= m < prefix.len() && prefix[m] == k;
                        assert(next[m] == k);
                    }
                }
                assert forall|k: u128| #[trigger] fresh@.contains_key(k) <==> ids@.subrange(0, j + 1).contains(k) by {
                }
                assert forall|k: u128| #[trigger] old_views@.contains_key(k) <==> (original.contains_key(k) && !ids@.subrange(0, j + 1).contains(k)) by {
                }
            }
            j += 1;
        }
        proof {
            assert(ids@.subrange(0, ids@.len() as int) =~= ids@);
        }
        self.views = fresh;
    }
}

/// Two Aspect Set envelopes hold the same header and the same aspects.
pub open spec fn same_aspect_envelope(a: ResourceEnvelope<AspectSet>, b: ResourceEnvelope<AspectSet>) -> bool {
    &&& a.id == b.id
    &&& a.kind == b.kind
    &&& a.schema_version == b.schema_version
    &&& a.title@ == b.title@
    &&& a.description == b.description
    &&& a.tags@ == b.tags@
    &&& a.revision == b.revision
    &&& a.created_at == b.created_at
    &&& a.modified_at == b.modified_at
    &&& a.payload.aspects@ == b.payload.aspects@
}

/// A copy of an Aspect Set envelope.
pub fn copy_aspect_envelope(e: &ResourceEnvelope<AspectSet>) -> (r: ResourceEnvelope<AspectSet>)
    ensures
        same_aspect_envelope(r, *e),
{
    let tags = e.tags.clone();
    proof {
        assert forall|i: int| 0 <= i < tags@.len() implies tags@[i] == e.tags@[i] by {
            assert(cloned::<String>(e.tags@[i], tags@[i]));
        }
        assert(tags@ =~= e.tags@);
    }
    ResourceEnvelope {
        id: e.id,
        kind: e.kind,
        schema_version: e.schema_version,
        title: e.title.clone(),
        description: match &e.description {
            Some(text) => Some(text.clone()),
            None => None,
        },
        tags,
        revision: e.revision,
        created_at: e.created_at,
        modified_at: e.modified_at,
        payload: e.payload.clone(),
    }
}

/// `i` is the first aspect whose identity has the text `key`.
pub open spec fn is_first_aspect(aspects: Seq<AspectDefinition>, key: Seq<char>, i: int) -> bool {
    &&& 0 <= i < aspects.len()
    &&& aspects[i].id@ == key
    &&& forall|j: int| 0 <= j < i ==> (#[trigger] aspects[j]).id@ != key
}

/// No aspect has an identity with the text `key`.
pub open spec fn lacks_aspect(aspects: Seq<AspectDefinition>, key: Seq<char>) -> bool {
    forall|j: int| 0 <= j < aspects.len() ==> (#[trigger] aspects[j]).id@ != key
}

/// Position of the first aspect with identity text `key`.
pub fn find_aspect(aspects: &Vec<AspectDefinition>, key: &str) -> (r: Option<usize>)
    ensures
        r matches Some(i) ==> is_first_aspect(aspects@, key@, i as int),
        r is None ==> lacks_aspect(aspects@, key@),
{
    let mut i: usize = 0;
    while i < aspects.len()
        invariant
            i <= aspects@.len(),
            forall|j: int| 0 <= j < i ==> (#[trigger] aspects@[j]).id@ != key@,
        decreases aspects@.len() - i,
    {
        if text_equals(aspects[i].id.as_str(), key) {
            return Some(i);
        }
        i += 1;
    }
    None
}

/// The conjunction of an Aspect Set: its first aspect with the identity `conjunction`.
pub fn conjunction(aspects: &AspectSet) -> (r: Result<&AspectDefinition, AppError>)
    ensures
        match r {
            Ok(a) => exists|i: int| is_first_aspect(aspects.aspects@, "conjunction"@, i) && *a == aspects.aspects@[i],
            Err(e) => lacks_aspect(aspects.aspects@, "conjunction"@) && e.kind == AppErrorKind::NotFound
                && e.message@ == "Aspect Set has no conjunction definition"@,
        },
{
    match find_aspect(&aspects.aspects, "conjunction") {
        Some(i) => Ok(&aspects.aspects[i]),
        None => Err(AppError::new(AppErrorKind::NotFound, "Aspect Set has no conjunction definition")),
    }
}

/// An aspect with its maximum orb replaced.
pub open spec fn with_orb(a: AspectDefinition, maximum: crate::units::Angle) -> AspectDefinition {
    AspectDefinition { orbs: OrbPolicy { maximum, ..a.orbs }, ..a }
}

/// An aspect enabled or disabled.
pub open spec fn with_enabled(a: AspectDefinition, enabled: bool) -> AspectDefinition {
    AspectDefinition { enabled, ..a }
}

/// The aspect identity a mutation targets.
pub open spec fn mutation_target(m: AspectSetDraftMutation) -> AspectId {
    match m {
        AspectSetDraftMutation::SetOrb { aspect_id, .. } => aspect_id,
        AspectSetDraftMutation::SetEnabled { aspect_id, .. } => aspect_id,
    }
}

/// An aspect after a mutation.
pub open spec fn mutated(a: AspectDefinition, m: AspectSetDraftMutation) -> AspectDefinition {
    match m {
        AspectSetDraftMutation::SetOrb { maximum, .. } => with_orb(a, maximum),
        AspectSetDraftMutation::SetEnabled { enabled, .. } => with_enabled(a, enabled),
    }
}

/// Message of a mutation naming an aspect the draft lacks.
pub open spec fn missing_aspect_message(id: Seq<char>) -> Seq<char> {
    "Aspect "@ + id + " was not found in the draft"@
}

impl<S> Session<S> {
    /// Only the editor, the notice and the version may differ.
    pub open spec fn same_but_editor(self, other: Self) -> bool {
        &&& other.status == self.status
        &&& other.catalog == self.catalog
        &&& other.workspace_id == self.workspace_id
        &&& other.views == self.views
        &&& other.pending == self.pending
        &&& other.next_timestamp == self.next_timestamp
    }

    /// What `begin_aspect_set_edit` owes.
    pub open spec fn edit_begun(before: Self, after: Self, resource_id: ResourceId, r: Result<(), AppError>) -> bool {
        if before.spec_editor_state() matches Some(DraftState::Saving { .. }) {
            r matches Err(e) && e.kind == AppErrorKind::Unavailable
                && e.message@ == "Wait for the current Aspect Set save to finish"@ && after == before
        } else {
            match before.catalog.spec_current(resource_id@) {
                Some(CanonicalResource::AspectSet(envelope)) => if lacks_aspect(envelope.payload.aspects@, "conjunction"@) {
                    r matches Err(e) && e.kind == AppErrorKind::NotFound
                        && e.message@ == "Aspect Set has no conjunction definition"@ && after == before
                } else {
                    &&& before.same_but_editor(after)
                    &&& after.editor matches Some(editor) && same_aspect_envelope(editor.base, envelope)
                        && editor.draft.aspects@ == envelope.payload.aspects@
                        && editor.state == (DraftState::Clean { revision: envelope.revision })
                    &&& after.notice matches Some(n) && n.kind == AppNoticeKind::Info
                        && n.message@ == "Aspect Set draft opened from the canonical revision"@
                    &&& (r is Ok <==> before.version < u64::MAX)
                    &&& r is Ok ==> after.version == before.version + 1
                    &&& r is Err ==> after.version == before.version
                },
                _ => r matches Err(e) && e.kind == AppErrorKind::NotFound
                    && e.message@ == not_found_message("Aspect Set"@, resource_id) && after == before,
            }
        }
    }

    /// Opens a draft of the current revision of an Aspect Set. Refused while a save is in flight,
    /// for an identity that is not a current Aspect Set, and for an Aspect Set without a
    /// conjunction.
    pub fn begin_aspect_set_edit(&mut self, resource_id: ResourceId) -> (r: Result<(), AppError>)
        ensures
            final(self).wf(),
            Self::edit_begun(*old(self), *final(self), resource_id, r),

    {
        self.hold_wf();
        if self.editor_saving() {
            return Err(AppError::new(AppErrorKind::Unavailable, "Wait for the current Aspect Set save to finish"));
        }
        let (base, draft, revision) = match self.catalog.aspect_set(resource_id) {
            Some(envelope) => {
                match conjunction(&envelope.payload) {
                    Ok(_) => {},
                    Err(error) => return Err(error),
                }
                (copy_aspect_envelope(envelope), envelope.payload.clone(), envelope.revision)
            },
            None => return Err(not_found("Aspect Set", resource_id)),
        };
        proof {
            reveal_strlit("conjunction");
        }
        self.editor = Some(AspectSetEditor { base, draft, state: DraftState::Clean { revision } });
        self.notice = Some(info("Aspect Set draft opened from the canonical revision"));
        self.advance()
    }
}

impl<S> Session<S> {
    /// What `update_aspect_set_draft` owes.
    pub open spec fn draft_updated(before: Self, after: Self, mutation: AspectSetDraftMutation, r: Result<(), AppError>) -> bool {
        match before.editor {
            None => r matches Err(e) && e.kind == AppErrorKind::InvalidIntent
                && e.message@ == "Begin an Aspect Set edit before updating the draft"@ && after == before,
            Some(editor) => if editor.state is Saving {
                r matches Err(e) && e.kind == AppErrorKind::Unavailable
                    && e.message@ == "The Aspect Set draft cannot change while it is saving"@ && after == before
            } else if lacks_aspect(editor.draft.aspects@, mutation_target(mutation)@) {
                r matches Err(e) && e.kind == AppErrorKind::NotFound
                    && e.message@ == missing_aspect_message(mutation_target(mutation)@) && after == before
            } else {
                exists|i: int| #[trigger] is_first_aspect(editor.draft.aspects@, mutation_target(mutation)@, i) && {
                    &&& after.editor matches Some(edited) && edited.base == editor.base
                        && edited.draft.aspects@ == editor.draft.aspects@.update(i, mutated(editor.draft.aspects@[i], mutation))
                        && edited.state == (if editor.state is Conflict {
                            editor.state
                        } else {
                            DraftState::Dirty { base_revision: editor.state.spec_base_revision() }
                        })
                    &&& after.status == before.status
                    &&& after.catalog == before.catalog
                    &&& after.workspace_id == before.workspace_id
                    &&& after.next_timestamp == before.next_timestamp
                    &&& Self::refresh_queued(before, after)
                    &&& after.notice matches Some(n) && n.kind == AppNoticeKind::Info
                        && n.message@ == "Draft preview accepted; analysis is refreshing with the last good Scene retained"@
                    &&& (r is Ok <==> before.version < u64::MAX)
                    &&& r is Ok ==> after.version == before.version + 1
                    &&& r is Err ==> after.version == before.version
                }
            },
        }
    }

    /// Applies a mutation to the open draft and refreshes the active view with it; a clean draft
    /// becomes dirty and a conflicted one stays conflicted.
    pub fn update_aspect_set_draft(&mut self, mutation: AspectSetDraftMutation) -> (r: Result<(), AppError>)
        ensures
            final(self).wf(),
            Self::draft_updated(*old(self), *final(self), mutation, r),

    {
        self.hold_wf();
        let mut slot: Option<AspectSetEditor> = None;
        core::mem::swap(&mut slot, &mut self.editor);
        let mut editor = match slot {
            Some(editor) => editor,
            None => return Err(AppError::new(AppErrorKind::InvalidIntent, "Begin an Aspect Set edit before updating the draft")),
        };
        match editor.state {
            DraftState::Saving { .. } => {
                self.editor = Some(editor);
                return Err(AppError::new(AppErrorKind::Unavailable, "The Aspect Set draft cannot change while it is saving"));
            },
            _ => {},
        }
        let base_revision = editor.state.base_revision();
        let target = match &mutation {
            AspectSetDraftMutation::SetOrb { aspect_id, .. } => aspect_id,
            AspectSetDraftMutation::SetEnabled { aspect_id, .. } => aspect_id,
        };
        let index = match find_aspect(&editor.draft.aspects, target.as_str()) {
            Some(index) => index,
            None => {
                let mut message = "Aspect ".to_owned();
                message.append(target.as_str());
                message.append(" was not found in the draft");
                self.editor = Some(editor);
                return Err(AppError { kind: AppErrorKind::NotFound, message });
            },
        };
        let ghost found = index as int;
        let current = editor.draft.aspects[index].clone();
        let changed = match mutation {
            AspectSetDraftMutation::SetOrb { maximum, .. } => AspectDefinition {
                orbs: OrbPolicy { maximum, applying_multiplier: current.orbs.applying_multiplier },
                ..current
            },
            AspectSetDraftMutation::SetEnabled { enabled, .. } => AspectDefinition { enabled, ..current },
        };
        editor.draft.aspects.set(index, changed);
        match editor.state {
            DraftState::Conflict { .. } => {},
            _ => {
                editor.state = DraftState::Dirty { base_revision };
            },
        }
        self.editor = Some(editor);
        self.queue_active_view_refresh();
        self.notice = Some(info("Draft preview accepted; analysis is refreshing with the last good Scene retained"));
        let r = self.advance();
        proof {
            assert(is_first_aspect(old(self).editor->0.draft.aspects@, mutation_target(mutation)@, found));
        }
        r
    }
}

/// `next` is the revision a save of `draft` over `base` writes at time `at`.
pub open spec fn saved_revision_of(
    next: ResourceEnvelope<AspectSet>,
    base: ResourceEnvelope<AspectSet>,
    draft: AspectSet,
    at: i64,
) -> bool {
    &&& next.id == base.id
    &&& next.kind == base.kind
    &&& next.schema_version == base.schema_version
    &&& next.title@ == base.title@
    &&& next.description == base.description
    &&& next.tags@.map_values(|t: String| t@) == base.tags@.map_values(|t: String| t@)
    &&& next.revision@ == base.revision@ + 1
    &&& next.created_at == base.created_at
    &&& next.modified_at@ == at
    &&& next.payload.aspects@ == draft.aspects@
}

/// `pending` without any save of the resource `id`, order kept.
pub open spec fn without_saves_of(pending: Seq<PendingWork>, id: ResourceId) -> Seq<PendingWork>
    decreases pending.len(),
{
    if pending.len() == 0 {
        pending
    } else {
        let rest = without_saves_of(pending.drop_last(), id);
        if pending.last() matches PendingWork::SaveAspectSet { next, .. } && next.id == id {
            rest
        } else {
            rest.push(pending.last())
        }
    }
}

/// How the repository answered a read of the remote head after a conflicting save.
#[derive(Debug)]
pub enum RemoteAspectSet {
    Found(ResourceEnvelope<AspectSet>),
    OtherKind(ResourceKind),
    Missing,
    ReadFailed(String),
}

/// How the repository answered a save of an Aspect Set revision.
#[derive(Debug)]
pub enum SaveOutcome {
    Saved,
    Conflict { actual: Revision, remote: RemoteAspectSet },
    Failed(String),
}

/// The name `Debug` gives a resource kind.
pub open spec fn kind_name(kind: ResourceKind) -> Seq<char> {
    match kind {
        ResourceKind::ChartRecord => "ChartRecord"@,
        ResourceKind::ChartDefinition => "ChartDefinition"@,
        ResourceKind::PointSet => "PointSet"@,
        ResourceKind::AspectSet => "AspectSet"@,
        ResourceKind::CalculationProfile => "CalculationProfile"@,
        ResourceKind::AnalysisProfile => "AnalysisProfile"@,
        ResourceKind::WheelTemplate => "WheelTemplate"@,
        ResourceKind::ViewDocument => "ViewDocument"@,
        ResourceKind::Theme => "Theme"@,
        ResourceKind::RulershipScheme => "RulershipScheme"@,
        ResourceKind::DignityScheme => "DignityScheme"@,
        ResourceKind::ArabicPartsSet => "ArabicPartsSet"@,
        ResourceKind::FixedStarSet => "FixedStarSet"@,
        ResourceKind::QueryDefinition => "QueryDefinition"@,
        ResourceKind::Workspace => "Workspace"@,
    }
}

pub fn kind_text(kind: ResourceKind) -> (r: &'static str)
    ensures
        r@ == kind_name(kind),
{
    match kind {
        ResourceKind::ChartRecord => "ChartRecord",
        ResourceKind::ChartDefinition => "ChartDefinition",
        ResourceKind::PointSet => "PointSet",
        ResourceKind::AspectSet => "AspectSet",
        ResourceKind::CalculationProfile => "CalculationProfile",
        ResourceKind::AnalysisProfile => "AnalysisProfile",
        ResourceKind::WheelTemplate => "WheelTemplate",
        ResourceKind::ViewDocument => "ViewDocument",
        ResourceKind::Theme => "Theme",
        ResourceKind::RulershipScheme => "RulershipScheme",
        ResourceKind::DignityScheme => "DignityScheme",
        ResourceKind::ArabicPartsSet => "ArabicPartsSet",
        ResourceKind::FixedStarSet => "FixedStarSet",
        ResourceKind::QueryDefinition => "QueryDefinition",
        ResourceKind::Workspace => "Workspace",
    }
}

/// The editor after a failed save of `id` based on `base_revision`: a draft of that resource is
/// dirty again; any other editor is kept.
pub open spec fn restored_editor(editor: Option<AspectSetEditor>, id: ResourceId, base_revision: Revision) -> Option<AspectSetEditor> {
    match editor {
        Some(e) => if e.base.id == id {
            Some(AspectSetEditor { state: DraftState::Dirty { base_revision }, ..e })
        } else {
            Some(e)
        },
        None => None,
    }
}

impl<S> Session<S> {
    /// What `begin_save_draft` owes.
    pub open spec fn save_begun(before: Self, after: Self, r: Result<(), AppError>) -> bool {
        match before.editor {
            None => r matches Err(e) && e.kind == AppErrorKind::InvalidIntent
                && e.message@ == "There is no Aspect Set draft to save"@ && after == before,
            Some(editor) => match editor.state {
                DraftState::Dirty { base_revision } => if editor.base.revision@ < u64::MAX {
                    &&& after.editor matches Some(edited) && edited.base == editor.base
                        && edited.draft == editor.draft
                        && edited.state == (DraftState::Saving { base_revision })
                    &&& after.pending@.len() == before.pending@.len() + 1
                    &&& after.pending@.drop_last() == before.pending@
                    &&& after.pending@.last() matches PendingWork::SaveAspectSet { expected_revision, next }
                        && expected_revision == base_revision
                        && saved_revision_of(next, editor.base, editor.draft, before.next_timestamp)
                    &&& after.status == before.status
                    &&& after.catalog == before.catalog
                    &&& after.workspace_id == before.workspace_id
                    &&& after.views == before.views
                    &&& after.next_timestamp == before.next_timestamp
                    &&& after.notice matches Some(n) && n.kind == AppNoticeKind::Info
                        && n.message@ == "Saving the Aspect Set draft with optimistic revision checks"@
                    &&& (r is Ok <==> before.version < u64::MAX)
                    &&& r is Ok ==> after.version == before.version + 1
                    &&& r is Err ==> after.version == before.version
                } else {
                    r matches Err(e) && e.kind == AppErrorKind::InvalidIntent
                        && e.message@ == "Aspect Set draft was invalid: revision overflow"@ && after == before
                },
                _ => r matches Err(e) && e.kind == AppErrorKind::InvalidIntent
                    && e.message@ == "Only a dirty Aspect Set draft can be saved"@ && after == before,
            },
        }
    }

    /// Starts saving a dirty draft: its next revision is queued with the base revision as the
    /// expected one, and the draft is saving until the repository answers.
    pub fn begin_save_draft(&mut self) -> (r: Result<(), AppError>)
        ensures
            final(self).wf(),
            Self::save_begun(*old(self), *final(self), r),

    {
        self.hold_wf();
        let timestamp = self.next_timestamp;
        let mut slot: Option<AspectSetEditor> = None;
        core::mem::swap(&mut slot, &mut self.editor);
        let mut editor = match slot {
            Some(editor) => editor,
            None => return Err(AppError::new(AppErrorKind::InvalidIntent, "There is no Aspect Set draft to save")),
        };
        let base_revision = match editor.state {
            DraftState::Dirty { base_revision } => base_revision,
            _ => {
                self.editor = Some(editor);
                return Err(AppError::new(AppErrorKind::InvalidIntent, "Only a dirty Aspect Set draft can be saved"));
            },
        };
        let next = match editor.base.next_with_payload(editor.draft.clone(), Timestamp::from_unix_millis(timestamp)) {
            Ok(next) => next,
            Err(_) => {
                self.editor = Some(editor);
                return Err(AppError::new(AppErrorKind::InvalidIntent, "Aspect Set draft was invalid: revision overflow"));
            },
        };
        editor.state = DraftState::Saving { base_revision };
        self.editor = Some(editor);
        self.pending.push_back(PendingWork::SaveAspectSet { expected_revision: base_revision, next });
        assert(self.pending@.drop_last() =~= old(self).pending@);
        self.notice = Some(info("Saving the Aspect Set draft with optimistic revision checks"));
        self.advance()
    }

    fn drop_saves_of(&mut self, id: ResourceId)
        ensures
            final(self).pending@ == without_saves_of(old(self).pending@, id),
            final(self).version == old(self).version,
            final(self).status == old(self).status,
            final(self).catalog == old(self).catalog,
            final(self).workspace_id == old(self).workspace_id,
            final(self).views == old(self).views,
            final(self).editor == old(self).editor,
            final(self).notice == old(self).notice,
            final(self).next_timestamp == old(self).next_timestamp,
    {
        let mut old_pending: VecDeque<PendingWork> = VecDeque::new();
        core::mem::swap(&mut old_pending, &mut self.pending);
        let ghost original = old_pending@;
        let mut kept: VecDeque<PendingWork> = VecDeque::new();
        let ghost mut consumed: Seq<PendingWork> = Seq::empty();
        while old_pending.len() > 0
            invariant
                original == consumed + old_pending@,
                kept@ == without_saves_of(consumed, id),
            decreases old_pending@.len(),
        {
            let work = old_pending.pop_front().unwrap();
            let drop = match &work {
                PendingWork::SaveAspectSet { next, .. } => next.id == id,
                PendingWork::ComputeView { .. } => false,
            };
            let ghost before = consumed;
            proof {
                consumed = consumed.push(work);
                assert(consumed.drop_last() =~= before);
                assert(original =~= consumed + old_pending@);
            }
            if !drop {
                kept.push_back(work);
            }
        }
        proof {
            assert(consumed =~= original);
        }
        self.pending = kept;
    }

    /// What `cancel_draft` owes.
    pub open spec fn draft_canceled(before: Self, after: Self, r: Result<(), AppError>) -> bool {
        if before.spec_editor_state() matches Some(DraftState::Saving { .. }) {
            r matches Err(e) && e.kind == AppErrorKind::Unavailable
                && e.message@ == "Wait for the Aspect Set save to finish before canceling"@ && after == before
        } else {
            match before.editor {
                None => r matches Err(e) && e.kind == AppErrorKind::InvalidIntent
                    && e.message@ == "There is no draft to cancel"@ && after == before,
                Some(editor) => match before.catalog.spec_current(editor.base.id@) {
                    Some(CanonicalResource::AspectSet(canonical)) => {
                        &&& after.editor matches Some(edited) && same_aspect_envelope(edited.base, canonical)
                            && edited.draft.aspects@ == canonical.payload.aspects@
                            && edited.state == (DraftState::Clean { revision: canonical.revision })
                        &&& after.status == before.status
                        &&& after.catalog == before.catalog
                        &&& after.workspace_id == before.workspace_id
                        &&& after.next_timestamp == before.next_timestamp
                        &&& Self::views_refreshed(before, after)
                        &&& match before.spec_active_view() {
                            None => after.pending@ == without_saves_of(before.pending@, editor.base.id),
                            Some(v) => after.pending@ == seq![PendingWork::ComputeView { view_id: v }]
                                + without_view_work(without_saves_of(before.pending@, editor.base.id), v),
                        }
                        &&& after.notice matches Some(n) && n.kind == AppNoticeKind::Info
                            && n.message@ == "Draft canceled; canonical Aspect Set semantics restored without a repository write"@
                        &&& (r is Ok <==> before.version < u64::MAX)
                        &&& r is Ok ==> after.version == before.version + 1
                        &&& r is Err ==> after.version == before.version
                    },
                    _ => r matches Err(e) && e.kind == AppErrorKind::NotFound
                        && e.message@ == not_found_message("Aspect Set"@, editor.base.id) && after == before,
                },
            }
        }
    }

    /// Discards the draft: the editor returns to the canonical revision, any save of that resource
    /// still queued is dropped, and the active view refreshes. Nothing is written.
    pub fn cancel_draft(&mut self) -> (r: Result<(), AppError>)
        ensures
            final(self).wf(),
            Self::draft_canceled(*old(self), *final(self), r),

    {
        self.hold_wf();
        if self.editor_saving() {
            return Err(AppError::new(AppErrorKind::Unavailable, "Wait for the Aspect Set save to finish before canceling"));
        }
        let resource_id = match &self.editor {
            Some(editor) => editor.base.id,
            None => return Err(AppError::new(AppErrorKind::InvalidIntent, "There is no draft to cancel")),
        };
        let (base, draft, revision) = match self.catalog.aspect_set(resource_id) {
            Some(canonical) => (copy_aspect_envelope(canonical), canonical.payload.clone(), canonical.revision),
            None => return Err(not_found("Aspect Set", resource_id)),
        };
        self.editor = Some(AspectSetEditor { base, draft, state: DraftState::Clean { revision } });
        self.drop_saves_of(resource_id);
        let ghost middle = *self;
        self.queue_active_view_refresh();
        proof {
            assert(middle.spec_active_view() == old(self).spec_active_view());
        }
        self.notice = Some(info("Draft canceled; canonical Aspect Set semantics restored without a repository write"));
        self.advance()
    }
}

/// Message of a save outcome naming a revision: `prefix`, the revision in decimal, `suffix`.
pub open spec fn revision_message(prefix: Seq<char>, revision: Revision, suffix: Seq<char>) -> Seq<char> {
    prefix + decimal_text(revision@ as int) + suffix
}

fn revision_text(prefix: &str, revision: Revision, suffix: &str) -> (r: String)
    ensures
        r@ == revision_message(prefix@, revision, suffix@),
{
    let digits = format_decimal(revision.get());
    concat3(prefix, digits.as_str(), suffix)
}

impl<S> Session<S> {
    /// What `refresh_active_view` owes.
    pub open spec fn refresh_requested(before: Self, after: Self, r: Result<(), AppError>) -> bool {
        match before.spec_active_view() {
            None => r matches Err(e) && e.kind == AppErrorKind::Unavailable
                && e.message@ == "There is no active view to refresh"@ && after == before,
            Some(v) => if !before.views@.contains_key(v@) {
                r matches Err(e) && e.kind == AppErrorKind::NotFound
                    && e.message@ == "Active view "@ + uuid_text(v@) + " was not found"@ && after == before
            } else if before.views@[v@].computation is Loading || before.views@[v@].computation is Refreshing {
                r matches Err(e) && e.kind == AppErrorKind::Unavailable
                    && e.message@ == "The active view is already computing"@ && after == before
            } else {
                &&& Self::refresh_queued(before, after)
                &&& after.status == before.status
                &&& after.catalog == before.catalog
                &&& after.workspace_id == before.workspace_id
                &&& after.editor == before.editor
                &&& after.next_timestamp == before.next_timestamp
                &&& after.notice matches Some(n) && n.kind == AppNoticeKind::Info
                    && n.message@ == "Active view refresh requested"@
                &&& (r is Ok <==> before.version < u64::MAX)
                &&& r is Ok ==> after.version == before.version + 1
                &&& r is Err ==> after.version == before.version
            },
        }
    }

    /// Requests a new computation of the active view; refused without an active view, for a view
    /// without a runtime, and while the view is already computing.
    pub fn refresh_active_view(&mut self) -> (r: Result<(), AppError>)
        ensures
            final(self).wf(),
            Self::refresh_requested(*old(self), *final(self), r),

    {
        self.hold_wf();
        let view_id = match self.active_view() {
            Some(v) => v,
            None => return Err(AppError::new(AppErrorKind::Unavailable, "There is no active view to refresh")),
        };
        match self.views.get(&view_id.0) {
            None => {
                let id_text = view_id.to_string();
                let message = concat3("Active view ", id_text.as_str(), " was not found");
                return Err(AppError { kind: AppErrorKind::NotFound, message });
            },
            Some(runtime) => match runtime.computation {
                ViewComputationState::Loading => return Err(AppError::new(AppErrorKind::Unavailable, "The active view is already computing")),
                ViewComputationState::Refreshing => return Err(AppError::new(AppErrorKind::Unavailable, "The active view is already computing")),
                _ => {},
            },
        }
        self.queue_active_view_refresh();
        self.notice = Some(info("Active view refresh requested"));
        self.advance()
    }

    /// What recording the result of a view's computation does to the view runtimes and the
    /// notice: a scene becomes the view's fresh scene; a failure keeps the last good scene and is
    /// reported.
    pub open spec fn view_completed(before: Self, after: Self, view_id: ViewInstanceId, result: Result<S, AppError>) -> bool {
        &&& after.views@.dom() == before.views@.dom().insert(view_id@)
        &&& forall|k: u128| k != view_id@ && #[trigger] before.views@.contains_key(k) ==> after.views@[k] == before.views@[k]
        &&& match result {
            Ok(scene) => {
                &&& after.views@[view_id@].scene == Some(scene)
                &&& after.views@[view_id@].computation == ViewComputationState::Fresh
                &&& after.notice matches Some(n) && n.kind == AppNoticeKind::Success
                    && n.message@ == "View computation completed"@
            },
            Err(error) => {
                &&& after.views@[view_id@].scene == (if before.views@.contains_key(view_id@) {
                    before.views@[view_id@].scene
                } else {
                    None
                })
                &&& after.views@[view_id@].computation == ViewComputationState::Failed(error)
                &&& after.notice matches Some(n) && n.kind == AppNoticeKind::Warning
                    && n.message@ == "View computation failed; the last good Scene remains visible: "@ + error.message@
            },
        }
    }

    /// Records the result of computing a view: a scene becomes the view's fresh scene; a failure
    /// keeps the last good scene and is reported.
    pub fn complete_view(&mut self, view_id: ViewInstanceId, result: Result<S, AppError>) -> (r: Result<(), AppError>)
        ensures
            final(self).wf(),
            Self::view_completed(*old(self), *final(self), view_id, result),
            final(self).status == old(self).status,
            final(self).catalog == old(self).catalog,
            final(self).workspace_id == old(self).workspace_id,
            final(self).editor == old(self).editor,
            final(self).pending == old(self).pending,
            final(self).next_timestamp == old(self).next_timestamp,
            r is Ok <==> old(self).version < u64::MAX,
            r is Ok ==> final(self).version == old(self).version + 1,
            r is Err ==> final(self).version == old(self).version,
    {
        self.hold_wf();
        let mut runtime = match self.views.remove(&view_id.0) {
            Some(runtime) => runtime,
            None => ViewRuntime::fresh_start(),
        };
        match result {
            Ok(scene) => {
                runtime.scene = Some(scene);
                runtime.computation = ViewComputationState::Fresh;
                self.notice = Some(success("View computation completed"));
            },
            Err(error) => {
                let mut message = "View computation failed; the last good Scene remains visible: ".to_owned();
                message.append(error.message.as_str());
                runtime.computation = ViewComputationState::Failed(error);
                self.notice = Some(AppNotice { kind: AppNoticeKind::Warning, message });
            },
        }
        self.views.insert(view_id.0, runtime);
        proof {
            assert(self.views@.dom() =~= old(self).views@.dom().insert(view_id@));
        }
        self.advance()
    }

    fn restore_dirty_editor(&mut self, resource_id: ResourceId, base_revision: Revision)
        ensures
            final(self).editor == restored_editor(old(self).editor, resource_id, base_revision),
            final(self).version == old(self).version,
            final(self).status == old(self).status,
            final(self).catalog == old(self).catalog,
            final(self).workspace_id == old(self).workspace_id,
            final(self).views == old(self).views,
            final(self).pending == old(self).pending,
            final(self).notice == old(self).notice,
            final(self).next_timestamp == old(self).next_timestamp,
    {
        let mut slot: Option<AspectSetEditor> = None;
        core::mem::swap(&mut slot, &mut self.editor);
        match slot {
            Some(mut editor) => {
                if editor.base.id == resource_id {
                    editor.state = DraftState::Dirty { base_revision };
                }
                self.editor = Some(editor);
            },
            None => {},
        }
    }

    /// What settling a save with the repository's answer owes.
    pub open spec fn save_settled(before: Self, after: Self, expected_revision: Revision, next: ResourceEnvelope<AspectSet>, outcome: SaveOutcome, r: Result<(), AppError>) -> bool {
        &&& after.status == before.status
        &&& after.workspace_id == before.workspace_id
        &&& after.views == before.views
        &&& after.pending == before.pending
        &&& r is Ok <==> before.version < u64::MAX
        &&& r is Ok ==> after.version == before.version + 1
        &&& r is Err ==> after.version == before.version
        &&& match outcome {
            SaveOutcome::Saved => {
                &&& after.catalog.spec_history() == before.catalog.spec_history().insert(
                    (next.id@, next.revision@), CanonicalResource::AspectSet(next))
                &&& after.catalog.spec_heads() == before.catalog.spec_heads().insert(next.id@, next.revision@)
                &&& after.next_timestamp == (if before.next_timestamp < i64::MAX { before.next_timestamp + 1 } else { i64::MAX as int })
                &&& match before.editor {
                    Some(editor) => if editor.base.id == next.id {
                        &&& after.editor matches Some(edited) && same_aspect_envelope(edited.base, next)
                            && edited.draft.aspects@ == next.payload.aspects@
                            && edited.state == (DraftState::Clean { revision: next.revision })
                        &&& after.notice matches Some(n) && n.kind == AppNoticeKind::Success
                            && n.message@ == revision_message("Aspect Set saved as canonical revision "@, next.revision, ""@)
                    } else {
                        &&& after.editor == before.editor
                        &&& after.notice matches Some(n) && n.kind == AppNoticeKind::Warning
                            && n.message@ == revision_message("Aspect Set revision "@, next.revision, " was saved, but its editor was no longer open"@)
                    },
                    None => {
                        &&& after.editor == before.editor
                        &&& after.notice matches Some(n) && n.kind == AppNoticeKind::Warning
                            && n.message@ == revision_message("Aspect Set revision "@, next.revision, " was saved, but its editor was no longer open"@)
                    },
                }
            },
            SaveOutcome::Conflict { actual, remote: RemoteAspectSet::Found(remote) } => {
                &&& after.catalog.spec_history() == before.catalog.spec_history().insert(
                    (remote.id@, remote.revision@), CanonicalResource::AspectSet(remote))
                &&& after.catalog.spec_heads() == before.catalog.spec_heads().insert(remote.id@, remote.revision@)
                &&& after.next_timestamp == before.next_timestamp
                &&& after.editor == match before.editor {
                    Some(e) => if e.base.id == next.id {
                        Some(AspectSetEditor { state: DraftState::Conflict { base_revision: expected_revision, remote_revision: actual }, ..e })
                    } else {
                        Some(e)
                    },
                    None => None,
                }
                &&& after.notice matches Some(n) && n.kind == AppNoticeKind::Conflict
                    && n.message@ == revision_message("Aspect Set save conflict: draft revision "@, expected_revision, ""@)
                        + revision_message(", remote revision "@, actual, "; the local draft was retained"@)
            },
            SaveOutcome::Conflict { remote, .. } => {
                &&& after.catalog == before.catalog
                &&& after.next_timestamp == before.next_timestamp
                &&& after.editor == restored_editor(before.editor, next.id, expected_revision)
                &&& after.notice matches Some(n) && n.kind == AppNoticeKind::Warning
                    && n.message@ == conflict_refresh_message(match remote {
                        RemoteAspectSet::OtherKind(kind) => "resource "@ + uuid_text(next.id@) + " was "@ + kind_name(kind) + ", not an AspectSet"@,
                        RemoteAspectSet::Missing => "resource "@ + uuid_text(next.id@) + " was not found"@,
                        RemoteAspectSet::ReadFailed(message) => message@,
                        RemoteAspectSet::Found(_) => Seq::empty(),
                    })
            },
            SaveOutcome::Failed(message) => {
                &&& after.catalog == before.catalog
                &&& after.next_timestamp == before.next_timestamp
                &&& after.editor == restored_editor(before.editor, next.id, expected_revision)
                &&& after.notice matches Some(n) && n.kind == AppNoticeKind::Warning
                    && n.message@ == "Aspect Set save failed; the draft was retained: "@ + message@
            },
        }
    }

    /// Settles a queued save with the repository's answer. A saved revision becomes canonical and
    /// the draft clean; on a conflict whose remote head could be read, the remote revision becomes
    /// canonical and the draft is kept in conflict; on any other failure the draft is kept dirty.
    pub fn complete_aspect_set_save(
        &mut self,
        expected_revision: Revision,
        next: ResourceEnvelope<AspectSet>,
        outcome: SaveOutcome,
    ) -> (r: Result<(), AppError>)
        ensures
            final(self).wf(),
            Self::save_settled(*old(self), *final(self), expected_revision, next, outcome, r),

    {
        self.hold_wf();
        let resource_id = next.id;
        match outcome {
            SaveOutcome::Saved => {
                if self.next_timestamp < i64::MAX {
                    self.next_timestamp = self.next_timestamp + 1;
                }
                let editor_open = match &self.editor {
                    Some(editor) => editor.base.id == resource_id,
                    None => false,
                };
                if editor_open {
                    let base = copy_aspect_envelope(&next);
                    let draft = next.payload.clone();
                    let revision = next.revision;
                    self.editor = Some(AspectSetEditor { base, draft, state: DraftState::Clean { revision } });
                    self.notice = Some(AppNotice {
                        kind: AppNoticeKind::Success,
                        message: revision_text("Aspect Set saved as canonical revision ", revision, ""),
                    });
                } else {
                    self.notice = Some(AppNotice {
                        kind: AppNoticeKind::Warning,
                        message: revision_text("Aspect Set revision ", next.revision, " was saved, but its editor was no longer open"),
                    });
                }
                self.catalog.insert_current(CanonicalResource::AspectSet(next));
            },
            SaveOutcome::Conflict { actual, remote } => match remote {
                RemoteAspectSet::Found(remote) => {
                    self.catalog.insert_current(CanonicalResource::AspectSet(remote));
                    let mut slot: Option<AspectSetEditor> = None;
                    core::mem::swap(&mut slot, &mut self.editor);
                    match slot {
                        Some(mut editor) => {
                            if editor.base.id == resource_id {
                                editor.state = DraftState::Conflict { base_revision: expected_revision, remote_revision: actual };
                            }
                            self.editor = Some(editor);
                        },
                        None => {},
                    }
                    let mut message = revision_text("Aspect Set save conflict: draft revision ", expected_revision, "");
                    let tail = revision_text(", remote revision ", actual, "; the local draft was retained");
                    message.append(tail.as_str());
                    self.notice = Some(AppNotice { kind: AppNoticeKind::Conflict, message });
                },
                RemoteAspectSet::OtherKind(kind) => {
                    self.restore_dirty_editor(resource_id, expected_revision);
                    let id_text = resource_id.to_string();
                    let mut detail = concat3("resource ", id_text.as_str(), " was ");
                    detail.append(kind_text(kind));
                    detail.append(", not an AspectSet");
                    self.notice = Some(conflict_refresh_warning(detail.as_str()));
                },
                RemoteAspectSet::Missing => {
                    self.restore_dirty_editor(resource_id, expected_revision);
                    let id_text = resource_id.to_string();
                    let detail = concat3("resource ", id_text.as_str(), " was not found");
                    self.notice = Some(conflict_refresh_warning(detail.as_str()));
                },
                RemoteAspectSet::ReadFailed(message) => {
                    self.restore_dirty_editor(resource_id, expected_revision);
                    self.notice = Some(conflict_refresh_warning(message.as_str()));
                },
            },
            SaveOutcome::Failed(message) => {
                self.restore_dirty_editor(resource_id, expected_revision);
                let mut text = "Aspect Set save failed; the draft was retained: ".to_owned();
                text.append(message.as_str());
                self.notice = Some(AppNotice { kind: AppNoticeKind::Warning, message: text });
            },
        }
        self.advance()
    }
}

} // verus!
