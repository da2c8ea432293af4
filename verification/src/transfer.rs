//! The transfer of one demo from the source backend to the target backend.
//!
//! A transfer is a small state machine. At each stage it names one action
//! for its driver: look whether a file is there, download, copy, digest,
//! update the catalog, remove a file. The driver performs the action and
//! hands back what came of it; the transfer then moves to its next stage.
//!
//! The order is: place the file at the target, digest it there, repoint the
//! catalog, remove the source. The target is removed again only where the
//! catalog refused the update, so that the catalog never points at a backend
//! that lacks the file.

use crate::catalog::{Demo, DemoView};
use crate::config::StorageRoot;
use crate::digest::same_digest;
use crate::error::{Error, ErrorView};
use crate::path::{is_shardable, shardable, sharded_path};
use vstd::prelude::*;
use vstd::string::*;

verus! {

/// How long a download may take, in seconds.
pub const DOWNLOAD_TIMEOUT_SECS: u64 = 300;

/// Where a transfer stands. Each stage but the last waits for the outcome of
/// one action.
#[derive(Debug, PartialEq, Eq)]
pub enum Stage {
    /// Is the source a file?
    SourceCheck,
    /// The source is missing: the demo is downloaded to the target.
    Redownload,
    /// Is the target a file already?
    TargetCheck,
    /// The source is copied to the target.
    Copy,
    /// The file at the target is digested.
    Verify,
    /// The catalog is told of the new place, with the digest just computed.
    Update { digest: [u8; 16] },
    /// The catalog refused: the target is removed again.
    Rollback { cause: String },
    /// The catalog points at the target: the source is removed.
    Cleanup,
    /// Nothing is left to do.
    Finished { result: Result<(), Error> },
}

/// The end of a transfer with the error, where there is one, as its view.
pub open spec fn result_view(result: Result<(), Error>) -> Result<(), ErrorView> {
    match result {
        Ok(_) => Ok(()),
        Err(error) => Err(error@),
    }
}

/// A [`Stage`] with its digest and texts as sequences.
pub enum StageView {
    SourceCheck,
    Redownload,
    TargetCheck,
    Copy,
    Verify,
    Update { digest: Seq<u8> },
    Rollback { cause: Seq<char> },
    Cleanup,
    Finished { result: Result<(), ErrorView> },
}

impl View for Stage {
    type V = StageView;

    open spec fn view(&self) -> StageView {
        match self {
            Stage::SourceCheck => StageView::SourceCheck,
            Stage::Redownload => StageView::Redownload,
            Stage::TargetCheck => StageView::TargetCheck,
            Stage::Copy => StageView::Copy,
            Stage::Verify => StageView::Verify,
            Stage::Update { digest } => StageView::Update { digest: digest@ },
            Stage::Rollback { cause } => StageView::Rollback { cause: cause@ },
            Stage::Cleanup => StageView::Cleanup,
            Stage::Finished { result } => StageView::Finished { result: result_view(*result) },
        }
    }
}

/// What came of the action that a transfer asked for.
#[derive(Debug, PartialEq, Eq)]
pub enum Event {
    /// The file looked for is there, or is not.
    Found(bool),
    /// The action was carried out.
    Done,
    /// The digest of the file's content.
    Digest([u8; 16]),
    /// The action took longer than it may.
    TimedOut,
    /// The catalog refused or could not be reached.
    ApiFailed(String),
    /// Reading, writing or deleting a file failed.
    IoFailed(String),
}

/// An [`Event`] with its digest and texts as sequences.
pub enum EventView {
    Found(bool),
    Done,
    Digest(Seq<u8>),
    TimedOut,
    ApiFailed(Seq<char>),
    IoFailed(Seq<char>),
}

impl View for Event {
    type V = EventView;

    open spec fn view(&self) -> EventView {
        match self {
            Event::Found(found) => EventView::Found(*found),
            Event::Done => EventView::Done,
            Event::Digest(digest) => EventView::Digest(digest@),
            Event::TimedOut => EventView::TimedOut,
            Event::ApiFailed(error) => EventView::ApiFailed(error@),
            Event::IoFailed(error) => EventView::IoFailed(error@),
        }
    }
}

/// What a transfer asks its driver to do.
#[derive(Debug, PartialEq, Eq)]
pub enum Action {
    /// Tell whether the source is a file.
    ProbeSource { path: String },
    /// Download the demo within `timeout_secs`, then write it to `target`,
    /// making the directories above it. Nothing is written unless the
    /// download was whole.
    Download { id: u32, target: String, capacity: usize, timeout_secs: u64 },
    /// Tell whether the target is a file.
    ProbeTarget { path: String },
    /// Make the directories above `target` and copy `source` to it.
    Copy { source: String, target: String },
    /// Digest the file at `path`.
    Digest { path: String },
    /// Point the catalog's record of the demo at `backend`.
    Update { id: u32, backend: String, path: String, url: String, digest: [u8; 16] },
    /// Remove the file at the target.
    RemoveTarget { path: String },
    /// Remove the file at the source.
    RemoveSource { path: String },
}

impl Clone for Event {
    /// The same event once more.
    fn clone(&self) -> (event: Event)
        ensures
            event@ == self@,
    {
        match self {
            Event::Found(found) => Event::Found(*found),
            Event::Done => Event::Done,
            Event::Digest(digest) => Event::Digest(*digest),
            Event::TimedOut => Event::TimedOut,
            Event::ApiFailed(error) => Event::ApiFailed(error.clone()),
            Event::IoFailed(error) => Event::IoFailed(error.clone()),
        }
    }
}

/// An [`Action`] with its digest and texts as sequences.
pub enum ActionView {
    ProbeSource { path: Seq<char> },
    Download { id: u32, target: Seq<char>, capacity: usize, timeout_secs: u64 },
    ProbeTarget { path: Seq<char> },
    Copy { source: Seq<char>, target: Seq<char> },
    Digest { path: Seq<char> },
    Update { id: u32, backend: Seq<char>, path: Seq<char>, url: Seq<char>, digest: Seq<u8> },
    RemoveTarget { path: Seq<char> },
    RemoveSource { path: Seq<char> },
}

impl View for Action {
    type V = ActionView;

    open spec fn view(&self) -> ActionView {
        match self {
            Action::ProbeSource { path } => ActionView::ProbeSource { path: path@ },
            Action::Download { id, target, capacity, timeout_secs } => ActionView::Download {
                id: *id,
                target: target@,
                capacity: *capacity,
                timeout_secs: *timeout_secs,
            },
            Action::ProbeTarget { path } => ActionView::ProbeTarget { path: path@ },
            Action::Copy { source, target } => ActionView::Copy {
                source: source@,
                target: target@,
            },
            Action::Digest { path } => ActionView::Digest { path: path@ },
            Action::Update { id, backend, path, url, digest } => ActionView::Update {
                id: *id,
                backend: backend@,
                path: path@,
                url: url@,
                digest: digest@,
            },
            Action::RemoveTarget { path } => ActionView::RemoveTarget { path: path@ },
            Action::RemoveSource { path } => ActionView::RemoveSource { path: path@ },
        }
    }
}

/// What the driver should put in the log after a step.
#[derive(Debug, PartialEq, Eq)]
pub enum Notice {
    /// Nothing worth a line.
    Nothing,
    /// A warning: the source is missing, the demo is downloaded again.
    SourceMissing,
    /// A warning: the target is there already and is left as it is.
    TargetExists,
    /// A warning: the file's digest is not the recorded one.
    DigestMismatch { calculated: [u8; 16], stored: [u8; 16] },
    /// An error: the catalog refused the update.
    UpdateFailed { error: String },
}

impl Clone for Action {
    /// The same action once more.
    fn clone(&self) -> (action: Action)
        ensures
            action@ == self@,
    {
        match self {
            Action::ProbeSource { path } => Action::ProbeSource { path: path.clone() },
            Action::Download { id, target, capacity, timeout_secs } => Action::Download {
                id: *id,
                target: target.clone(),
                capacity: *capacity,
                timeout_secs: *timeout_secs,
            },
            Action::ProbeTarget { path } => Action::ProbeTarget { path: path.clone() },
            Action::Copy { source, target } => Action::Copy {
                source: source.clone(),
                target: target.clone(),
            },
            Action::Digest { path } => Action::Digest { path: path.clone() },
            Action::Update { id, backend, path, url, digest } => Action::Update {
                id: *id,
                backend: backend.clone(),
                path: path.clone(),
                url: url.clone(),
                digest: *digest,
            },
            Action::RemoveTarget { path } => Action::RemoveTarget { path: path.clone() },
            Action::RemoveSource { path } => Action::RemoveSource { path: path.clone() },
        }
    }
}

/// A [`Notice`] with its digests and text as sequences.
pub enum NoticeView {
    Nothing,
    SourceMissing,
    TargetExists,
    DigestMismatch { calculated: Seq<u8>, stored: Seq<u8> },
    UpdateFailed { error: Seq<char> },
}

impl View for Notice {
    type V = NoticeView;

    open spec fn view(&self) -> NoticeView {
        match self {
            Notice::Nothing => NoticeView::Nothing,
            Notice::SourceMissing => NoticeView::SourceMissing,
            Notice::TargetExists => NoticeView::TargetExists,
            Notice::DigestMismatch { calculated, stored } => NoticeView::DigestMismatch {
                calculated: calculated@,
                stored: stored@,
            },
            Notice::UpdateFailed { error } => NoticeView::UpdateFailed { error: error@ },
        }
    }
}

impl Clone for Notice {
    /// The same notice once more.
    fn clone(&self) -> (notice: Notice)
        ensures
            notice@ == self@,
    {
        match self {
            Notice::Nothing => Notice::Nothing,
            Notice::SourceMissing => Notice::SourceMissing,
            Notice::TargetExists => Notice::TargetExists,
            Notice::DigestMismatch { calculated, stored } => Notice::DigestMismatch {
                calculated: *calculated,
                stored: *stored,
            },
            Notice::UpdateFailed { error } => Notice::UpdateFailed { error: error.clone() },
        }
    }
}

/// The stage that follows `stage` on `event`, and the notice that goes with
/// the step; `None` where `event` is no outcome of the action that `stage`
/// waits for. `stored` is the digest that the catalog has on record.
pub open spec fn step(stage: StageView, event: EventView, stored: Seq<u8>) -> Option<
    (StageView, NoticeView),
> {
    match (stage, event) {
        (StageView::SourceCheck, EventView::Found(true)) => Some(
            (StageView::TargetCheck, NoticeView::Nothing),
        ),
        (StageView::SourceCheck, EventView::Found(false)) => Some(
            (StageView::Redownload, NoticeView::SourceMissing),
        ),
        (StageView::Redownload, EventView::Done) => Some(
            (StageView::Verify, NoticeView::Nothing),
        ),
        (StageView::Redownload, EventView::TimedOut) => Some(
            (StageView::Finished { result: Err(ErrorView::Timeout) }, NoticeView::Nothing),
        ),
        (StageView::Redownload, EventView::ApiFailed(error)) => Some(
            (StageView::Finished { result: Err(ErrorView::Api(error)) }, NoticeView::Nothing),
        ),
        (StageView::Redownload, EventView::IoFailed(error)) => Some(
            (StageView::Finished { result: Err(ErrorView::Request(error)) }, NoticeView::Nothing),
        ),
        (StageView::TargetCheck, EventView::Found(true)) => Some(
            (StageView::Verify, NoticeView::TargetExists),
        ),
        (StageView::TargetCheck, EventView::Found(false)) => Some(
            (StageView::Copy, NoticeView::Nothing),
        ),
        (StageView::Copy, EventView::Done) => Some((StageView::Verify, NoticeView::Nothing)),
        (StageView::Copy, EventView::IoFailed(error)) => Some(
            (StageView::Finished { result: Err(ErrorView::Request(error)) }, NoticeView::Nothing),
        ),
        (StageView::Verify, EventView::Digest(digest)) => Some(
            (
                StageView::Update { digest },
                if digest == stored {
                    NoticeView::Nothing
                } else {
                    NoticeView::DigestMismatch { calculated: digest, stored }
                },
            ),
        ),
        (StageView::Verify, EventView::IoFailed(error)) => Some(
            (StageView::Finished { result: Err(ErrorView::Request(error)) }, NoticeView::Nothing),
        ),
        (StageView::Update { .. }, EventView::Done) => Some(
            (StageView::Cleanup, NoticeView::Nothing),
        ),
        (StageView::Update { .. }, EventView::ApiFailed(error)) => Some(
            (StageView::Rollback { cause: error }, NoticeView::UpdateFailed { error }),
        ),
        (StageView::Rollback { cause }, EventView::Done) => Some(
            (StageView::Finished { result: Err(ErrorView::Api(cause)) }, NoticeView::Nothing),
        ),
        (StageView::Rollback { .. }, EventView::IoFailed(error)) => Some(
            (StageView::Finished { result: Err(ErrorView::Request(error)) }, NoticeView::Nothing),
        ),
        (StageView::Cleanup, EventView::Done) => Some(
            (StageView::Finished { result: Ok(()) }, NoticeView::Nothing),
        ),
        (StageView::Cleanup, EventView::IoFailed(error)) => Some(
            (StageView::Finished { result: Err(ErrorView::Request(error)) }, NoticeView::Nothing),
        ),
        _ => None,
    }
}

/// How far a stage is from the start. Every step leads to a stage that is
/// further.
pub open spec fn progress(stage: StageView) -> nat {
    match stage {
        StageView::SourceCheck => 0,
        StageView::Redownload => 1,
        StageView::TargetCheck => 1,
        StageView::Copy => 2,
        StageView::Verify => 3,
        StageView::Update { .. } => 4,
        StageView::Rollback { .. } => 5,
        StageView::Cleanup => 5,
        StageView::Finished { .. } => 6,
    }
}

/// The transfer of one demo, as a mathematical value.
pub struct TransferView {
    pub demo: DemoView,
    pub source_path: Seq<char>,
    pub target_path: Seq<char>,
    pub target_backend: Seq<char>,
    pub stage: StageView,
}

impl TransferView {
    /// The transfer of `demo` from below `source_dir` to below `target_dir`,
    /// before anything was done.
    pub open spec fn start(
        demo: DemoView,
        source_dir: Seq<char>,
        target_dir: Seq<char>,
        target_backend: Seq<char>,
    ) -> TransferView {
        TransferView {
            demo,
            source_path: sharded_path(source_dir, demo.file_name()),
            target_path: sharded_path(target_dir, demo.file_name()),
            target_backend,
            stage: StageView::SourceCheck,
        }
    }

    /// The action that the transfer waits for; `None` once it has finished.
    pub open spec fn pending(self) -> Option<ActionView> {
        match self.stage {
            StageView::SourceCheck => Some(ActionView::ProbeSource { path: self.source_path }),
            StageView::Redownload => Some(
                ActionView::Download {
                    id: self.demo.id,
                    target: self.target_path,
                    capacity: self.demo.download_capacity() as usize,
                    timeout_secs: DOWNLOAD_TIMEOUT_SECS,
                },
            ),
            StageView::TargetCheck => Some(ActionView::ProbeTarget { path: self.target_path }),
            StageView::Copy => Some(
                ActionView::Copy { source: self.source_path, target: self.target_path },
            ),
            StageView::Verify => Some(ActionView::Digest { path: self.target_path }),
            StageView::Update { digest } => Some(
                ActionView::Update {
                    id: self.demo.id,
                    backend: self.target_backend,
                    path: self.demo.path,
                    url: self.demo.url,
                    digest,
                },
            ),
            StageView::Rollback { .. } => Some(
                ActionView::RemoveTarget { path: self.target_path },
            ),
            StageView::Cleanup => Some(ActionView::RemoveSource { path: self.source_path }),
            StageView::Finished { .. } => None,
        }
    }

    /// Whether `event` is an outcome of the action that the transfer waits
    /// for.
    pub open spec fn accepts(self, event: EventView) -> bool {
        step(self.stage, event, self.demo.hash) is Some
    }

    /// The transfer after `event`. An event that is not accepted changes
    /// nothing.
    pub open spec fn after(self, event: EventView) -> TransferView {
        match step(self.stage, event, self.demo.hash) {
            Some((stage, _)) => TransferView { stage, ..self },
            None => self,
        }
    }

    /// The notice that goes with the step on `event`.
    pub open spec fn notice(self, event: EventView) -> NoticeView {
        match step(self.stage, event, self.demo.hash) {
            Some((_, notice)) => notice,
            None => NoticeView::Nothing,
        }
    }

    /// How the transfer ended; `None` while it has not.
    pub open spec fn outcome(self) -> Option<Result<(), ErrorView>> {
        match self.stage {
            StageView::Finished { result } => Some(result),
            _ => None,
        }
    }

    /// Whether each of `events`, in turn, is accepted by the transfer as it
    /// stands after the events before it.
    pub open spec fn accepts_all(self, events: Seq<EventView>) -> bool
        decreases events.len(),
    {
        events.len() == 0 || (self.accepts(events[0]) && self.after(events[0]).accepts_all(
            events.drop_first(),
        ))
    }

    /// The transfer after each of `events` in turn.
    pub open spec fn run(self, events: Seq<EventView>) -> TransferView
        decreases events.len(),
    {
        if events.len() == 0 {
            self
        } else {
            self.after(events[0]).run(events.drop_first())
        }
    }
}

/// The transfer of one demo: the demo, the two places, the backend that the
/// catalog is to point at, and the stage reached.
#[derive(Debug, PartialEq, Eq)]
pub struct Transfer {
    demo: Demo,
    source_path: String,
    target_path: String,
    target_backend: String,
    stage: Stage,
}

impl View for Transfer {
    type V = TransferView;

    closed spec fn view(&self) -> TransferView {
        TransferView {
            demo: self.demo@,
            source_path: self.source_path@,
            target_path: self.target_path@,
            target_backend: self.target_backend@,
            stage: self.stage@,
        }
    }
}

impl Transfer {
    /// The transfer of `demo` from `source` to `target`, before anything was
    /// done. The name of the demo's file has to be long enough to be placed.
    pub fn new(demo: &Demo, source: &StorageRoot, target: &StorageRoot) -> (transfer: Transfer)
        requires
            shardable(demo@.file_name()),
        ensures
            transfer@ == TransferView::start(
                demo@,
                source.dir_view(),
                target.dir_view(),
                target.backend_view(),
            ),
    {
        let source_path = source.path_of(demo.file_name());
        let target_path = target.path_of(demo.file_name());
        let target_backend = String::from_str(target.backend());
        Transfer {
            demo: demo.clone(),
            source_path,
            target_path,
            target_backend,
            stage: Stage::SourceCheck,
        }
    }

    /// Like [`Transfer::new`], for any demo: `None` where the name of the
    /// demo's file is too short to be placed.
    pub fn try_new(demo: &Demo, source: &StorageRoot, target: &StorageRoot) -> (transfer: Option<
        Transfer,
    >)
        ensures
            transfer is Some <==> shardable(demo@.file_name()),
            transfer matches Some(t) ==> t@ == TransferView::start(
                demo@,
                source.dir_view(),
                target.dir_view(),
                target.backend_view(),
            ),
    {
        if is_shardable(demo.file_name()) {
            Some(Transfer::new(demo, source, target))
        } else {
            None
        }
    }

    /// The demo that is transferred.
    pub fn demo(&self) -> (demo: &Demo)
        ensures
            demo@ == self@.demo,
    {
        &self.demo
    }

    /// Where the demo lies on the source backend.
    pub fn source_path(&self) -> (path: &str)
        ensures
            path@ == self@.source_path,
    {
        self.source_path.as_str()
    }

    /// Where the demo is to lie on the target backend.
    pub fn target_path(&self) -> (path: &str)
        ensures
            path@ == self@.target_path,
    {
        self.target_path.as_str()
    }

    /// The stage reached.
    pub fn stage(&self) -> (stage: &Stage)
        ensures
            stage@ == self@.stage,
    {
        &self.stage
    }

    /// The action that the transfer waits for; `None` once it has finished.
    pub fn action(&self) -> (action: Option<Action>)
        ensures
            action is Some <==> self@.pending() is Some,
            action matches Some(a) ==> self@.pending() == Some(a@),
    {
        match &self.stage {
            Stage::SourceCheck => Some(Action::ProbeSource { path: self.source_path.clone() }),
            Stage::Redownload => Some(
                Action::Download {
                    id: self.demo.id,
                    target: self.target_path.clone(),
                    capacity: self.demo.download_capacity(),
                    timeout_secs: DOWNLOAD_TIMEOUT_SECS,
                },
            ),
            Stage::TargetCheck => Some(Action::ProbeTarget { path: self.target_path.clone() }),
            Stage::Copy => Some(
                Action::Copy {
                    source: self.source_path.clone(),
                    target: self.target_path.clone(),
                },
            ),
            Stage::Verify => Some(Action::Digest { path: self.target_path.clone() }),
            Stage::Update { digest } => Some(
                Action::Update {
                    id: self.demo.id,
                    backend: self.target_backend.clone(),
                    path: self.demo.path.clone(),
                    url: self.demo.url.clone(),
                    digest: *digest,
                },
            ),
            Stage::Rollback { .. } => Some(Action::RemoveTarget { path: self.target_path.clone() }),
            Stage::Cleanup => Some(Action::RemoveSource { path: self.source_path.clone() }),
            Stage::Finished { .. } => None,
        }
    }

    /// Takes what came of the pending action and moves to the next stage.
    /// The result is the notice for the log. An event that is no outcome of
    /// the pending action changes nothing and gives `None`.
    pub fn handle(&mut self, event: Event) -> (notice: Option<Notice>)
        ensures
            final(self)@ == old(self)@.after(event@),
            notice is Some <==> old(self)@.accepts(event@),
            notice matches Some(n) ==> n@ == old(self)@.notice(event@),
    {
        let next: Option<(Stage, Notice)> = match &self.stage {
            Stage::SourceCheck => match event {
                Event::Found(found) => if found {
                    Some((Stage::TargetCheck, Notice::Nothing))
                } else {
                    Some((Stage::Redownload, Notice::SourceMissing))
                },
                _ => None,
            },
            Stage::Redownload => match event {
                Event::Done => Some((Stage::Verify, Notice::Nothing)),
                Event::TimedOut => Some(
                    (Stage::Finished { result: Err(Error::Timeout) }, Notice::Nothing),
                ),
                Event::ApiFailed(error) => Some(
                    (Stage::Finished { result: Err(Error::Api(error)) }, Notice::Nothing),
                ),
                Event::IoFailed(error) => Some(
                    (Stage::Finished { result: Err(Error::Request(error)) }, Notice::Nothing),
                ),
                _ => None,
            },
            Stage::TargetCheck => match event {
                Event::Found(found) => if found {
                    Some((Stage::Verify, Notice::TargetExists))
                } else {
                    Some((Stage::Copy, Notice::Nothing))
                },
                _ => None,
            },
            Stage::Copy => match event {
                Event::Done => Some((Stage::Verify, Notice::Nothing)),
                Event::IoFailed(error) => Some(
                    (Stage::Finished { result: Err(Error::Request(error)) }, Notice::Nothing),
                ),
                _ => None,
            },
            Stage::Verify => match event {
                Event::Digest(digest) => if same_digest(&digest, &self.demo.hash) {
                    Some((Stage::Update { digest }, Notice::Nothing))
                } else {
                    Some(
                        (
                            Stage::Update { digest },
                            Notice::DigestMismatch { calculated: digest, stored: self.demo.hash },
                        ),
                    )
                },
                Event::IoFailed(error) => Some(
                    (Stage::Finished { result: Err(Error::Request(error)) }, Notice::Nothing),
                ),
                _ => None,
            },
            Stage::Update { .. } => match event {
                Event::Done => Some((Stage::Cleanup, Notice::Nothing)),
                Event::ApiFailed(error) => Some(
                    (Stage::Rollback { cause: error.clone() }, Notice::UpdateFailed { error }),
                ),
                _ => None,
            },
            Stage::Rollback { cause } => match event {
                Event::Done => Some(
                    (Stage::Finished { result: Err(Error::Api(cause.clone())) }, Notice::Nothing),
                ),
                Event::IoFailed(error) => Some(
                    (Stage::Finished { result: Err(Error::Request(error)) }, Notice::Nothing),
                ),
                _ => None,
            },
            Stage::Cleanup => match event {
                Event::Done => Some((Stage::Finished { result: Ok(()) }, Notice::Nothing)),
                Event::IoFailed(error) => Some(
                    (Stage::Finished { result: Err(Error::Request(error)) }, Notice::Nothing),
                ),
                _ => None,
            },
            Stage::Finished { .. } => None,
        };
        match next {
            Some((stage, notice)) => {
                self.stage = stage;
                Some(notice)
            },
            None => None,
        }
    }

    /// How the transfer ended; `None` while it has not.
    pub fn into_outcome(self) -> (outcome: Option<Result<(), Error>>)
        ensures
            outcome is Some <==> self@.outcome() is Some,
            outcome matches Some(result) ==> self@.outcome() == Some(result_view(result)),
    {
        match self.stage {
            Stage::Finished { result } => Some(result),
            _ => None,
        }
    }
}

/// Every step leads to a stage that is further from the start, and nothing
/// follows the last stage.
pub proof fn lemma_step_advances(stage: StageView, event: EventView, stored: Seq<u8>)
    ensures
        progress(stage) <= 6,
        stage is Finished ==> step(stage, event, stored) is None,
        step(stage, event, stored) matches Some((next, _)) ==> progress(stage) < progress(next),
{
}

/// A step changes the stage and nothing else: the demo, the two places and
/// the backend stay what they were when the transfer began.
pub proof fn lemma_step_keeps_the_plan(transfer: TransferView, event: EventView)
    ensures
        transfer.after(event).demo == transfer.demo,
        transfer.after(event).source_path == transfer.source_path,
        transfer.after(event).target_path == transfer.target_path,
        transfer.after(event).target_backend == transfer.target_backend,
{
}

/// A run can be cut in two: what the whole does is what its second part does
/// to the transfer that its first part leaves.
pub proof fn lemma_run_in_two(transfer: TransferView, events: Seq<EventView>, cut: int)
    requires
        0 <= cut <= events.len(),
    ensures
        transfer.run(events) == transfer.run(events.subrange(0, cut)).run(
            events.subrange(cut, events.len() as int),
        ),
        transfer.accepts_all(events) <==> transfer.accepts_all(events.subrange(0, cut))
            && transfer.run(events.subrange(0, cut)).accepts_all(
            events.subrange(cut, events.len() as int),
        ),
    decreases cut,
{
    let head = events.subrange(0, cut);
    let tail = events.subrange(cut, events.len() as int);
    if cut == 0 {
        assert(tail =~= events);
    } else {
        let rest = events.drop_first();
        lemma_run_in_two(transfer.after(events[0]), rest, cut - 1);
        assert(head.drop_first() =~= rest.subrange(0, cut - 1));
        assert(tail =~= rest.subrange(cut - 1, rest.len() as int));
        assert(head[0] == events[0]);
    }
}

/// A run of accepted events gets one stage further with each of them, so no
/// run is longer than six events.
pub proof fn lemma_run_advances(transfer: TransferView, events: Seq<EventView>)
    requires
        transfer.accepts_all(events),
    ensures
        progress(transfer.stage) + events.len() <= progress(transfer.run(events).stage),
        progress(transfer.run(events).stage) <= 6,
        events.len() <= 6,
    decreases events.len(),
{
    if events.len() == 0 {
        lemma_step_advances(transfer.stage, EventView::Done, transfer.demo.hash);
    } else {
        lemma_step_advances(transfer.stage, events[0], transfer.demo.hash);
        lemma_run_advances(transfer.after(events[0]), events.drop_first());
    }
}

/// No stage is met twice in a run: of two moments in a run of accepted
/// events, the later one finds the transfer further from the start. So no
/// action is asked for twice: the catalog is asked for an update at most
/// once, and each file is removed at most once.
pub proof fn lemma_no_stage_twice(
    transfer: TransferView,
    events: Seq<EventView>,
    earlier: int,
    later: int,
)
    requires
        transfer.accepts_all(events),
        0 <= earlier < later <= events.len(),
    ensures
        progress(transfer.run(events.subrange(0, earlier)).stage) < progress(
            transfer.run(events.subrange(0, later)).stage,
        ),
        transfer.run(events.subrange(0, earlier)).pending() is Some,
        transfer.run(events.subrange(0, earlier)).pending() != transfer.run(
            events.subrange(0, later),
        ).pending(),
        !(transfer.run(events.subrange(0, earlier)).stage is Update && transfer.run(
            events.subrange(0, later),
        ).stage is Update),
{
    let upto_later = events.subrange(0, later);
    lemma_run_in_two(transfer, events, later);
    lemma_run_in_two(transfer, upto_later, earlier);
    assert(upto_later.subrange(0, earlier) =~= events.subrange(0, earlier));
    lemma_run_advances(
        transfer.run(events.subrange(0, earlier)),
        upto_later.subrange(earlier, later),
    );
}

/// A run keeps the plan: the demo, the two places and the backend are at
/// every moment what they were when the transfer began.
pub proof fn lemma_run_keeps_the_plan(transfer: TransferView, events: Seq<EventView>)
    ensures
        transfer.run(events).demo == transfer.demo,
        transfer.run(events).source_path == transfer.source_path,
        transfer.run(events).target_path == transfer.target_path,
        transfer.run(events).target_backend == transfer.target_backend,
    decreases events.len(),
{
    if events.len() > 0 {
        lemma_run_keeps_the_plan(transfer.after(events[0]), events.drop_first());
    }
}

/// One more event of a run: the transfer as the events before it leave it
/// accepts it, and moves on it to where the run stands one moment later.
pub proof fn lemma_run_one_more(transfer: TransferView, events: Seq<EventView>, moment: int)
    requires
        transfer.accepts_all(events),
        0 <= moment < events.len(),
    ensures
        transfer.run(events.subrange(0, moment)).accepts(events[moment]),
        transfer.run(events.subrange(0, moment + 1)) == transfer.run(
            events.subrange(0, moment),
        ).after(events[moment]),
{
    let upto = events.subrange(0, moment + 1);
    let before = transfer.run(events.subrange(0, moment));
    let single = upto.subrange(moment, moment + 1);
    lemma_run_in_two(transfer, events, moment + 1);
    lemma_run_in_two(transfer, upto, moment);
    assert(upto.subrange(0, moment) =~= events.subrange(0, moment));
    assert(single[0] == events[moment]);
    assert(single.drop_first() =~= Seq::<EventView>::empty());
    assert(before.after(events[moment]).run(single.drop_first()) == before.after(
        events[moment],
    ));
    assert(before.after(events[moment]).accepts_all(single.drop_first()));
}

/// The order of a move. At whatever moment of a run the removal of the
/// source is asked for, the three moments before it were these: a file was
/// placed at the target or found there; that file was digested; the catalog
/// was given that digest for the target backend and took it. So the source
/// is removed only once the catalog points at the target backend, with the
/// digest of the file that lies there.
pub proof fn lemma_order_of_a_move(transfer: TransferView, events: Seq<EventView>, moment: int)
    requires
        transfer.stage is SourceCheck,
        transfer.accepts_all(events),
        0 <= moment <= events.len(),
        transfer.run(events.subrange(0, moment)).pending() is Some,
        transfer.run(events.subrange(0, moment)).pending()->0 is RemoveSource,
    ensures
        moment >= 4,
        ({
            let placing = transfer.run(events.subrange(0, moment - 3));
            let digesting = transfer.run(events.subrange(0, moment - 2));
            let updating = transfer.run(events.subrange(0, moment - 1));
            &&& (placing.pending() == Some(ActionView::ProbeTarget { path: transfer.target_path })
                && events[moment - 3] == EventView::Found(true)) || (placing.pending() == Some(
                ActionView::Copy { source: transfer.source_path, target: transfer.target_path },
            ) && events[moment - 3] is Done) || (placing.pending()->0 is Download
                && events[moment - 3] is Done)
            &&& digesting.pending() == Some(ActionView::Digest { path: transfer.target_path })
            &&& events[moment - 2] is Digest
            &&& updating.pending() == Some(
                ActionView::Update {
                    id: transfer.demo.id,
                    backend: transfer.target_backend,
                    path: transfer.demo.path,
                    url: transfer.demo.url,
                    digest: events[moment - 2]->Digest_0,
                },
            )
            &&& events[moment - 1] is Done
        }),
{
    assert(events.subrange(0, 0) =~= Seq::<EventView>::empty());
    assert(transfer.run(events.subrange(0, 0)) == transfer);
    assert(moment >= 1);
    lemma_run_one_more(transfer, events, moment - 1);
    let updating = transfer.run(events.subrange(0, moment - 1));
    lemma_what_led_here(updating, events[moment - 1]);
    lemma_run_keeps_the_plan(transfer, events.subrange(0, moment - 1));
    assert(moment >= 2);
    lemma_run_one_more(transfer, events, moment - 2);
    let digesting = transfer.run(events.subrange(0, moment - 2));
    lemma_what_led_here(digesting, events[moment - 2]);
    lemma_run_keeps_the_plan(transfer, events.subrange(0, moment - 2));
    assert(moment >= 3);
    lemma_run_one_more(transfer, events, moment - 3);
    let placing = transfer.run(events.subrange(0, moment - 3));
    lemma_what_led_here(placing, events[moment - 3]);
    lemma_run_keeps_the_plan(transfer, events.subrange(0, moment - 3));
    assert(moment >= 4);
}

/// What must have happened just before an action is asked for. Each action
/// has one way to come about:
/// the source is removed only after the catalog took the update;
/// the target is removed only after the catalog refused it;
/// the catalog is given the digest that was just computed;
/// a copy is made only after the target was found absent;
/// a download is made only after the source was found missing;
/// the target is digested only once a file was placed or found there;
/// and a transfer ends well only after the source was removed.
pub proof fn lemma_what_led_here(transfer: TransferView, event: EventView)
    requires
        transfer.accepts(event),
    ensures
        transfer.after(event).pending() is Some ==> (transfer.after(event).pending()->0
            is RemoveSource <==> transfer.stage is Update && event is Done),
        transfer.after(event).pending() is Some ==> (transfer.after(event).pending()->0
            is RemoveTarget <==> transfer.stage is Update && event is ApiFailed),
        transfer.after(event).pending() matches Some(ActionView::Update { digest, .. })
            ==> transfer.stage is Verify && event == EventView::Digest(digest),
        transfer.after(event).pending() is Some ==> (transfer.after(event).pending()->0 is Copy
            <==> transfer.stage is TargetCheck && event == EventView::Found(false)),
        transfer.after(event).pending() is Some ==> (transfer.after(event).pending()->0
            is Download <==> transfer.stage is SourceCheck && event == EventView::Found(false)),
        transfer.after(event).pending() is Some ==> (transfer.after(event).pending()->0 is Digest
            <==> (transfer.stage is TargetCheck && event == EventView::Found(true)) || (
        transfer.stage is Copy && event is Done) || (transfer.stage is Redownload && event
            is Done)),
        transfer.after(event).outcome() == Some(Ok::<(), ErrorView>(())) <==> transfer.stage
            is Cleanup && event is Done,
{
}

/// The source is there, the target is not, and every action succeeds: the
/// source is probed, the target is probed, the file is copied and digested,
/// the catalog is pointed at the target backend with the computed digest,
/// the source is removed, and the transfer ends well. Where the computed
/// digest is the recorded one, no step gives a notice, and the catalog gets
/// the recorded digest.
pub proof fn lemma_round_trip(transfer: TransferView, digest: Seq<u8>)
    requires
        transfer.stage is SourceCheck,
    ensures
        ({
            let probed = transfer.after(EventView::Found(true));
            let absent = probed.after(EventView::Found(false));
            let copied = absent.after(EventView::Done);
            let digested = copied.after(EventView::Digest(digest));
            let updated = digested.after(EventView::Done);
            let removed = updated.after(EventView::Done);
            &&& transfer.pending() == Some(ActionView::ProbeSource { path: transfer.source_path })
            &&& transfer.accepts(EventView::Found(true))
            &&& probed.pending() == Some(ActionView::ProbeTarget { path: transfer.target_path })
            &&& probed.accepts(EventView::Found(false))
            &&& absent.pending() == Some(
                ActionView::Copy { source: transfer.source_path, target: transfer.target_path },
            )
            &&& absent.accepts(EventView::Done)
            &&& copied.pending() == Some(ActionView::Digest { path: transfer.target_path })
            &&& copied.accepts(EventView::Digest(digest))
            &&& digested.pending() == Some(
                ActionView::Update {
                    id: transfer.demo.id,
                    backend: transfer.target_backend,
                    path: transfer.demo.path,
                    url: transfer.demo.url,
                    digest,
                },
            )
            &&& digested.accepts(EventView::Done)
            &&& updated.pending() == Some(ActionView::RemoveSource { path: transfer.source_path })
            &&& updated.accepts(EventView::Done)
            &&& removed.pending() is None
            &&& removed.outcome() == Some(Ok::<(), ErrorView>(()))
            &&& transfer.notice(EventView::Found(true)) is Nothing
            &&& probed.notice(EventView::Found(false)) is Nothing
            &&& absent.notice(EventView::Done) is Nothing
            &&& (digest == transfer.demo.hash ==> copied.notice(EventView::Digest(digest))
                is Nothing)
            &&& digested.notice(EventView::Done) is Nothing
            &&& updated.notice(EventView::Done) is Nothing
        }),
{
}

/// A digest that is not the recorded one stops nothing: the step gives a
/// warning that names both digests, the catalog is given the computed one,
/// and once the catalog took it the source is removed and the transfer ends
/// well.
pub proof fn lemma_mismatch_goes_on(transfer: TransferView, digest: Seq<u8>)
    requires
        transfer.stage is Verify,
        digest != transfer.demo.hash,
    ensures
        ({
            let digested = transfer.after(EventView::Digest(digest));
            let updated = digested.after(EventView::Done);
            let removed = updated.after(EventView::Done);
            &&& transfer.accepts(EventView::Digest(digest))
            &&& transfer.notice(EventView::Digest(digest)) == NoticeView::DigestMismatch {
                calculated: digest,
                stored: transfer.demo.hash,
            }
            &&& digested.pending() == Some(
                ActionView::Update {
                    id: transfer.demo.id,
                    backend: transfer.target_backend,
                    path: transfer.demo.path,
                    url: transfer.demo.url,
                    digest,
                },
            )
            &&& digested.accepts(EventView::Done)
            &&& updated.pending() == Some(ActionView::RemoveSource { path: transfer.source_path })
            &&& updated.accepts(EventView::Done)
            &&& removed.outcome() == Some(Ok::<(), ErrorView>(()))
        }),
{
}

/// The source is missing: the step gives a warning and the demo is
/// downloaded to the target, within the time a download may take. Once it is
/// there it is digested, with no copy and no look at the target before, and
/// the catalog is updated with that digest. A download that takes too long
/// ends the transfer with a timeout, and nothing more is asked for: the
/// catalog is not touched.
pub proof fn lemma_missing_source(transfer: TransferView, digest: Seq<u8>)
    requires
        transfer.stage is SourceCheck,
    ensures
        ({
            let missing = transfer.after(EventView::Found(false));
            let placed = missing.after(EventView::Done);
            let digested = placed.after(EventView::Digest(digest));
            let late = missing.after(EventView::TimedOut);
            &&& transfer.accepts(EventView::Found(false))
            &&& transfer.notice(EventView::Found(false)) is SourceMissing
            &&& missing.pending() == Some(
                ActionView::Download {
                    id: transfer.demo.id,
                    target: transfer.target_path,
                    capacity: transfer.demo.download_capacity() as usize,
                    timeout_secs: 300,
                },
            )
            &&& missing.accepts(EventView::Done)
            &&& placed.pending() == Some(ActionView::Digest { path: transfer.target_path })
            &&& placed.accepts(EventView::Digest(digest))
            &&& digested.pending() == Some(
                ActionView::Update {
                    id: transfer.demo.id,
                    backend: transfer.target_backend,
                    path: transfer.demo.path,
                    url: transfer.demo.url,
                    digest,
                },
            )
            &&& missing.accepts(EventView::TimedOut)
            &&& late.pending() is None
            &&& late.outcome() == Some(Err::<(), ErrorView>(ErrorView::Timeout))
            &&& forall|event: EventView| !late.accepts(event)
        }),
{
}

/// The catalog refuses the update: the step gives an error for the log, and
/// the one action left is to remove the target. Whatever comes of that, the
/// transfer ends in failure with nothing more asked for, so the source stays
/// as it is. The failure is the catalog's where the target could be removed,
/// and that of the removal where it could not.
pub proof fn lemma_rollback(transfer: TransferView, refusal: Seq<char>, event: EventView)
    requires
        transfer.stage is Update,
    ensures
        ({
            let refused = transfer.after(EventView::ApiFailed(refusal));
            let ended = refused.after(event);
            &&& transfer.accepts(EventView::ApiFailed(refusal))
            &&& transfer.notice(EventView::ApiFailed(refusal)) == NoticeView::UpdateFailed {
                error: refusal,
            }
            &&& refused.pending() == Some(ActionView::RemoveTarget { path: transfer.target_path })
            &&& refused.accepts(event) <==> event is Done || event is IoFailed
            &&& refused.accepts(event) ==> ended.pending() is None
            &&& event is Done ==> ended.outcome() == Some(
                Err::<(), ErrorView>(ErrorView::Api(refusal)),
            )
            &&& event matches EventView::IoFailed(error) ==> ended.outcome() == Some(
                Err::<(), ErrorView>(ErrorView::Request(error)),
            )
        }),
{
}

/// The target is there already: the step gives a warning, no copy is asked
/// for, and the file that is there is digested as it is. The catalog is then
/// updated with that digest and the source is removed.
pub proof fn lemma_existing_target_is_kept(transfer: TransferView, digest: Seq<u8>)
    requires
        transfer.stage is TargetCheck,
    ensures
        ({
            let found = transfer.after(EventView::Found(true));
            let digested = found.after(EventView::Digest(digest));
            let updated = digested.after(EventView::Done);
            let removed = updated.after(EventView::Done);
            &&& transfer.pending() == Some(ActionView::ProbeTarget { path: transfer.target_path })
            &&& transfer.accepts(EventView::Found(true))
            &&& transfer.notice(EventView::Found(true)) is TargetExists
            &&& found.pending() == Some(ActionView::Digest { path: transfer.target_path })
            &&& found.accepts(EventView::Digest(digest))
            &&& digested.pending() == Some(
                ActionView::Update {
                    id: transfer.demo.id,
                    backend: transfer.target_backend,
                    path: transfer.demo.path,
                    url: transfer.demo.url,
                    digest,
                },
            )
            &&& digested.accepts(EventView::Done)
            &&& updated.pending() == Some(ActionView::RemoveSource { path: transfer.source_path })
            &&& updated.accepts(EventView::Done)
            &&& removed.outcome() == Some(Ok::<(), ErrorView>(()))
        }),
{
}

} // verus!
