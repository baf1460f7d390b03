//! The update coordinator: a single-flight state machine that checks the
//! release feed, downloads a newer binary of the external tool, and keeps the
//! record of the installed release.
//!
//! The owner performs the work that each step asks for (fetching the feed,
//! downloading, writing the record) and hands back what happened.

use crate::release::{newer_spec, YasReleaseInfo};
use vstd::prelude::*;

verus! {

/// Where an update stands.
#[derive(Debug, Clone, Copy, PartialEq, Eq, Structural)]
pub enum UpdateState {
    /// No update is in flight, and the last one found nothing newer or failed.
    NoUpdate,
    /// The release feed is being checked.
    Prechecking,
    /// A newer binary is being downloaded; `total` is 0 while unknown.
    Downloading { downloaded: usize, total: usize },
    /// The last update installed a newer release.
    Done,
}

/// What happened since the last step.
#[derive(Debug)]
pub enum UpdateEvent {
    /// Someone asked for an update.
    Start,
    /// The release feed was read: the release it announces, or nothing when it
    /// could not be fetched or read.
    Checked { latest: Option<YasReleaseInfo> },
    /// The download answered, announcing `total` bytes (0 when unknown).
    Transfer { total: usize },
    /// `len` more bytes of the binary were written.
    Chunk { len: usize },
    /// The whole binary was written.
    Completed,
    /// The record of the downloaded release was written.
    Persisted,
    /// The check, the download or the writing of the record failed.
    Failed,
}

/// What the owner of the coordinator does next.
#[derive(Debug)]
pub enum UpdateAction {
    /// Nothing.
    Idle,
    /// The request was turned away: an update is in flight.
    Conflict,
    /// Fetch the release feed, then report `Checked`.
    Precheck,
    /// Download the binary from `url`, reporting `Transfer`, `Chunk`s, then
    /// `Completed` or `Failed`.
    Download { url: String },
    /// Write this record as the installed release, then report `Persisted`
    /// or `Failed`.
    Persist { record: YasReleaseInfo },
}

/// What a coordinator is.
pub struct CoordinatorView {
    pub state: UpdateState,
    /// The record of the installed release.
    pub installed: YasReleaseInfo,
    /// The release being downloaded.
    pub pending: Option<YasReleaseInfo>,
}

/// Whether an update is in flight.
pub open spec fn in_flight(state: UpdateState) -> bool {
    state is Prechecking || state is Downloading
}

/// A coordinator is consistent when a release is pending exactly while it downloads.
pub open spec fn consistent(c: CoordinatorView) -> bool {
    c.pending is Some <==> c.state is Downloading
}

/// One step of the coordinator: the coordinator after an event, and what to do.
/// An event that does not fit the current state changes nothing.
pub open spec fn update_step(c: CoordinatorView, ev: UpdateEvent) -> (CoordinatorView, UpdateAction) {
    match ev {
        UpdateEvent::Start => if in_flight(c.state) {
            (c, UpdateAction::Conflict)
        } else {
            (CoordinatorView { state: UpdateState::Prechecking, pending: None, ..c }, UpdateAction::Precheck)
        },
        UpdateEvent::Checked { latest } => if !(c.state is Prechecking) {
            (c, UpdateAction::Idle)
        } else {
            match latest {
                Some(l) => if newer_spec(l, c.installed) {
                    (
                        CoordinatorView {
                            state: UpdateState::Downloading { downloaded: 0, total: 0 },
                            pending: Some(l),
                            ..c
                        },
                        UpdateAction::Download { url: l.url },
                    )
                } else {
                    (CoordinatorView { state: UpdateState::NoUpdate, ..c }, UpdateAction::Idle)
                },
                None => (CoordinatorView { state: UpdateState::NoUpdate, ..c }, UpdateAction::Idle),
            }
        },
        UpdateEvent::Transfer { total } => match c.state {
            UpdateState::Downloading { .. } => (
                CoordinatorView { state: UpdateState::Downloading { downloaded: 0, total }, ..c },
                UpdateAction::Idle,
            ),
            _ => (c, UpdateAction::Idle),
        },
        UpdateEvent::Chunk { len } => match c.state {
            UpdateState::Downloading { downloaded, total } => (
                CoordinatorView {
                    state: UpdateState::Downloading {
                        downloaded: if downloaded + len <= usize::MAX { (downloaded + len) as usize } else { usize::MAX },
                        total,
                    },
                    ..c
                },
                UpdateAction::Idle,
            ),
            _ => (c, UpdateAction::Idle),
        },
        UpdateEvent::Completed => match c.pending {
            Some(l) => if c.state is Downloading {
                (c, UpdateAction::Persist { record: l })
            } else {
                (c, UpdateAction::Idle)
            },
            None => (c, UpdateAction::Idle),
        },
        UpdateEvent::Persisted => match c.pending {
            Some(l) => if c.state is Downloading {
                (CoordinatorView { state: UpdateState::Done, installed: l, pending: None }, UpdateAction::Idle)
            } else {
                (c, UpdateAction::Idle)
            },
            None => (c, UpdateAction::Idle),
        },
        UpdateEvent::Failed => if in_flight(c.state) {
            (CoordinatorView { state: UpdateState::NoUpdate, pending: None, ..c }, UpdateAction::Idle)
        } else {
            (c, UpdateAction::Idle)
        },
    }
}

/// The coordinator after a run of events.
pub open spec fn run_updates(c: CoordinatorView, evs: Seq<UpdateEvent>) -> CoordinatorView
    decreases evs.len(),
{
    if evs.len() == 0 {
        c
    } else {
        update_step(run_updates(c, evs.drop_last()), evs.last()).0
    }
}

/// The events of a download that wrote chunks of the given lengths.
pub open spec fn chunk_events(lens: Seq<usize>) -> Seq<UpdateEvent> {
    lens.map_values(|n: usize| UpdateEvent::Chunk { len: n })
}

/// The events of a cycle up to the end of its transfer: a start, a check that
/// found `latest`, a transfer of `total` bytes and its chunks.
pub open spec fn cycle_until_transfer_end(latest: YasReleaseInfo, total: usize, lens: Seq<usize>) -> Seq<UpdateEvent> {
    seq![
        UpdateEvent::Start,
        UpdateEvent::Checked { latest: Some(latest) },
        UpdateEvent::Transfer { total },
    ] + chunk_events(lens)
}

proof fn lemma_run_append(c: CoordinatorView, a: Seq<UpdateEvent>, b: Seq<UpdateEvent>)
    ensures
        run_updates(c, a + b) == run_updates(run_updates(c, a), b),
    decreases b.len(),
{
    if b.len() == 0 {
        assert(a + b =~= a);
    } else {
        lemma_run_append(c, a, b.drop_last());
        assert((a + b).drop_last() =~= a + b.drop_last());
        assert((a + b).last() == b.last());
    }
}

/// Chunks keep a download going and touch neither the pending nor the installed release.
proof fn lemma_chunks_keep_download(c: CoordinatorView, lens: Seq<usize>)
    requires
        c.state is Downloading,
    ensures
        run_updates(c, chunk_events(lens)).state is Downloading,
        run_updates(c, chunk_events(lens)).pending == c.pending,
        run_updates(c, chunk_events(lens)).installed == c.installed,
    decreases lens.len(),
{
    if lens.len() > 0 {
        lemma_chunks_keep_download(c, lens.drop_last());
        assert(chunk_events(lens).drop_last() =~= chunk_events(lens.drop_last()));
    } else {
        assert(chunk_events(lens) =~= Seq::empty());
    }
}

/// Where a cycle stands once its transfer has written every chunk: still
/// downloading `latest`, with the installed record untouched.
proof fn lemma_cycle_until_transfer_end(c: CoordinatorView, latest: YasReleaseInfo, total: usize, lens: Seq<usize>)
    requires
        !in_flight(c.state),
        newer_spec(latest, c.installed),
    ensures
        run_updates(c, cycle_until_transfer_end(latest, total, lens)).state is Downloading,
        run_updates(c, cycle_until_transfer_end(latest, total, lens)).pending == Some(latest),
        run_updates(c, cycle_until_transfer_end(latest, total, lens)).installed == c.installed,
{
    let head = seq![
        UpdateEvent::Start,
        UpdateEvent::Checked { latest: Some(latest) },
        UpdateEvent::Transfer { total },
    ];
    let e0 = Seq::<UpdateEvent>::empty();
    let e1 = seq![UpdateEvent::Start];
    let e2 = seq![UpdateEvent::Start, UpdateEvent::Checked { latest: Some(latest) }];
    assert(e1.drop_last() =~= e0);
    assert(e2.drop_last() =~= e1);
    assert(head.drop_last() =~= e2);
    assert(run_updates(c, e0) == c);
    let s1 = run_updates(c, e1);
    assert(s1 == update_step(c, UpdateEvent::Start).0);
    assert(s1.state is Prechecking && s1.installed == c.installed);
    let s2 = run_updates(c, e2);
    assert(s2 == update_step(s1, UpdateEvent::Checked { latest: Some(latest) }).0);
    assert(s2.state is Downloading && s2.pending == Some(latest) && s2.installed == c.installed);
    let mid = run_updates(c, head);
    assert(mid == update_step(s2, UpdateEvent::Transfer { total }).0);
    assert(mid.state is Downloading && mid.pending == Some(latest) && mid.installed == c.installed);
    lemma_run_append(c, head, chunk_events(lens));
    lemma_chunks_keep_download(mid, lens);
}

/// A completed download asks for its record to be written and is not `Done`
/// until then: the coordinator keeps downloading, with the old record installed.
pub proof fn lemma_completed_download_awaits_record(c: CoordinatorView, latest: YasReleaseInfo, total: usize, lens: Seq<usize>)
    requires
        !in_flight(c.state),
        newer_spec(latest, c.installed),
    ensures
        ({
            let before = run_updates(c, cycle_until_transfer_end(latest, total, lens));
            let (end, action) = update_step(before, UpdateEvent::Completed);
            &&& end.state is Downloading
            &&& end.installed == c.installed
            &&& action == (UpdateAction::Persist { record: latest })
        }),
{
    lemma_cycle_until_transfer_end(c, latest, total, lens);
}

/// A cycle that finds a strictly newer release, downloads all of it and
/// writes its record ends in `Done`, with that release as the installed record.
pub proof fn lemma_successful_cycle(c: CoordinatorView, latest: YasReleaseInfo, total: usize, lens: Seq<usize>)
    requires
        !in_flight(c.state),
        newer_spec(latest, c.installed),
    ensures
        ({
            let end = run_updates(
                c,
                cycle_until_transfer_end(latest, total, lens).push(UpdateEvent::Completed).push(UpdateEvent::Persisted),
            );
            &&& end.state == UpdateState::Done
            &&& end.installed == latest
            &&& end.installed.version == latest.version
        }),
{
    let evs = cycle_until_transfer_end(latest, total, lens);
    lemma_cycle_until_transfer_end(c, latest, total, lens);
    let done = evs.push(UpdateEvent::Completed);
    assert(done.drop_last() =~= evs);
    assert(done.push(UpdateEvent::Persisted).drop_last() =~= done);
    let mid = run_updates(c, evs);
    let waiting = run_updates(c, done);
    assert(waiting == update_step(mid, UpdateEvent::Completed).0);
    assert(waiting.state is Downloading && waiting.pending == Some(latest) && waiting.installed == c.installed);
    assert(run_updates(c, done.push(UpdateEvent::Persisted)) == update_step(waiting, UpdateEvent::Persisted).0);
}

/// A cycle whose record could not be written after a complete download ends
/// in `NoUpdate`, with the installed record as it was before the cycle.
pub proof fn lemma_failed_record_write(c: CoordinatorView, latest: YasReleaseInfo, total: usize, lens: Seq<usize>)
    requires
        !in_flight(c.state),
        newer_spec(latest, c.installed),
    ensures
        ({
            let end = run_updates(
                c,
                cycle_until_transfer_end(latest, total, lens).push(UpdateEvent::Completed).push(UpdateEvent::Failed),
            );
            &&& end.state == UpdateState::NoUpdate
            &&& end.installed == c.installed
        }),
{
    let evs = cycle_until_transfer_end(latest, total, lens);
    lemma_cycle_until_transfer_end(c, latest, total, lens);
    let done = evs.push(UpdateEvent::Completed);
    assert(done.drop_last() =~= evs);
    assert(done.push(UpdateEvent::Failed).drop_last() =~= done);
    let mid = run_updates(c, evs);
    let waiting = run_updates(c, done);
    assert(waiting == update_step(mid, UpdateEvent::Completed).0);
    assert(waiting.state is Downloading && waiting.pending == Some(latest) && waiting.installed == c.installed);
    assert(run_updates(c, done.push(UpdateEvent::Failed)) == update_step(waiting, UpdateEvent::Failed).0);
}

/// A cycle whose download fails after any number of chunks ends in
/// `NoUpdate`, with the installed record as it was before the cycle.
pub proof fn lemma_failed_download(c: CoordinatorView, latest: YasReleaseInfo, total: usize, lens: Seq<usize>)
    requires
        !in_flight(c.state),
        newer_spec(latest, c.installed),
    ensures
        ({
            let end = run_updates(c, cycle_until_transfer_end(latest, total, lens).push(UpdateEvent::Failed));
            &&& end.state == UpdateState::NoUpdate
            &&& end.installed == c.installed
        }),
{
    let evs = cycle_until_transfer_end(latest, total, lens);
    lemma_cycle_until_transfer_end(c, latest, total, lens);
    assert(evs.push(UpdateEvent::Failed).drop_last() =~= evs);
}

/// A check that fails ends a started cycle in `NoUpdate`, with the installed
/// record untouched.
pub proof fn lemma_failed_check(c: CoordinatorView)
    requires
        !in_flight(c.state),
    ensures
        ({
            let end = run_updates(c, seq![UpdateEvent::Start, UpdateEvent::Failed]);
            &&& end.state == UpdateState::NoUpdate
            &&& end.installed == c.installed
        }),
{
    let evs = seq![UpdateEvent::Start, UpdateEvent::Failed];
    let e1 = seq![UpdateEvent::Start];
    assert(evs.drop_last() =~= e1);
    assert(e1.drop_last() =~= Seq::<UpdateEvent>::empty());
    assert(run_updates(c, Seq::<UpdateEvent>::empty()) == c);
    let s1 = run_updates(c, e1);
    assert(s1 == update_step(c, UpdateEvent::Start).0);
    assert(run_updates(c, evs) == update_step(s1, UpdateEvent::Failed).0);
}

/// The text of an update reply.
#[derive(Debug, Clone, Copy, PartialEq, Eq, Structural)]
pub enum UpdateMsg {
    Prechecking,
    Downloading,
    Done,
    NoUpdate,
    Failed,
}

impl UpdateMsg {
    /// The message as it stands in a reply.
    pub fn as_str(&self) -> (r: &'static str)
        ensures
            r@ == match *self {
                UpdateMsg::Prechecking => "prechecking"@,
                UpdateMsg::Downloading => "downloading"@,
                UpdateMsg::Done => "done"@,
                UpdateMsg::NoUpdate => "noupdate"@,
                UpdateMsg::Failed => "failed"@,
            },
    {
        match self {
            UpdateMsg::Prechecking => "prechecking",
            UpdateMsg::Downloading => "downloading",
            UpdateMsg::Done => "done",
            UpdateMsg::NoUpdate => "noupdate",
            UpdateMsg::Failed => "failed",
        }
    }
}

/// How far a download has come: bytes written and bytes announced (0 when unknown).
#[derive(Debug, Clone, Copy, PartialEq, Eq, Structural)]
pub struct Progress {
    pub downloaded: usize,
    pub total: usize,
}

/// A reply of the update endpoint: its status code, its message and, while
/// downloading, the bytes written and the bytes announced.
#[derive(Debug, Clone, Copy, PartialEq, Eq, Structural)]
pub struct UpdateReply {
    pub status: u16,
    pub msg: UpdateMsg,
    pub progress: Option<Progress>,
}

/// The reply that reports a state.
pub open spec fn status_reply_spec(state: UpdateState) -> UpdateReply {
    match state {
        UpdateState::Prechecking => UpdateReply { status: 202, msg: UpdateMsg::Prechecking, progress: None },
        UpdateState::Downloading { downloaded, total } => UpdateReply {
            status: 202,
            msg: UpdateMsg::Downloading,
            progress: Some(Progress { downloaded, total }),
        },
        UpdateState::Done => UpdateReply { status: 200, msg: UpdateMsg::Done, progress: None },
        UpdateState::NoUpdate => UpdateReply { status: 200, msg: UpdateMsg::NoUpdate, progress: None },
    }
}

/// The single, process-wide update coordinator.
pub struct UpdateCoordinator {
    state: UpdateState,
    installed: YasReleaseInfo,
    pending: Option<YasReleaseInfo>,
}

impl View for UpdateCoordinator {
    type V = CoordinatorView;

    closed spec fn view(&self) -> CoordinatorView {
        CoordinatorView { state: self.state, installed: self.installed, pending: self.pending }
    }
}

impl UpdateCoordinator {
    /// A coordinator with no update in flight and `installed` as the record of
    /// the installed release.
    pub fn new(installed: YasReleaseInfo) -> (r: UpdateCoordinator)
        ensures
            r@ == (CoordinatorView { state: UpdateState::NoUpdate, installed, pending: None }),
            consistent(r@),
    {
        UpdateCoordinator { state: UpdateState::NoUpdate, installed, pending: None }
    }

    /// Where the update stands; never waits.
    pub fn query_state(&self) -> (r: UpdateState)
        ensures
            r == self@.state,
    {
        self.state
    }

    /// The record of the installed release.
    pub fn installed(&self) -> (r: &YasReleaseInfo)
        ensures
            *r == self@.installed,
    {
        &self.installed
    }

    /// The reply that reports where the update stands.
    pub fn status_reply(&self) -> (r: UpdateReply)
        ensures
            r == status_reply_spec(self@.state),
    {
        match self.state {
            UpdateState::Prechecking => UpdateReply { status: 202, msg: UpdateMsg::Prechecking, progress: None },
            UpdateState::Downloading { downloaded, total } => UpdateReply {
                status: 202,
                msg: UpdateMsg::Downloading,
                progress: Some(Progress { downloaded, total }),
            },
            UpdateState::Done => UpdateReply { status: 200, msg: UpdateMsg::Done, progress: None },
            UpdateState::NoUpdate => UpdateReply { status: 200, msg: UpdateMsg::NoUpdate, progress: None },
        }
    }

    /// Asks for an update: it starts checking, with reply 201, unless one is
    /// in flight, in which case the request is turned away with 409 and
    /// nothing changes. On 201 the owner fetches the release feed.
    pub fn start_update(&mut self) -> (r: UpdateReply)
        requires
            consistent(old(self)@),
        ensures
            final(self)@ == update_step(old(self)@, UpdateEvent::Start).0,
            consistent(final(self)@),
            in_flight(old(self)@.state) ==> final(self)@ == old(self)@
                && r == (UpdateReply { status: 409, msg: UpdateMsg::Failed, progress: None }),
            !in_flight(old(self)@.state) ==> final(self)@.state == UpdateState::Prechecking
                && r == (UpdateReply { status: 201, msg: UpdateMsg::Prechecking, progress: None }),
    {
        match self.handle(UpdateEvent::Start) {
            UpdateAction::Precheck => UpdateReply { status: 201, msg: UpdateMsg::Prechecking, progress: None },
            _ => UpdateReply { status: 409, msg: UpdateMsg::Failed, progress: None },
        }
    }

    /// Takes one event and says what to do next.
    pub fn handle(&mut self, ev: UpdateEvent) -> (r: UpdateAction)
        requires
            consistent(old(self)@),
        ensures
            (final(self)@, r) == update_step(old(self)@, ev),
            consistent(final(self)@),
    {
        match ev {
            UpdateEvent::Start => {
                match self.state {
                    UpdateState::Prechecking | UpdateState::Downloading { .. } => UpdateAction::Conflict,
                    _ => {
                        self.state = UpdateState::Prechecking;
                        self.pending = None;
                        UpdateAction::Precheck
                    },
                }
            },
            UpdateEvent::Checked { latest } => {
                if self.state != UpdateState::Prechecking {
                    return UpdateAction::Idle;
                }
                match latest {
                    Some(l) => {
                        if l.newer_than(&self.installed) {
                            let url = l.url.clone();
                            self.state = UpdateState::Downloading { downloaded: 0, total: 0 };
                            self.pending = Some(l);
                            UpdateAction::Download { url }
                        } else {
                            self.state = UpdateState::NoUpdate;
                            UpdateAction::Idle
                        }
                    },
                    None => {
                        self.state = UpdateState::NoUpdate;
                        UpdateAction::Idle
                    },
                }
            },
            UpdateEvent::Transfer { total } => {
                if let UpdateState::Downloading { .. } = self.state {
                    self.state = UpdateState::Downloading { downloaded: 0, total };
                }
                UpdateAction::Idle
            },
            UpdateEvent::Chunk { len } => {
                if let UpdateState::Downloading { downloaded, total } = self.state {
                    self.state = UpdateState::Downloading { downloaded: downloaded.saturating_add(len), total };
                }
                UpdateAction::Idle
            },
            UpdateEvent::Completed => {
                if let UpdateState::Downloading { .. } = self.state {
                    match &self.pending {
                        Some(l) => UpdateAction::Persist { record: l.clone() },
                        None => UpdateAction::Idle,
                    }
                } else {
                    UpdateAction::Idle
                }
            },
            UpdateEvent::Persisted => {
                if let UpdateState::Downloading { .. } = self.state {
                    match self.pending.take() {
                        Some(l) => {
                            self.installed = l;
                            self.state = UpdateState::Done;
                            UpdateAction::Idle
                        },
                        None => UpdateAction::Idle,
                    }
                } else {
                    UpdateAction::Idle
                }
            },
            UpdateEvent::Failed => {
                match self.state {
                    UpdateState::Prechecking | UpdateState::Downloading { .. } => {
                        self.state = UpdateState::NoUpdate;
                        self.pending = None;
                    },
                    _ => {},
                }
                UpdateAction::Idle
            },
        }
    }
}

} // verus!
