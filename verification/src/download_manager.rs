//! The scheduling decisions of the download manager: which download runs,
//! which waits in the queue, which waits for its information, and when the
//! manager is done.
//!
//! The manager owns the handles of the running downloads (of any type `H`);
//! the work those handles do, and the loading of download information, are
//! carried out by the caller, which reports back through the methods here.
use vstd::prelude::*;
use vstd::string::StringExecFns;

use crate::download::{ChunksInfo, Download, DownloadInfo, DownloadStatus, is_running};
use crate::rpc::messages::{RpcRequest, RpcResponse};
use crate::download::DownloadRequestMessage;

verus! {

/// A running download: its handle and the latest snapshot of its state.
pub struct ActiveDownload<H> {
    pub handle: H,
    pub core: Download,
}

/// What `start_download` decided.
pub enum StartDecision {
    /// A slot is free: the caller should start this download and, when it
    /// started, report it with `on_launched`.
    Launch(Download),
    /// No slot is free: the download waits in the queue.
    Queued,
}

/// What `download` decided.
pub enum DownloadStep {
    /// The information was loaded; this is what `start_download` decided.
    Start(StartDecision),
    /// The information must be loaded first; the caller should ask for it and
    /// report with `info_requested` (or mark the download with the error).
    RequestInfo,
    /// Nothing to do now.
    Nothing,
}

/// What the caller must do after `handle_command`, before sending the response.
pub enum FollowUp {
    Nothing,
    /// Create a download from this request and run `download` on it.
    CreateAndRun(DownloadRequestMessage),
    /// Run `download` on this download.
    RunDownload(Download),
    /// Act on this decision of `start_download`.
    Start(StartDecision),
    /// Pause the running download at this index.
    Pause(usize),
}

/// What became of asking for a download's information.
pub enum InfoRequest {
    /// It was not asked for (it is loaded, or cannot be requested yet).
    NotAsked,
    /// The request was handed to the information loader.
    Sent,
    /// The request could not be handed over; the error text.
    Failed(String),
}

/// The download as it is registered after its information was (or was not)
/// asked for: unchanged, or marked with the error when asking failed.
pub open spec fn registered_as(r: Download, d: Download, request: InfoRequest) -> bool {
    match request {
        InfoRequest::Failed(e) => {
            &&& r.id == d.id
            &&& r.request == d.request
            &&& r.status == d.status
            &&& r.chunks_info matches ChunksInfo::ErrorLoadingInfo(t) && t@
                == "Failed to load download info: "@ + e@
        },
        _ => r == d,
    }
}

/// The answer to a command, and the work that comes with it.
pub struct CommandOutcome {
    pub response: RpcResponse,
    pub follow_up: FollowUp,
}

/// Whether a download still has something to do: its information is not
/// loaded yet, it is queued for information, or it is loaded and not finished.
pub open spec fn is_pending(d: Download) -> bool {
    match d.chunks_info {
        ChunksInfo::InfoNotLoaded => true,
        ChunksInfo::Queued => true,
        ChunksInfo::InfoLoaded(_) => d.status == DownloadStatus::Created || d.status
            == DownloadStatus::Queued || is_running(d.status),
        ChunksInfo::ErrorLoadingInfo(_) => false,
    }
}

/// No two downloads share an id.
pub open spec fn unique_ids(s: Seq<Download>) -> bool {
    forall|i: int, j: int|
        0 <= i < s.len() && 0 <= j < s.len() && i != j ==> #[trigger] s[i].id != #[trigger] s[j].id
}

/// Some download has this id.
pub open spec fn has_id(s: Seq<Download>, id: i64) -> bool {
    exists|i: int| 0 <= i < s.len() && #[trigger] s[i].id == id
}

/// `s` with every download of `d`'s id replaced by `d`.
pub open spec fn replace_by_id(s: Seq<Download>, d: Download) -> Seq<Download> {
    s.map_values(|x: Download| if x.id == d.id { d } else { x })
}

/// `s` with the status of every download of this id set to `status`.
pub open spec fn set_status_by_id(s: Seq<Download>, id: i64, status: DownloadStatus) -> Seq<
    Download,
> {
    s.map_values(|x: Download| if x.id == id { Download { status: status, ..x } } else { x })
}

/// `ids` with `id` added at the end, unless it is there already.
pub open spec fn mark(ids: Seq<i64>, id: i64) -> Seq<i64> {
    if ids.contains(id) {
        ids
    } else {
        ids.push(id)
    }
}

/// `ids` without `id`.
pub open spec fn without(ids: Seq<i64>, id: i64) -> Seq<i64> {
    ids.filter(not_id(id))
}

/// Holds of every id but `id`.
pub open spec fn not_id(id: i64) -> spec_fn(i64) -> bool {
    |x: i64| x != id
}

/// A download after the outcome of loading its information: loaded
/// information is kept if some was there already; an error replaces it.
pub open spec fn apply_info(d: Download, outcome: Result<DownloadInfo, String>) -> Download {
    match outcome {
        Ok(info) => if d.chunks_info is InfoLoaded {
            d
        } else {
            Download { chunks_info: ChunksInfo::InfoLoaded(info), ..d }
        },
        Err(e) => Download { chunks_info: ChunksInfo::ErrorLoadingInfo(e), ..d },
    }
}

/// The known download with this id (meaningful when there is one).
pub open spec fn entry_of(s: Seq<Download>, id: i64) -> Download {
    s[choose|i: int| 0 <= i < s.len() && #[trigger] s[i].id == id]
}

/// `s` with the outcome of loading information applied to every download of this id.
pub open spec fn apply_info_by_id(
    s: Seq<Download>,
    id: i64,
    outcome: Result<DownloadInfo, String>,
) -> Seq<Download> {
    s.map_values(|x: Download| if x.id == id { apply_info(x, outcome) } else { x })
}

/// The known downloads after `start_download` found no free slot for `id`.
pub open spec fn queued_downloads(all: Seq<Download>, queue: Seq<i64>, id: i64) -> Seq<Download> {
    if queue.contains(id) {
        all
    } else {
        set_status_by_id(all, id, DownloadStatus::Queued)
    }
}

/// Whether a running download keeps its slot.
pub open spec fn keeps_slot<H>(a: ActiveDownload<H>) -> bool {
    is_running(a.core.status)
}

/// The text of the error answered when a download is not known.
pub open spec fn not_found_text() -> Seq<char> {
    "Download not found"@
}

/// The download manager's bookkeeping.
pub struct DownloadManager<H> {
    all: Vec<Download>,
    active: Vec<ActiveDownload<H>>,
    waiting_info: Vec<i64>,
    queue: Vec<i64>,
    dirty: Vec<i64>,
    info_loader_ready: bool,
    max_active_downloads: usize,
    shutting_down: bool,
    daemon_mode: bool,
    pretty_print: bool,
}

/// The first index of a download with this id.
fn find_download(all: &Vec<Download>, id: i64) -> (r: Option<usize>)
    ensures
        match r {
            Some(i) => i < all@.len() && all@[i as int].id == id && forall|j: int|
                0 <= j < i ==> #[trigger] all@[j].id != id,
            None => !has_id(all@, id),
        },
{
    let mut i: usize = 0;
    while i < all.len()
        invariant
            i <= all@.len(),
            forall|j: int| 0 <= j < i ==> #[trigger] all@[j].id != id,
        decreases all@.len() - i,
    {
        if all[i].id == id {
            return Some(i);
        }
        i = i + 1;
    }
    None
}

/// Whether `id` is in `ids`.
fn contains_id(ids: &Vec<i64>, id: i64) -> (r: bool)
    ensures
        r == ids@.contains(id),
{
    let mut i: usize = 0;
    while i < ids.len()
        invariant
            i <= ids@.len(),
            forall|j: int| 0 <= j < i ==> #[trigger] ids@[j] != id,
        decreases ids@.len() - i,
    {
        if ids[i] == id {
            assert(ids@[i as int] == id);
            return true;
        }
        i = i + 1;
    }
    false
}

/// Removes every `id` from `ids`, keeping the order of the rest.
fn remove_id(ids: &mut Vec<i64>, id: i64)
    ensures
        final(ids)@ == without(old(ids)@, id),
{
    let ghost orig = ids@;
    let mut kept: Vec<i64> = Vec::new();
    let mut i: usize = 0;
    while i < ids.len()
        invariant
            ids@ == orig,
            i <= orig.len(),
            kept@ == without(orig.take(i as int), id),
        decreases orig.len() - i,
    {
        proof {
            reveal_with_fuel(Seq::filter, 1);
            assert(orig.take(i + 1).drop_last() =~= orig.take(i as int));
        }
        if ids[i] != id {
            kept.push(ids[i]);
        }
        i = i + 1;
    }
    assert(orig.take(orig.len() as int) =~= orig);
    *ids = kept;
}

/// Without `id`, the rest keep having no duplicates, and `id` is gone.
proof fn lemma_without_no_duplicates(ids: Seq<i64>, id: i64)
    requires
        ids.no_duplicates(),
    ensures
        without(ids, id).no_duplicates(),
        !without(ids, id).contains(id),
    decreases ids.len(),
{
    reveal_with_fuel(Seq::filter, 1);
    if ids.len() > 0 {
        let init = ids.drop_last();
        assert(init.no_duplicates());
        lemma_without_no_duplicates(init, id);
        let f = without(init, id);
        if ids.last() != id {
            assert forall|k: int| 0 <= k < f.len() implies f[k] != ids.last() by {
                assert(f.contains(f[k]));
                init.lemma_filter_contains_rev(not_id(id), f[k]);
                let j = choose|j: int| 0 <= j < init.len() && init[j] == f[k];
                assert(init[j] == ids[j]);
            }
            assert(without(ids, id) == f.push(ids.last()));
        }
    }
}

/// Queuing is first come, first served: an id not yet queued goes to the back,
/// behind every id already waiting, which keep their order; an id already
/// queued keeps its place.
pub proof fn lemma_queue_appends(queue: Seq<i64>, id: i64)
    ensures
        !queue.contains(id) ==> mark(queue, id).len() == queue.len() + 1,
        !queue.contains(id) ==> mark(queue, id)[queue.len() as int] == id,
        !queue.contains(id) ==> forall|i: int|
            0 <= i < queue.len() ==> #[trigger] mark(queue, id)[i] == queue[i],
        queue.contains(id) ==> mark(queue, id) == queue,
{
}

/// Of two downloads queued one after the other, the earlier is ahead of the
/// later, behind those that were already waiting.
pub proof fn lemma_queue_order(queue: Seq<i64>, first: i64, second: i64)
    requires
        !queue.contains(first),
        !queue.contains(second),
        first != second,
    ensures
        mark(mark(queue, first), second) == queue + seq![first, second],
{
    assert(!queue.push(first).contains(second)) by {
        if queue.push(first).contains(second) {
            let k = choose|k: int| 0 <= k < queue.push(first).len() && queue.push(first)[k] == second;
            if k < queue.len() {
                assert(queue[k] == second);
            }
        }
    }
    assert(mark(mark(queue, first), second) =~= queue + seq![first, second]);
}

/// Which downloads still have something to do: one whose information is not
/// loaded yet, or is queued for loading; one whose information failed to load
/// has nothing; a loaded one has something exactly when it is created,
/// queued, connecting, retrying or downloading, and nothing once it is
/// paused, complete, failed or cancelled.
pub proof fn lemma_pending_cases(d: Download)
    ensures
        d.chunks_info is InfoNotLoaded ==> is_pending(d),
        d.chunks_info is Queued ==> is_pending(d),
        d.chunks_info is ErrorLoadingInfo ==> !is_pending(d),
        d.chunks_info is InfoLoaded ==> (is_pending(d) <==> (d.status == DownloadStatus::Created
            || d.status == DownloadStatus::Queued || d.status == DownloadStatus::Connecting
            || d.status == DownloadStatus::Retrying || d.status == DownloadStatus::Downloading)),
{
}

impl<H> DownloadManager<H> {
    /// The downloads the manager knows, newest first.
    pub closed spec fn downloads(&self) -> Seq<Download> {
        self.all@
    }

    /// The latest snapshots of the running downloads, most recently started first.
    pub closed spec fn active_cores(&self) -> Seq<Download> {
        self.active@.map_values(|a: ActiveDownload<H>| a.core)
    }

    /// The ids of the downloads waiting for a free slot, first in line first.
    pub closed spec fn queue(&self) -> Seq<i64> {
        self.queue@
    }

    /// The ids of the downloads waiting for their information.
    pub closed spec fn waiting_info(&self) -> Seq<i64> {
        self.waiting_info@
    }

    /// The ids of the downloads changed since they were last stored.
    pub closed spec fn dirty(&self) -> Seq<i64> {
        self.dirty@
    }

    /// How many downloads may run at once.
    pub closed spec fn max_active(&self) -> nat {
        self.max_active_downloads as nat
    }

    /// Whether information about downloads can be requested.
    pub closed spec fn info_loader_ready(&self) -> bool {
        self.info_loader_ready
    }

    /// Whether the manager is shutting down.
    pub closed spec fn is_shutting_down(&self) -> bool {
        self.shutting_down
    }

    /// Whether the manager runs as a daemon (it then never stops by itself).
    pub closed spec fn is_daemon(&self) -> bool {
        self.daemon_mode
    }

    /// Whether progress is printed.
    pub closed spec fn prints_progress(&self) -> bool {
        self.pretty_print
    }

    /// What holds of the bookkeeping at all times: no more downloads run than
    /// allowed, no id is queued twice, and no two known downloads share an id.
    pub closed spec fn wf(&self) -> bool {
        &&& self.active@.len() <= self.max_active_downloads
        &&& self.queue@.no_duplicates()
        &&& unique_ids(self.all@)
    }

    /// What well-formedness means: no more downloads run than allowed, no id
    /// is queued twice, and no two known downloads share an id. Every
    /// operation of the manager keeps it.
    pub proof fn lemma_wf_meaning(&self)
        ensures
            self.wf() <==> {
                &&& self.active_cores().len() <= self.max_active()
                &&& self.queue().no_duplicates()
                &&& unique_ids(self.downloads())
            },
    {
    }

    /// Equal settings mean the same slot limit, and the same answer to whether
    /// information can be requested, whether the manager is shutting down, is
    /// a daemon, and prints progress.
    pub proof fn lemma_same_settings(&self, other: &Self)
        requires
            self.settings() == other.settings(),
        ensures
            self.max_active() == other.max_active(),
            self.info_loader_ready() == other.info_loader_ready(),
            self.is_shutting_down() == other.is_shutting_down(),
            self.is_daemon() == other.is_daemon(),
            self.prints_progress() == other.prints_progress(),
    {
    }

    /// The running downloads, most recently started first.
    pub closed spec fn active_entries(&self) -> Seq<ActiveDownload<H>> {
        self.active@
    }

    /// The handles of the running downloads, in the order of `active_cores`.
    pub closed spec fn active_handles(&self) -> Seq<H> {
        self.active@.map_values(|a: ActiveDownload<H>| a.handle)
    }

    /// The settings: the slot limit, whether information can be requested,
    /// whether shutting down, whether a daemon, whether progress is printed.
    pub closed spec fn settings(&self) -> (nat, bool, bool, bool, bool) {
        (
            self.max_active_downloads as nat,
            self.info_loader_ready,
            self.shutting_down,
            self.daemon_mode,
            self.pretty_print,
        )
    }

    /// A manager that knows no download yet.
    pub fn new(max_active_downloads: usize, daemon_mode: bool, pretty_print: bool) -> (m: Self)
        ensures
            m.wf(),
            m.downloads() == Seq::<Download>::empty(),
            m.active_cores() == Seq::<Download>::empty(),
            m.queue() == Seq::<i64>::empty(),
            m.waiting_info() == Seq::<i64>::empty(),
            m.dirty() == Seq::<i64>::empty(),
            m.max_active() == max_active_downloads,
            !m.info_loader_ready(),
            !m.is_shutting_down(),
            m.is_daemon() == daemon_mode,
            m.prints_progress() == pretty_print,
    {
        let m = DownloadManager {
            all: Vec::new(),
            active: Vec::new(),
            waiting_info: Vec::new(),
            queue: Vec::new(),
            dirty: Vec::new(),
            info_loader_ready: false,
            max_active_downloads,
            shutting_down: false,
            daemon_mode,
            pretty_print,
        };
        assert(m.active_cores() =~= Seq::<Download>::empty());
        m
    }

    /// Information about downloads can be requested from now on.
    pub fn set_info_loader_ready(&mut self)
        requires
            old(self).wf(),
        ensures
            final(self).wf(),
            final(self).info_loader_ready(),
            final(self).downloads() == old(self).downloads(),
            final(self).active_cores() == old(self).active_cores(),
            final(self).active_handles() == old(self).active_handles(),
            final(self).queue() == old(self).queue(),
            final(self).waiting_info() == old(self).waiting_info(),
            final(self).dirty() == old(self).dirty(),
            final(self).max_active() == old(self).max_active(),
            final(self).is_shutting_down() == old(self).is_shutting_down(),
            final(self).is_daemon() == old(self).is_daemon(),
            final(self).prints_progress() == old(self).prints_progress(),
    {
        self.info_loader_ready = true;
    }

    /// From now on the manager is shutting down.
    pub fn begin_shutdown(&mut self)
        requires
            old(self).wf(),
        ensures
            final(self).wf(),
            final(self).is_shutting_down(),
            final(self).downloads() == old(self).downloads(),
            final(self).active_cores() == old(self).active_cores(),
            final(self).active_handles() == old(self).active_handles(),
            final(self).queue() == old(self).queue(),
            final(self).waiting_info() == old(self).waiting_info(),
            final(self).dirty() == old(self).dirty(),
            final(self).max_active() == old(self).max_active(),
            final(self).info_loader_ready() == old(self).info_loader_ready(),
            final(self).is_daemon() == old(self).is_daemon(),
            final(self).prints_progress() == old(self).prints_progress(),
    {
        self.shutting_down = true;
    }

    /// Notes that `id` changed, unless it is noted already.
    fn mark_dirty(&mut self, id: i64)
        ensures
            final(self).dirty@ == mark(old(self).dirty@, id),
            final(self).all == old(self).all,
            final(self).active == old(self).active,
            final(self).queue == old(self).queue,
            final(self).waiting_info == old(self).waiting_info,
            final(self).settings() == old(self).settings(),
    {
        if !contains_id(&self.dirty, id) {
            self.dirty.push(id);
        }
    }

    /// Replaces the known download of `download`'s id by `download`, and notes
    /// it as changed; does nothing when no download has that id.
    fn update_original_download(&mut self, download: Download)
        requires
            old(self).wf(),
        ensures
            final(self).wf(),
            final(self).all@ == replace_by_id(old(self).all@, download),
            final(self).dirty@ == (if has_id(old(self).all@, download.id) {
                mark(old(self).dirty@, download.id)
            } else {
                old(self).dirty@
            }),
            final(self).active == old(self).active,
            final(self).queue == old(self).queue,
            final(self).waiting_info == old(self).waiting_info,
            final(self).settings() == old(self).settings(),
    {
        let id = download.id;
        match find_download(&self.all, id) {
            Some(i) => {
                let ghost before = self.all@;
                self.all[i] = download;
                assert forall|k: int| 0 <= k < before.len() && k != i implies before[k].id != id by {
                    assert(before[k].id != before[i as int].id);
                }
                assert(self.all@ =~= replace_by_id(before, download));
                self.mark_dirty(id);
            },
            None => {
                assert(self.all@ =~= replace_by_id(self.all@, download));
            },
        }
    }

    /// Starts `download` when a slot is free; otherwise puts it at the back of
    /// the queue (once) and marks it queued.
    pub fn start_download(&mut self, download: Download) -> (r: StartDecision)
        requires
            old(self).wf(),
        ensures
            final(self).wf(),
            final(self).active_entries() == old(self).active_entries(),
            final(self).active_cores() == old(self).active_cores(),
            final(self).active_handles() == old(self).active_handles(),
            final(self).waiting_info() == old(self).waiting_info(),
            final(self).dirty() == old(self).dirty(),
            final(self).settings() == old(self).settings(),
            final(self).max_active() == old(self).max_active(),
            old(self).active_cores().len() < old(self).max_active() ==> {
                &&& r == StartDecision::Launch(download)
                &&& final(self).downloads() == old(self).downloads()
                &&& final(self).queue() == old(self).queue()
            },
            old(self).active_cores().len() >= old(self).max_active() && !old(self).queue().contains(
                download.id,
            ) ==> final(self).queue() == old(self).queue().push(download.id),
            old(self).active_cores().len() >= old(self).max_active() ==> {
                &&& r is Queued
                &&& final(self).queue() == mark(old(self).queue(), download.id)
                &&& final(self).downloads() == (if old(self).queue().contains(download.id) {
                    old(self).downloads()
                } else {
                    set_status_by_id(old(self).downloads(), download.id, DownloadStatus::Queued)
                })
            },
    {
        if self.active.len() < self.max_active_downloads {
            return StartDecision::Launch(download);
        }
        let id = download.id;
        if !contains_id(&self.queue, id) {
            self.queue.push(id);
            match find_download(&self.all, id) {
                Some(i) => {
                    let ghost before = self.all@;
                    let mut d = self.all[i].duplicate();
                    d.status = DownloadStatus::Queued;
                    self.all[i] = d;
                    assert forall|k: int| 0 <= k < before.len() && k != i implies before[k].id
                        != id by {
                        assert(before[k].id != before[i as int].id);
                    }
                    assert(self.all@ =~= set_status_by_id(before, id, DownloadStatus::Queued));
                },
                None => {
                    assert(self.all@ =~= set_status_by_id(self.all@, id, DownloadStatus::Queued));
                },
            }
        }
        StartDecision::Queued
    }

    /// Records that a download `start_download` let through has started:
    /// it leaves the queue, runs first in line, and its snapshot replaces the
    /// known download.
    pub fn on_launched(&mut self, handle: H, core: Download)
        requires
            old(self).wf(),
            old(self).active_cores().len() < old(self).max_active(),
        ensures
            final(self).wf(),
            final(self).queue() == without(old(self).queue(), core.id),
            final(self).active_cores() == seq![core] + old(self).active_cores(),
            final(self).active_handles() == seq![handle] + old(self).active_handles(),
            final(self).downloads() == replace_by_id(old(self).downloads(), core),
            final(self).dirty() == (if has_id(old(self).downloads(), core.id) {
                mark(old(self).dirty(), core.id)
            } else {
                old(self).dirty()
            }),
            final(self).waiting_info() == old(self).waiting_info(),
            final(self).settings() == old(self).settings(),
    {
        let ghost old_active = self.active@;
        proof {
            lemma_without_no_duplicates(self.queue@, core.id);
        }
        remove_id(&mut self.queue, core.id);
        let snapshot = core.duplicate();
        let ghost h = handle;
        self.active.insert(0, ActiveDownload { handle, core: snapshot });
        assert(self.active@.map_values(|a: ActiveDownload<H>| a.core) =~= seq![core]
            + old_active.map_values(|a: ActiveDownload<H>| a.core));
        assert(self.active@.map_values(|a: ActiveDownload<H>| a.handle) =~= seq![h]
            + old_active.map_values(|a: ActiveDownload<H>| a.handle));
        self.update_original_download(core);
    }

    /// Starts handling a download: notes it as changed, then starts it when its
    /// information is loaded, or asks for the information when that can be done.
    /// The caller then registers the download with `register`.
    pub fn download(&mut self, download: &Download) -> (r: DownloadStep)
        requires
            old(self).wf(),
        ensures
            final(self).wf(),
            final(self).dirty() == old(self).dirty().push(download.id),
            final(self).active_cores() == old(self).active_cores(),
            final(self).active_handles() == old(self).active_handles(),
            final(self).waiting_info() == old(self).waiting_info(),
            final(self).settings() == old(self).settings(),
            download.chunks_info is InfoLoaded ==> {
                &&& old(self).active_cores().len() < old(self).max_active() ==> {
                    &&& r == DownloadStep::Start(StartDecision::Launch(*download))
                    &&& final(self).downloads() == old(self).downloads()
                    &&& final(self).queue() == old(self).queue()
                }
                &&& old(self).active_cores().len() >= old(self).max_active() ==> {
                    &&& r == DownloadStep::Start(StartDecision::Queued)
                    &&& final(self).queue() == mark(old(self).queue(), download.id)
                    &&& final(self).downloads() == (if old(self).queue().contains(download.id) {
                        old(self).downloads()
                    } else {
                        set_status_by_id(old(self).downloads(), download.id, DownloadStatus::Queued)
                    })
                }
            },
            !(download.chunks_info is InfoLoaded) ==> {
                &&& r == (if old(self).info_loader_ready() {
                    DownloadStep::RequestInfo
                } else {
                    DownloadStep::Nothing
                })
                &&& final(self).downloads() == old(self).downloads()
                &&& final(self).queue() == old(self).queue()
            },
    {
        self.dirty.push(download.id);
        if download.has_info_loaded() {
            let decision = self.start_download(download.duplicate());
            DownloadStep::Start(decision)
        } else if self.info_loader_ready {
            DownloadStep::RequestInfo
        } else {
            DownloadStep::Nothing
        }
    }

    /// Finishes handling a download after `download`: notes that its
    /// information was asked for, or marks it with the error when asking
    /// failed; then adds it as the newest known download unless one with its
    /// id is known.
    pub fn finish_download(&mut self, download: Download, request: InfoRequest)
        requires
            old(self).wf(),
        ensures
            final(self).wf(),
            final(self).waiting_info() == (if request is Sent {
                old(self).waiting_info().push(download.id)
            } else {
                old(self).waiting_info()
            }),
            has_id(old(self).downloads(), download.id) ==> final(self).downloads() == old(
                self,
            ).downloads(),
            !has_id(old(self).downloads(), download.id) ==> {
                &&& final(self).downloads().len() == old(self).downloads().len() + 1
                &&& final(self).downloads().drop_first() == old(self).downloads()
                &&& registered_as(final(self).downloads()[0], download, request)
            },
            has_id(final(self).downloads(), download.id),
            final(self).active_cores() == old(self).active_cores(),
            final(self).active_handles() == old(self).active_handles(),
            final(self).queue() == old(self).queue(),
            final(self).dirty() == old(self).dirty(),
            final(self).settings() == old(self).settings(),
    {
        let id = download.id;
        let mut d = download;
        match &request {
            InfoRequest::Sent => self.info_requested(id),
            InfoRequest::Failed(e) => info_request_error(&mut d, e.as_str()),
            InfoRequest::NotAsked => {},
        }
        self.register(d);
        assert(!has_id(old(self).downloads(), id) ==> self.downloads().drop_first() =~= old(
            self,
        ).downloads());
    }

    /// Records that the information about `id` was asked for.
    pub fn info_requested(&mut self, id: i64)
        requires
            old(self).wf(),
        ensures
            final(self).wf(),
            final(self).waiting_info() == old(self).waiting_info().push(id),
            final(self).downloads() == old(self).downloads(),
            final(self).active_cores() == old(self).active_cores(),
            final(self).active_handles() == old(self).active_handles(),
            final(self).queue() == old(self).queue(),
            final(self).dirty() == old(self).dirty(),
            final(self).settings() == old(self).settings(),
    {
        self.waiting_info.push(id);
    }

    /// Adds `download` as the newest known download, unless one with its id is known.
    pub fn register(&mut self, download: Download)
        requires
            old(self).wf(),
        ensures
            final(self).wf(),
            final(self).downloads() == (if has_id(old(self).downloads(), download.id) {
                old(self).downloads()
            } else {
                seq![download] + old(self).downloads()
            }),
            has_id(final(self).downloads(), download.id),
            final(self).active_cores() == old(self).active_cores(),
            final(self).active_handles() == old(self).active_handles(),
            final(self).queue() == old(self).queue(),
            final(self).waiting_info() == old(self).waiting_info(),
            final(self).dirty() == old(self).dirty(),
            final(self).settings() == old(self).settings(),
    {
        let ghost before = self.all@;
        let ghost d = download;
        if find_download(&self.all, download.id).is_none() {
            self.all.insert(0, download);
            assert(self.all@ =~= seq![d] + before);
            assert(self.all@[0].id == d.id);
            assert forall|i: int, j: int|
                0 <= i < self.all@.len() && 0 <= j < self.all@.len() && i != j implies
                #[trigger] self.all@[i].id != #[trigger] self.all@[j].id by {
                if i > 0 && j > 0 {
                    assert(self.all@[i] == before[i - 1]);
                    assert(self.all@[j] == before[j - 1]);
                } else if i == 0 {
                    assert(self.all@[j] == before[j - 1]);
                } else {
                    assert(self.all@[i] == before[i - 1]);
                }
            }
        }
    }

    /// Answers a command. What the answer needs done first (creating and
    /// running a download, starting one, pausing one) is in `follow_up`.
    pub fn handle_command(&mut self, request: RpcRequest) -> (r: CommandOutcome)
        requires
            old(self).wf(),
        ensures
            final(self).wf(),
            final(self).active_entries() == old(self).active_entries(),
            final(self).settings() == old(self).settings(),
            match request {
                RpcRequest::SetDownloadInfo((id, outcome)) => {
                    let all1 = apply_info_by_id(old(self).downloads(), id, outcome);
                    let starts = old(self).waiting_info().contains(id) && has_id(all1, id)
                        && entry_of(all1, id).chunks_info is InfoLoaded;
                    let free = old(self).active_cores().len() < old(self).max_active();
                    &&& r.response is Recieved
                    &&& final(self).dirty() == (if has_id(old(self).downloads(), id) {
                        old(self).dirty().push(id)
                    } else {
                        old(self).dirty()
                    })
                    &&& starts ==> final(self).waiting_info() == without(
                        old(self).waiting_info(),
                        id,
                    )
                    &&& !starts ==> {
                        &&& final(self).waiting_info() == old(self).waiting_info()
                        &&& r.follow_up is Nothing
                        &&& final(self).downloads() == all1
                        &&& final(self).queue() == old(self).queue()
                    }
                    &&& starts && free ==> {
                        &&& r.follow_up == FollowUp::Start(
                            StartDecision::Launch(entry_of(all1, id)),
                        )
                        &&& final(self).downloads() == all1
                        &&& final(self).queue() == old(self).queue()
                    }
                    &&& starts && !free ==> {
                        &&& r.follow_up == FollowUp::Start(StartDecision::Queued)
                        &&& final(self).downloads() == queued_downloads(all1, old(self).queue(), id)
                        &&& final(self).queue() == mark(old(self).queue(), id)
                    }
                },
                _ => {
                    &&& final(self).downloads() == old(self).downloads()
                    &&& final(self).queue() == old(self).queue()
                    &&& final(self).waiting_info() == old(self).waiting_info()
                    &&& final(self).dirty() == old(self).dirty()
                    &&& match request {
                        RpcRequest::Heartbeat => r.response is Heartbeat && r.follow_up is Nothing,
                        RpcRequest::DownloadRequest(msg) => r.response is Recieved
                            && r.follow_up == FollowUp::CreateAndRun(msg),
                        RpcRequest::GetDownloads(_) => r.follow_up is Nothing
                            && (r.response matches RpcResponse::Downloads(v) && v@ == old(self).downloads()),
                        RpcRequest::Shutdown => r.response is Recieved && r.follow_up is Nothing,
                        RpcRequest::PauseDownload(id) => if exists|i: int|
                            0 <= i < old(self).active_cores().len()
                                && #[trigger] old(self).active_cores()[i].id == id {
                            &&& r.response is Success
                            &&& (r.follow_up matches FollowUp::Pause(i) && i < old(self).active_cores().len()
                                && old(self).active_cores()[i as int].id == id
                                && forall|j: int| 0 <= j < i ==> #[trigger] old(self).active_cores()[j].id != id)
                        } else {
                            &&& (r.response matches RpcResponse::Error(e) && e@ == not_found_text())
                            &&& r.follow_up is Nothing
                        },
                        RpcRequest::ResumeDownload(id) => if has_id(old(self).downloads(), id) {
                            &&& r.response is Success
                            &&& r.follow_up == FollowUp::RunDownload(entry_of(old(self).downloads(), id))
                        } else {
                            &&& (r.response matches RpcResponse::Error(e) && e@ == not_found_text())
                            &&& r.follow_up is Nothing
                        },
                        _ => r.response is RequestNotSupported && r.follow_up is Nothing,
                    }
                },
            },
    {
        match request {
            RpcRequest::Heartbeat => CommandOutcome {
                response: RpcResponse::Heartbeat,
                follow_up: FollowUp::Nothing,
            },
            RpcRequest::DownloadRequest(msg) => CommandOutcome {
                response: RpcResponse::Recieved,
                follow_up: FollowUp::CreateAndRun(msg),
            },
            RpcRequest::SetDownloadInfo((id, outcome)) => {
                let follow_up = self.set_download_info(id, outcome);
                CommandOutcome { response: RpcResponse::Recieved, follow_up }
            },
            RpcRequest::GetDownloads(_) => CommandOutcome {
                response: RpcResponse::Downloads(self.downloads_snapshot()),
                follow_up: FollowUp::Nothing,
            },
            RpcRequest::Shutdown => CommandOutcome {
                response: RpcResponse::Recieved,
                follow_up: FollowUp::Nothing,
            },
            RpcRequest::PauseDownload(id) => match self.position_active(id) {
                Some(i) => CommandOutcome {
                    response: RpcResponse::Success,
                    follow_up: FollowUp::Pause(i),
                },
                None => CommandOutcome {
                    response: RpcResponse::Error(not_found()),
                    follow_up: FollowUp::Nothing,
                },
            },
            RpcRequest::ResumeDownload(id) => match find_download(&self.all, id) {
                Some(i) => {
                    let d = self.all[i].duplicate();
                    proof {
                        self.lemma_entry_at(i as int, id);
                    }
                    CommandOutcome {
                        response: RpcResponse::Success,
                        follow_up: FollowUp::RunDownload(d),
                    }
                },
                None => CommandOutcome {
                    response: RpcResponse::Error(not_found()),
                    follow_up: FollowUp::Nothing,
                },
            },
            _ => CommandOutcome {
                response: RpcResponse::RequestNotSupported,
                follow_up: FollowUp::Nothing,
            },
        }
    }

    /// The known download with an id is the one at any index holding that id.
    proof fn lemma_entry_at(&self, i: int, id: i64)
        requires
            self.wf(),
            0 <= i < self.all@.len(),
            self.all@[i].id == id,
        ensures
            entry_of(self.all@, id) == self.all@[i],
    {
        let k = choose|k: int| 0 <= k < self.all@.len() && #[trigger] self.all@[k].id == id;
        assert(self.all@[k].id == self.all@[i].id);
    }

    /// The first running download with this id.
    fn position_active(&self, id: i64) -> (r: Option<usize>)
        ensures
            match r {
                Some(i) => i < self.active_cores().len() && self.active_cores()[i as int].id == id
                    && forall|j: int| 0 <= j < i ==> #[trigger] self.active_cores()[j].id != id,
                None => !exists|i: int|
                    0 <= i < self.active_cores().len() && #[trigger] self.active_cores()[i].id == id,
            },
    {
        let mut i: usize = 0;
        while i < self.active.len()
            invariant
                i <= self.active@.len(),
                forall|j: int| 0 <= j < i ==> #[trigger] self.active@[j].core.id != id,
            decreases self.active@.len() - i,
        {
            if self.active[i].core.id == id {
                return Some(i);
            }
            i = i + 1;
        }
        None
    }

    /// Applies the outcome of loading the information about `id`, and starts the
    /// download when it was waiting for that information and now has it.
    fn set_download_info(&mut self, id: i64, outcome: Result<DownloadInfo, String>) -> (r: FollowUp)
        requires
            old(self).wf(),
        ensures
            ({
                let all1 = apply_info_by_id(old(self).downloads(), id, outcome);
                let starts = old(self).waiting_info().contains(id) && has_id(all1, id)
                    && entry_of(all1, id).chunks_info is InfoLoaded;
                let free = old(self).active_cores().len() < old(self).max_active();
                &&& final(self).wf()
                &&& final(self).active_entries() == old(self).active_entries()
                &&& final(self).settings() == old(self).settings()
                &&& final(self).dirty() == (if has_id(old(self).downloads(), id) {
                    old(self).dirty().push(id)
                } else {
                    old(self).dirty()
                })
                &&& starts ==> final(self).waiting_info() == without(old(self).waiting_info(), id)
                &&& !starts ==> {
                    &&& final(self).waiting_info() == old(self).waiting_info()
                    &&& r is Nothing
                    &&& final(self).downloads() == all1
                    &&& final(self).queue() == old(self).queue()
                }
                &&& starts && free ==> {
                    &&& r == FollowUp::Start(StartDecision::Launch(entry_of(all1, id)))
                    &&& final(self).downloads() == all1
                    &&& final(self).queue() == old(self).queue()
                }
                &&& starts && !free ==> {
                    &&& r == FollowUp::Start(StartDecision::Queued)
                    &&& final(self).downloads() == queued_downloads(all1, old(self).queue(), id)
                    &&& final(self).queue() == mark(old(self).queue(), id)
                }
            }),
    {
        let ghost before = self.all@;
        let ghost all1 = apply_info_by_id(before, id, outcome);
        match find_download(&self.all, id) {
            Some(i) => {
                let mut d = self.all[i].duplicate();
                match outcome {
                    Ok(info) => {
                        if !d.has_info_loaded() {
                            d.chunks_info = ChunksInfo::InfoLoaded(info);
                        }
                    },
                    Err(e) => {
                        d.chunks_info = ChunksInfo::ErrorLoadingInfo(e);
                    },
                }
                self.all[i] = d;
                assert forall|k: int| 0 <= k < before.len() && k != i implies before[k].id != id by {
                    assert(before[k].id != before[i as int].id);
                }
                assert(self.all@ =~= all1);
                self.dirty.push(id);
            },
            None => {
                assert(self.all@ =~= all1);
            },
        }
        assert(unique_ids(self.all@)) by {
            assert forall|a: int, b: int|
                0 <= a < self.all@.len() && 0 <= b < self.all@.len() && a != b implies
                #[trigger] self.all@[a].id != #[trigger] self.all@[b].id by {
                assert(self.all@[a].id == before[a].id);
                assert(self.all@[b].id == before[b].id);
            }
        }
        if contains_id(&self.waiting_info, id) {
            match find_download(&self.all, id) {
                Some(i) => {
                    proof {
                        self.lemma_entry_at(i as int, id);
                    }
                    if self.all[i].has_info_loaded() {
                        let d = self.all[i].duplicate();
                        assert(has_id(all1, id)) by {
                            assert(all1[i as int].id == id);
                        }
                        let ghost mid_waiting = self.waiting_info@;
                        let decision = self.start_download(d);
                        remove_id(&mut self.waiting_info, id);
                        assert(mid_waiting == old(self).waiting_info@);
                        return FollowUp::Start(decision);
                    }
                },
                None => {},
            }
        }
        FollowUp::Nothing
    }

    /// Records the latest snapshot of the running download at `index`; the
    /// snapshot also replaces the known download, which is noted as changed.
    pub fn record_progress(&mut self, index: usize, core: Download)
        requires
            old(self).wf(),
            index < old(self).active_cores().len(),
            core.id == old(self).active_cores()[index as int].id,
        ensures
            final(self).wf(),
            final(self).active_cores() == old(self).active_cores().update(index as int, core),
            final(self).active_handles() == old(self).active_handles(),
            final(self).downloads() == replace_by_id(old(self).downloads(), core),
            final(self).dirty() == (if has_id(old(self).downloads(), core.id) {
                mark(old(self).dirty(), core.id)
            } else {
                old(self).dirty()
            }),
            final(self).queue() == old(self).queue(),
            final(self).waiting_info() == old(self).waiting_info(),
            final(self).settings() == old(self).settings(),
    {
        let ghost before = self.active@;
        let entry = self.active.remove(index);
        let snapshot = core.duplicate();
        self.active.insert(index, ActiveDownload { handle: entry.handle, core: snapshot });
        assert(self.active@.map_values(|a: ActiveDownload<H>| a.core) =~= before.map_values(
            |a: ActiveDownload<H>| a.core,
        ).update(index as int, core));
        assert(self.active@.map_values(|a: ActiveDownload<H>| a.handle) =~= before.map_values(
            |a: ActiveDownload<H>| a.handle,
        ));
        self.update_original_download(core);
    }

    /// Frees the slots of the downloads that no longer run (paused, finished,
    /// failed, ...), keeping the order of the rest.
    pub fn retain_running(&mut self)
        requires
            old(self).wf(),
        ensures
            final(self).wf(),
            final(self).active_entries() == old(self).active_entries().filter(
                |a: ActiveDownload<H>| keeps_slot(a),
            ),
            final(self).downloads() == old(self).downloads(),
            final(self).queue() == old(self).queue(),
            final(self).waiting_info() == old(self).waiting_info(),
            final(self).dirty() == old(self).dirty(),
            final(self).settings() == old(self).settings(),
    {
        let ghost orig = self.active@;
        let ghost p = |a: ActiveDownload<H>| keeps_slot(a);
        let mut rest: Vec<ActiveDownload<H>> = Vec::new();
        std::mem::swap(&mut rest, &mut self.active);
        let mut kept: Vec<ActiveDownload<H>> = Vec::new();
        let mut i: usize = 0;
        while rest.len() > 0
            invariant
                i <= orig.len(),
                orig.len() <= usize::MAX,
                p == (|a: ActiveDownload<H>| keeps_slot(a)),
                rest@ == orig.skip(i as int),
                kept@ == orig.take(i as int).filter(p),
                kept@.len() <= i,
            decreases rest@.len(),
        {
            proof {
                reveal_with_fuel(Seq::filter, 1);
                assert(orig.take(i + 1).drop_last() =~= orig.take(i as int));
                assert(orig.take(i + 1).last() == orig[i as int]);
                orig.take(i as int).lemma_filter_len(p);
            }
            assert(rest@.len() == orig.len() - i);
            let ghost oi = orig[i as int];
            let a = rest.remove(0);
            assert(a == oi);
            assert(orig.take(i + 1).filter(p) == (if p(oi) {
                orig.take(i as int).filter(p).push(oi)
            } else {
                orig.take(i as int).filter(p)
            }));
            if a.core.status == DownloadStatus::Connecting || a.core.status == DownloadStatus::Retrying
                || a.core.status == DownloadStatus::Downloading {
                kept.push(a);
            }
            assert(rest@ =~= orig.skip(i + 1));
            i = i + 1;
        }
        assert(orig.take(orig.len() as int) =~= orig);
        self.active = kept;
    }

    /// Takes the first download off the queue when a slot is free, and gives a
    /// copy of it back (none when it is not known).
    pub fn next_from_queue(&mut self) -> (r: Option<Download>)
        requires
            old(self).wf(),
        ensures
            final(self).wf(),
            final(self).active_entries() == old(self).active_entries(),
            final(self).downloads() == old(self).downloads(),
            final(self).waiting_info() == old(self).waiting_info(),
            final(self).dirty() == old(self).dirty(),
            final(self).settings() == old(self).settings(),
            old(self).active_cores().len() < old(self).max_active() && old(self).queue().len() > 0
                ==> {
                let next = old(self).queue()[0];
                &&& final(self).queue() == old(self).queue().drop_first()
                &&& r == (if has_id(old(self).downloads(), next) {
                    Some(entry_of(old(self).downloads(), next))
                } else {
                    None
                })
            },
            !(old(self).active_cores().len() < old(self).max_active() && old(self).queue().len()
                > 0) ==> {
                &&& r is None
                &&& final(self).queue() == old(self).queue()
            },
    {
        if self.active.len() < self.max_active_downloads && self.queue.len() > 0 {
            let next = self.queue.remove(0);
            proof {
                assert forall|a: int, b: int|
                    0 <= a < self.queue@.len() && 0 <= b < self.queue@.len() && a != b implies
                    self.queue@[a] != self.queue@[b] by {
                    assert(self.queue@[a] == old(self).queue@[a + 1]);
                    assert(self.queue@[b] == old(self).queue@[b + 1]);
                }
                assert(self.queue@ =~= old(self).queue@.drop_first());
            }
            match find_download(&self.all, next) {
                Some(i) => {
                    proof {
                        self.lemma_entry_at(i as int, next);
                    }
                    Some(self.all[i].duplicate())
                },
                None => None,
            }
        } else {
            None
        }
    }

    /// A manager that knows a loaded download still connecting, retrying or
    /// downloading does not stop by itself.
    pub proof fn lemma_running_download_keeps_running(&self, i: int)
        requires
            0 <= i < self.downloads().len(),
            self.downloads()[i].chunks_info is InfoLoaded,
            self.downloads()[i].status == DownloadStatus::Connecting || self.downloads()[i].status
                == DownloadStatus::Retrying || self.downloads()[i].status == DownloadStatus::Downloading,
        ensures
            exists|j: int| 0 <= j < self.downloads().len() && is_pending(#[trigger] self.downloads()[j]),
    {
        lemma_pending_cases(self.downloads()[i]);
    }

    /// Whether the manager should stop by itself: it is not a daemon, is not
    /// already shutting down, and no known download has anything left to do.
    pub fn should_shut_down(&self) -> (r: bool)
        ensures
            r == (!self.is_daemon() && !self.is_shutting_down() && !exists|i: int|
                0 <= i < self.downloads().len() && is_pending(#[trigger] self.downloads()[i])),
    {
        if self.daemon_mode || self.shutting_down {
            return false;
        }
        let mut i: usize = 0;
        while i < self.all.len()
            invariant
                i <= self.all@.len(),
                !self.daemon_mode,
                !self.shutting_down,
                forall|j: int| 0 <= j < i ==> !is_pending(#[trigger] self.all@[j]),
            decreases self.all@.len() - i,
        {
            let pending = match &self.all[i].chunks_info {
                ChunksInfo::InfoNotLoaded => true,
                ChunksInfo::Queued => true,
                ChunksInfo::InfoLoaded(_) => {
                    let st = self.all[i].status;
                    st == DownloadStatus::Created || st == DownloadStatus::Queued || st
                        == DownloadStatus::Connecting || st == DownloadStatus::Retrying || st
                        == DownloadStatus::Downloading
                },
                ChunksInfo::ErrorLoadingInfo(_) => false,
            };
            if pending {
                assert(is_pending(self.downloads()[i as int]));
                return false;
            }
            i = i + 1;
        }
        true
    }

    /// Whether progress should be printed on a regular update: printing is on
    /// and the manager is not shutting down.
    pub fn prints_progress_now(&self) -> (r: bool)
        ensures
            r == (self.prints_progress() && !self.is_shutting_down()),
    {
        self.pretty_print && !self.shutting_down
    }

    /// Whether progress is printed at all (also once more on shutdown).
    pub fn pretty_print(&self) -> (r: bool)
        ensures
            r == self.prints_progress(),
    {
        self.pretty_print
    }

    /// The number of running downloads.
    pub fn active_count(&self) -> (n: usize)
        ensures
            n == self.active_cores().len(),
    {
        self.active.len()
    }

    /// The handle of the running download at `index`.
    pub fn active_handle(&self, index: usize) -> (h: &H)
        requires
            index < self.active_cores().len(),
        ensures
            *h == self.active_handles()[index as int],
    {
        &self.active[index].handle
    }

    /// Equal copies of the known downloads, newest first.
    pub fn downloads_snapshot(&self) -> (v: Vec<Download>)
        ensures
            v@ == self.downloads(),
    {
        let mut v: Vec<Download> = Vec::new();
        let mut i: usize = 0;
        while i < self.all.len()
            invariant
                i <= self.all@.len(),
                v@ == self.all@.take(i as int),
            decreases self.all@.len() - i,
        {
            v.push(self.all[i].duplicate());
            assert(self.all@.take(i + 1) =~= self.all@.take(i as int).push(self.all@[i as int]));
            i = i + 1;
        }
        assert(self.all@.take(self.all@.len() as int) =~= self.all@);
        v
    }
}

/// The text answered when a download is not known.
fn not_found() -> (s: String)
    ensures
        s@ == not_found_text(),
{
    String::from_str("Download not found")
}


/// Marks a download whose information could not be asked for.
pub fn info_request_error(download: &mut Download, err: &str)
    ensures
        final(download).id == old(download).id,
        final(download).request == old(download).request,
        final(download).status == old(download).status,
        final(download).chunks_info matches ChunksInfo::ErrorLoadingInfo(e) && e@
            == "Failed to load download info: "@ + err@,
{
    let mut msg = String::from_str("Failed to load download info: ");
    msg.append(err);
    download.chunks_info = ChunksInfo::ErrorLoadingInfo(msg);
}

} // verus!
