use vstd::prelude::*;

use vstd::string::StringExecFns;

use crate::commands::list;
use crate::commands::list::Asset;
use crate::commands::Target;

verus! {

/// Parameters of the download step: the target, an optional release tag
/// (defaulting to the newest release), and the output directory.
#[derive(Debug)]
pub struct Params {
    pub target: Target,
    /// Optional version tag to download.
    pub tag: Option<String>,
    /// Output directory for the downloaded files.
    pub output: String,
}

/// What can go wrong while downloading a release's assets.
#[derive(Debug)]
pub enum Error {
    /// The release listing could not be parsed; the payload describes the
    /// fault.
    Parse(String),
    /// A request failed at the transport or HTTP level; the payload
    /// describes the fault.
    Request(String),
    /// Local file access failed; the payload describes the fault.
    File(String),
    /// The requested release tag is absent from the listing; the payload is
    /// the tag that was asked for.
    TagNotFound(String),
}

/// The download-level error that stands for a listing error, kind for kind,
/// keeping the fault's description intact.
pub open spec fn of_list_error(e: list::Error) -> Error {
    match e {
        list::Error::Parse(d) => Error::Parse(d),
        list::Error::Request(d) => Error::Request(d),
    }
}

impl From<list::Error> for Error {
    fn from(e: list::Error) -> (r: Self) {
        match e {
            list::Error::Parse(d) => Error::Parse(d),
            list::Error::Request(d) => Error::Request(d),
        }
    }
}

impl vstd::std_specs::convert::FromSpecImpl<list::Error> for Error {
    open spec fn obeys_from_spec() -> bool {
        true
    }

    open spec fn from_spec(e: list::Error) -> Self {
        of_list_error(e)
    }
}

impl Error {
    /// The human-readable description of this error.
    pub open spec fn message_spec(&self) -> Seq<char> {
        match self {
            Error::Parse(d) => "parse error: "@ + d@,
            Error::Request(d) => "request error: "@ + d@,
            Error::File(d) => "file error: "@ + d@,
            Error::TagNotFound(t) => "tag "@ + t@ + " not found"@,
        }
    }

    /// Renders this error as one human-readable line.
    pub fn message(&self) -> (r: String)
        ensures
            r@ == self.message_spec(),
    {
        match self {
            Error::Parse(d) => {
                let mut m = String::from_str("parse error: ");
                m.append(d.as_str());
                m
            },
            Error::Request(d) => {
                let mut m = String::from_str("request error: ");
                m.append(d.as_str());
                m
            },
            Error::File(d) => {
                let mut m = String::from_str("file error: ");
                m.append(d.as_str());
                m
            },
            Error::TagNotFound(t) => {
                let mut m = String::from_str("tag ");
                m.append(t.as_str());
                m.append(" not found");
                m
            },
        }
    }
}

/// Where one asset's worker stands in its life:
/// created, requesting, streaming, then completed or failed.
#[derive(Clone, Copy, PartialEq, Eq, Structural, Debug)]
pub enum Phase {
    /// The worker exists; its destination file is not open yet.
    Created,
    /// The destination file is open; the request has not been sent yet.
    Requesting,
    /// The response arrived; body chunks are being pulled and written.
    Streaming,
    /// The body ended and every received byte reached the file.
    Completed,
    /// A file or network fault ended this worker; whatever was already
    /// written stays on disk.
    Failed,
}

/// What a worker needs done next by whoever runs it.
#[derive(Clone, Copy, PartialEq, Eq, Structural, Debug)]
pub enum Action {
    /// Open (truncate or create) the destination file.
    OpenFile,
    /// Send the GET request for the asset, with its content type as the
    /// Accept header.
    SendRequest,
    /// Pull the next chunk of the response body.
    PullChunk,
    /// Write the pending part of the current chunk to the file.
    WriteChunk,
    /// Nothing: the worker is done.
    Finish,
}

/// Downloads exactly one asset into one exclusively-owned destination file,
/// streaming. The file, the network and the clock live with the caller, who
/// performs each requested [`Action`] and reports what happened; this
/// machine decides every transition and accounts for every byte. A short
/// write retries the remainder of the same chunk — the only retry anywhere —
/// and a failure leaves the partially written file as it is.
pub struct Worker {
    /// The asset this worker downloads.
    pub asset: Asset,
    /// The destination path: the output directory joined with the asset's
    /// name.
    pub dest: String,
    state: Phase,
    /// The chunk currently being written; fully written once `offset`
    /// reaches its length.
    chunk: Vec<u8>,
    /// How many bytes of `chunk` have reached the file.
    offset: usize,
    /// The bytes written to the destination file so far.
    file: Ghost<Seq<u8>>,
    /// Every body chunk received so far, in the order received.
    chunks: Ghost<Seq<Seq<u8>>>,
}

impl Worker {
    /// Where the worker stands.
    pub closed spec fn phase(&self) -> Phase {
        self.state
    }

    /// The asset this worker downloads.
    pub closed spec fn asset_spec(&self) -> Asset {
        self.asset
    }

    /// The destination path this worker writes to.
    pub closed spec fn dest_spec(&self) -> String {
        self.dest
    }

    /// The bytes that have reached the destination file.
    pub closed spec fn file_bytes(&self) -> Seq<u8> {
        self.file@
    }

    /// The body chunks received so far, in order.
    pub closed spec fn chunks_seen(&self) -> Seq<Seq<u8>> {
        self.chunks@
    }

    /// The chunk currently being written.
    pub closed spec fn chunk_bytes(&self) -> Seq<u8> {
        self.chunk@
    }

    /// How much of the current chunk has reached the file.
    pub closed spec fn written(&self) -> int {
        self.offset as int
    }

    /// Every byte received is accounted for: the file holds everything but
    /// the still-pending part of the current chunk, and nothing arrives
    /// before the streaming starts.
    pub closed spec fn wf(&self) -> bool {
        &&& self.offset <= self.chunk@.len()
        &&& self.file@ + self.chunk@.skip(self.offset as int) == self.chunks@.flatten()
        &&& ((self.state is Created || self.state is Requesting) ==> self.chunks@
            == Seq::<Seq<u8>>::empty() && self.chunk@.len() == 0 && self.file@ == Seq::<
        u8,
        >::empty())
        &&& (self.state is Completed ==> self.offset == self.chunk@.len())
    }

    /// A fresh worker for one asset, bound to its destination file under the
    /// output directory.
    pub fn new(asset: Asset, output: &String) -> (w: Worker)
        ensures
            w.wf(),
            w.phase() is Created,
            w.asset_spec() == asset,
            w.dest_spec()@ == output@ + "/"@ + asset.name@,
            w.file_bytes() == Seq::<u8>::empty(),
            w.chunks_seen() == Seq::<Seq<u8>>::empty(),
    {
        let mut dest = String::from_str(output.as_str());
        dest.append("/");
        dest.append(asset.name.as_str());
        let w = Worker {
            asset,
            dest,
            state: Phase::Created,
            chunk: Vec::new(),
            offset: 0,
            file: Ghost(Seq::empty()),
            chunks: Ghost(Seq::empty()),
        };
        proof {
            assert(w.file@ + w.chunk@.skip(0) =~= Seq::<u8>::empty());
            assert(w.chunks@.flatten() =~= Seq::<u8>::empty());
        }
        w
    }

    /// What the worker needs done in each phase; while streaming, the
    /// pending part of the current chunk is written before the next chunk is
    /// pulled.
    pub open spec fn action_spec(&self) -> Action {
        match self.phase() {
            Phase::Created => Action::OpenFile,
            Phase::Requesting => Action::SendRequest,
            Phase::Streaming => if self.written() < self.chunk_bytes().len() {
                Action::WriteChunk
            } else {
                Action::PullChunk
            },
            Phase::Completed => Action::Finish,
            Phase::Failed => Action::Finish,
        }
    }

    /// What whoever runs this worker must do next.
    pub fn next_action(&self) -> (a: Action)
        ensures
            a == self.action_spec(),
    {
        match self.state {
            Phase::Created => Action::OpenFile,
            Phase::Requesting => Action::SendRequest,
            Phase::Streaming => if self.offset < self.chunk.len() {
                Action::WriteChunk
            } else {
                Action::PullChunk
            },
            Phase::Completed => Action::Finish,
            Phase::Failed => Action::Finish,
        }
    }

    /// The destination file is open for writing; the request comes next.
    pub fn on_file_opened(&mut self)
        requires
            old(self).wf(),
            old(self).phase() is Created,
        ensures
            final(self).wf(),
            final(self).phase() is Requesting,
            final(self).asset_spec() == old(self).asset_spec(),
            final(self).dest_spec() == old(self).dest_spec(),
            final(self).file_bytes() == old(self).file_bytes(),
            final(self).chunks_seen() == old(self).chunks_seen(),
    {
        self.state = Phase::Requesting;
    }

    /// The destination file could not be opened: a terminal fault for this
    /// worker alone.
    pub fn on_file_open_failed(&mut self, detail: String) -> (r: Result<(), Error>)
        requires
            old(self).wf(),
            old(self).phase() is Created,
        ensures
            final(self).wf(),
            final(self).phase() is Failed,
            final(self).asset_spec() == old(self).asset_spec(),
            final(self).dest_spec() == old(self).dest_spec(),
            final(self).file_bytes() == old(self).file_bytes(),
            final(self).chunks_seen() == old(self).chunks_seen(),
            r == Err::<(), Error>(Error::File(detail)),
    {
        self.state = Phase::Failed;
        Err(Error::File(detail))
    }

    /// The response headers arrived; the body can now be streamed.
    pub fn on_request_ok(&mut self)
        requires
            old(self).wf(),
            old(self).phase() is Requesting,
        ensures
            final(self).wf(),
            final(self).phase() is Streaming,
            final(self).asset_spec() == old(self).asset_spec(),
            final(self).dest_spec() == old(self).dest_spec(),
            final(self).file_bytes() == old(self).file_bytes(),
            final(self).chunks_seen() == old(self).chunks_seen(),
            final(self).written() == final(self).chunk_bytes().len(),
    {
        self.state = Phase::Streaming;
    }

    /// The request failed at the transport or HTTP level; no retry.
    pub fn on_request_failed(&mut self, detail: String) -> (r: Result<(), Error>)
        requires
            old(self).wf(),
            old(self).phase() is Requesting,
        ensures
            final(self).wf(),
            final(self).phase() is Failed,
            final(self).asset_spec() == old(self).asset_spec(),
            final(self).dest_spec() == old(self).dest_spec(),
            final(self).file_bytes() == old(self).file_bytes(),
            final(self).chunks_seen() == old(self).chunks_seen(),
            r == Err::<(), Error>(Error::Request(detail)),
    {
        self.state = Phase::Failed;
        Err(Error::Request(detail))
    }

    /// The next body chunk arrived; it becomes the chunk to write. Only
    /// asked for once the previous chunk was written completely.
    pub fn on_chunk(&mut self, data: Vec<u8>)
        requires
            old(self).wf(),
            old(self).phase() is Streaming,
            old(self).written() == old(self).chunk_bytes().len(),
        ensures
            final(self).wf(),
            final(self).phase() is Streaming,
            final(self).asset_spec() == old(self).asset_spec(),
            final(self).dest_spec() == old(self).dest_spec(),
            final(self).file_bytes() == old(self).file_bytes(),
            final(self).chunks_seen() == old(self).chunks_seen().push(data@),
            final(self).chunk_bytes() == data@,
            final(self).written() == 0,
    {
        proof {
            old(self).chunks@.lemma_flatten_push(data@);
            assert(old(self).chunk@.skip(old(self).offset as int) =~= Seq::<u8>::empty());
            assert(old(self).file@ + old(self).chunk@.skip(old(self).offset as int) =~= old(self).file@);
        }
        self.chunks = Ghost(self.chunks@.push(data@));
        self.chunk = data;
        self.offset = 0;
        proof {
            assert(self.chunk@.skip(0) =~= self.chunk@);
            assert(self.file@ + self.chunk@.skip(0) =~= old(self).chunks@.flatten() + self.chunk@);
            assert(self.file@ + self.chunk@.skip(0) == self.chunks@.flatten());
        }
    }

    /// Some bytes of the current chunk reached the file. A short write
    /// leaves the rest of the chunk pending, to be written before anything
    /// else is pulled.
    pub fn on_wrote(&mut self, n: usize)
        requires
            old(self).wf(),
            old(self).phase() is Streaming,
            old(self).written() + n <= old(self).chunk_bytes().len(),
        ensures
            final(self).wf(),
            final(self).phase() is Streaming,
            final(self).asset_spec() == old(self).asset_spec(),
            final(self).dest_spec() == old(self).dest_spec(),
            final(self).chunk_bytes() == old(self).chunk_bytes(),
            final(self).chunks_seen() == old(self).chunks_seen(),
            final(self).written() == old(self).written() + n,
            final(self).file_bytes() == old(self).file_bytes() + old(self).chunk_bytes().subrange(
                old(self).written(),
                old(self).written() + n,
            ),
    {
        let len = self.chunk.len();
        proof {
            assert(self.offset + n <= len);
        }
        self.file = Ghost(
            self.file@ + self.chunk@.subrange(self.offset as int, self.offset as int + n as int),
        );
        self.offset = self.offset + n;
        proof {
            assert(old(self).chunk@.subrange(old(self).written(), old(self).written() + n) + old(self).chunk@.skip(old(self).written() + n) =~= old(self).chunk@.skip(old(self).written()));
            assert(self.file@ + self.chunk@.skip(self.offset as int) =~= old(self).file@ + old(self).chunk@.skip(old(self).written()));
            assert(self.file@ + self.chunk@.skip(self.offset as int) == self.chunks@.flatten());
        }
    }

    /// Writing to the destination file failed: terminal for this worker; the
    /// bytes already written stay where they are.
    pub fn on_write_failed(&mut self, detail: String) -> (r: Result<(), Error>)
        requires
            old(self).wf(),
            old(self).phase() is Streaming,
        ensures
            final(self).wf(),
            final(self).phase() is Failed,
            final(self).asset_spec() == old(self).asset_spec(),
            final(self).dest_spec() == old(self).dest_spec(),
            final(self).file_bytes() == old(self).file_bytes(),
            final(self).chunks_seen() == old(self).chunks_seen(),
            r == Err::<(), Error>(Error::File(detail)),
    {
        self.state = Phase::Failed;
        Err(Error::File(detail))
    }

    /// Pulling the next chunk failed: terminal for this worker; the bytes
    /// already written stay where they are.
    pub fn on_read_failed(&mut self, detail: String) -> (r: Result<(), Error>)
        requires
            old(self).wf(),
            old(self).phase() is Streaming,
        ensures
            final(self).wf(),
            final(self).phase() is Failed,
            final(self).asset_spec() == old(self).asset_spec(),
            final(self).dest_spec() == old(self).dest_spec(),
            final(self).file_bytes() == old(self).file_bytes(),
            final(self).chunks_seen() == old(self).chunks_seen(),
            r == Err::<(), Error>(Error::Request(detail)),
    {
        self.state = Phase::Failed;
        Err(Error::Request(detail))
    }

    /// The body ended, with the last chunk fully written: the download is
    /// complete, and the file holds exactly the concatenation of every chunk
    /// received, in the order received.
    pub fn on_body_end(&mut self) -> (r: Result<(), Error>)
        requires
            old(self).wf(),
            old(self).phase() is Streaming,
            old(self).written() == old(self).chunk_bytes().len(),
        ensures
            final(self).wf(),
            final(self).phase() is Completed,
            final(self).asset_spec() == old(self).asset_spec(),
            final(self).dest_spec() == old(self).dest_spec(),
            final(self).file_bytes() == old(self).file_bytes(),
            final(self).chunks_seen() == old(self).chunks_seen(),
            final(self).file_bytes() == final(self).chunks_seen().flatten(),
            r == Ok::<(), Error>(()),
    {
        self.state = Phase::Completed;
        proof {
            assert(self.chunk@.skip(self.offset as int) =~= Seq::<u8>::empty());
            assert(self.file@ + self.chunk@.skip(self.offset as int) =~= self.file@);
        }
        Ok(())
    }

    /// Where the worker stands, for whoever runs it.
    pub fn current_phase(&self) -> (p: Phase)
        ensures
            p == self.phase(),
    {
        self.state
    }

    /// How much of the current chunk has reached the file.
    pub fn write_offset(&self) -> (n: usize)
        ensures
            n == self.written(),
    {
        self.offset
    }

    /// The chunk currently being written; the part from `write_offset` on is
    /// still pending.
    pub fn pending_chunk(&self) -> (c: &Vec<u8>)
        ensures
            c@ == self.chunk_bytes(),
    {
        &self.chunk
    }
}

/// A completed download's destination file holds, byte for byte, the
/// concatenation of all streamed response chunks, in the order received.
pub proof fn lemma_completed_file_matches_stream(w: &Worker)
    requires
        w.wf(),
        w.phase() is Completed,
    ensures
        w.file_bytes() == w.chunks_seen().flatten(),
{
    assert(w.chunk_bytes().skip(w.written()) =~= Seq::<u8>::empty());
    assert(w.file_bytes() + w.chunk_bytes().skip(w.written()) =~= w.file_bytes());
}

/// A concurrent execution unit that terminated abnormally instead of
/// handing back its worker's outcome; the payload describes the fault. A
/// crash is observably different from an ordinary download error.
#[derive(Debug)]
pub struct WorkerCrash {
    pub detail: String,
}

/// What one worker hands back: itself, for identification in reporting,
/// together with its result.
pub type WorkerOutput = (Worker, Result<(), Error>);

/// One collected entry: a worker's own outcome, or the crash of the
/// execution unit that ran it.
pub type DownloadOutcome = Result<WorkerOutput, WorkerCrash>;

/// Collects exactly one outcome per dispatched worker and reports them in
/// dispatch order, whatever order the workers' executions happen to finish
/// in. A failing or crashing worker never blocks or cancels a sibling:
/// every slot is kept until every worker has reported.
pub struct Handler {
    slots: Vec<Option<DownloadOutcome>>,
    assets: Ghost<Seq<Asset>>,
}

impl Handler {
    /// One slot per dispatched worker, in dispatch order; filled as the
    /// outcomes come in.
    pub closed spec fn slots_spec(&self) -> Seq<Option<DownloadOutcome>> {
        self.slots@
    }

    /// The assets of the dispatched workers, in dispatch order.
    pub closed spec fn dispatched_assets(&self) -> Seq<Asset> {
        self.assets@
    }

    pub closed spec fn wf(&self) -> bool {
        self.slots@.len() == self.assets@.len()
    }

    pub fn new() -> (h: Handler)
        ensures
            h.wf(),
            h.slots_spec() == Seq::<Option<DownloadOutcome>>::empty(),
            h.dispatched_assets() == Seq::<Asset>::empty(),
    {
        Handler { slots: Vec::new(), assets: Ghost(Seq::empty()) }
    }

    /// Registers one dispatched worker, reserving the next report slot for
    /// it.
    pub fn add_worker(&mut self, w: &Worker)
        requires
            old(self).wf(),
            w.phase() is Created,
        ensures
            final(self).wf(),
            final(self).slots_spec() == old(self).slots_spec().push(None::<DownloadOutcome>),
            final(self).dispatched_assets() == old(self).dispatched_assets().push(w.asset_spec()),
    {
        self.slots.push(None);
        self.assets = Ghost(self.assets@.push(w.asset));
    }

    /// How many workers were dispatched.
    pub fn slot_count(&self) -> (n: usize)
        ensures
            n == self.slots_spec().len(),
    {
        self.slots.len()
    }

    /// Whether the worker dispatched at the given position has reported.
    pub fn is_recorded(&self, index: usize) -> (b: bool)
        requires
            index < self.slots_spec().len(),
        ensures
            b == (self.slots_spec()[index as int] is Some),
    {
        self.slots[index].is_some()
    }

    /// Stores the outcome of the worker dispatched at the given position,
    /// leaving every other slot exactly as it was.
    pub fn record(&mut self, index: usize, outcome: DownloadOutcome)
        requires
            old(self).wf(),
            index < old(self).slots_spec().len(),
            old(self).slots_spec()[index as int] is None,
        ensures
            final(self).wf(),
            final(self).slots_spec() == old(self).slots_spec().update(
                index as int,
                Some(outcome),
            ),
            final(self).dispatched_assets() == old(self).dispatched_assets(),
    {
        self.slots.set(index, Some(outcome));
    }

    /// Hands the report out once every worker has reported: one entry per
    /// dispatched worker, in dispatch order, however the executions finished.
    pub fn join(self) -> (r: Vec<DownloadOutcome>)
        requires
            self.wf(),
            forall|i: int| 0 <= i < self.slots_spec().len() ==> self.slots_spec()[i] is Some,
        ensures
            r@.len() == self.dispatched_assets().len(),
            r@ == report_spec(self.slots_spec()),
            forall|i: int|
                0 <= i < r@.len() ==> Some(#[trigger] r@[i]) == self.slots_spec()[i],
    {
        let ghost original = self.slots@;
        proof {
            assert forall|i: int| 0 <= i < original.len() implies original[i] is Some by {
                assert(original[i] == self.slots_spec()[i]);
            }
        }
        let mut rest = self.slots;
        let mut r: Vec<DownloadOutcome> = Vec::new();
        while rest.len() > 0
            invariant
                r@.len() + rest@.len() == original.len(),
                rest@ == original.skip(r@.len() as int),
                forall|i: int| 0 <= i < original.len() ==> original[i] is Some,
                forall|i: int| 0 <= i < r@.len() ==> Some(#[trigger] r@[i]) == original[i],
            decreases rest@.len(),
        {
            let ghost done = r@.len() as int;
            let next = rest.remove(0);
            proof {
                assert(next == original[done]);
                assert(rest@ =~= original.skip(done + 1));
            }
            match next {
                Some(out) => { r.push(out) },
                None => {
                    proof {
                        assert(false);
                    }
                },
            }
        }
        proof {
            assert(r@ =~= report_spec(original));
        }
        r
    }
}

/// The report a completed collection hands out: the outcome in slot `i`
/// stands at position `i`.
pub open spec fn report_spec(slots: Seq<Option<DownloadOutcome>>) -> Seq<DownloadOutcome> {
    slots.map_values(|slot: Option<DownloadOutcome>| slot.unwrap())
}

/// For a release with N assets, one download yields exactly N outcomes: the
/// run hands out one worker per asset in the asset list's order, the
/// handler keeps one slot per dispatched worker, and a full report carries
/// slot `i` at position `i` — regardless of which worker finished first.
pub proof fn lemma_one_outcome_per_asset(m: &Run, h: &Handler)
    requires
        m.wf(),
        h.wf(),
        h.dispatched_assets() == m.asset_list(),
    ensures
        report_spec(h.slots_spec()).len() == m.asset_list().len(),
{
}

/// Outcomes are collected independently: storing worker `k`'s outcome
/// leaves every other worker's slot exactly as it was, so one asset's
/// failure cannot disturb any sibling's success.
pub proof fn lemma_record_leaves_siblings(
    slots: Seq<Option<DownloadOutcome>>,
    k: int,
    outcome: DownloadOutcome,
)
    requires
        0 <= k < slots.len(),
    ensures
        forall|j: int|
            0 <= j < slots.len() && j != k ==> slots.update(k, Some(outcome))[j] == slots[j],
{
}

/// The position of the first release carrying the tag, if any does.
fn find_tag(releases: &Vec<list::Release>, tag: &String) -> (r: Option<usize>)
    ensures
        match r {
            Some(i) => {
                &&& i < releases@.len()
                &&& releases@[i as int].tag_name@ == tag@
                &&& forall|j: int| 0 <= j < i ==> releases@[j].tag_name@ != tag@
            },
            None => forall|j: int| 0 <= j < releases@.len() ==> releases@[j].tag_name@ != tag@,
        },
{
    let mut i: usize = 0;
    while i < releases.len()
        invariant
            i <= releases@.len(),
            forall|j: int| 0 <= j < i ==> releases@[j].tag_name@ != tag@,
        decreases releases@.len() - i,
    {
        if releases[i].tag_name == *tag {
            return Some(i);
        }
        i = i + 1;
    }
    None
}

/// Where one run of the download command stands.
#[derive(Clone, Copy, PartialEq, Eq, Structural, Debug)]
pub enum RunPhase {
    /// Waiting for the release index of the target.
    Listing,
    /// The release is resolved; waiting for the output directory to exist.
    PreparingDir,
    /// Handing out one worker per asset, in the release's asset order.
    Dispatching,
    /// The run ended before any worker was handed out.
    Stopped,
}

/// One run of the download command, step by step: fetch the release index,
/// resolve the requested release — the named tag, or the newest release when
/// none is named — make sure the output directory exists, then hand out one
/// worker per asset, in the release's asset order. The network, file system
/// and scheduling live with the caller; this machine decides each step, and
/// guarantees that no worker exists before the directory step has completed
/// and that a run that stopped early handed out none at all.
pub struct Run {
    pub params: Params,
    /// The resolved release's assets not yet handed out, front first.
    assets: Vec<Asset>,
    /// How many workers have been handed out.
    handed_out: usize,
    state: RunPhase,
    /// The resolved release's full asset list.
    all_assets: Ghost<Seq<Asset>>,
    /// Whether the output directory step has completed.
    dir_ready: Ghost<bool>,
}

impl Run {
    /// Where the run stands.
    pub closed spec fn phase(&self) -> RunPhase {
        self.state
    }

    /// The run's parameters.
    pub closed spec fn params_spec(&self) -> Params {
        self.params
    }

    /// The resolved release's assets, in the order they are dispatched.
    pub closed spec fn asset_list(&self) -> Seq<Asset> {
        self.all_assets@
    }

    /// How many workers have been handed out.
    pub closed spec fn dispatched(&self) -> int {
        self.handed_out as int
    }

    /// Whether the output directory step has completed.
    pub closed spec fn dir_ensured(&self) -> bool {
        self.dir_ready@
    }

    /// Workers are handed out front to back from the resolved asset list,
    /// none before the directory step completed, and none at all by a run
    /// that stopped early.
    pub closed spec fn wf(&self) -> bool {
        &&& self.handed_out + self.assets@.len() == self.all_assets@.len()
        &&& self.all_assets@.len() <= usize::MAX
        &&& self.assets@ == self.all_assets@.skip(self.handed_out as int)
        &&& (!(self.state is Dispatching) ==> self.handed_out == 0)
        &&& (self.state is Listing ==> self.all_assets@.len() == 0)
        &&& (self.state is Dispatching ==> self.dir_ready@)
    }

    /// A fresh run, about to ask for the target's release index.
    pub fn new(params: Params) -> (m: Run)
        ensures
            m.wf(),
            m.phase() is Listing,
            m.params_spec() == params,
            m.dispatched() == 0,
            !m.dir_ensured(),
    {
        let m = Run {
            params,
            assets: Vec::new(),
            handed_out: 0,
            state: RunPhase::Listing,
            all_assets: Ghost(Seq::empty()),
            dir_ready: Ghost(false),
        };
        proof {
            assert(m.assets@ =~= m.all_assets@.skip(0));
        }
        m
    }

    /// The listing itself failed; the run stops before anything else, and
    /// the fault bubbles up unchanged in kind.
    pub fn on_releases_failed(&mut self, err: list::Error) -> (r: Error)
        requires
            old(self).wf(),
            old(self).phase() is Listing,
        ensures
            final(self).wf(),
            final(self).phase() is Stopped,
            final(self).dispatched() == 0,
            final(self).params_spec() == old(self).params_spec(),
            r == of_list_error(err),
    {
        self.state = RunPhase::Stopped;
        Error::from(err)
    }

    /// The release index arrived. The run resolves the requested release —
    /// the first one carrying the named tag, or the newest (first) release
    /// when no tag was named — and moves on to the directory step; a tag
    /// absent from the listing stops the run before any download is
    /// attempted.
    pub fn on_releases(&mut self, releases: Vec<list::Release>) -> (r: Result<(), Error>)
        requires
            old(self).wf(),
            old(self).phase() is Listing,
            old(self).params_spec().tag is None ==> releases@.len() > 0,
        ensures
            final(self).wf(),
            final(self).dispatched() == 0,
            final(self).params_spec() == old(self).params_spec(),
            old(self).params_spec().tag is None ==> {
                &&& r is Ok
                &&& final(self).phase() is PreparingDir
                &&& final(self).asset_list() == releases@[0].assets@
            },
            old(self).params_spec().tag matches Some(t) ==> {
                if exists|i: int| 0 <= i < releases@.len() && releases@[i].tag_name@ == t@ {
                    &&& r is Ok
                    &&& final(self).phase() is PreparingDir
                    &&& exists|i: int|
                        {
                            &&& 0 <= i < releases@.len()
                            &&& releases@[i].tag_name@ == t@
                            &&& (forall|j: int| 0 <= j < i ==> releases@[j].tag_name@ != t@)
                            &&& final(self).asset_list() == releases@[i].assets@
                        }
                } else {
                    &&& r == Err::<(), Error>(Error::TagNotFound(t))
                    &&& final(self).phase() is Stopped
                }
            },
    {
        let sel: Result<usize, Error> = match &self.params.tag {
            None => Ok(0),
            Some(tag) => {
                match find_tag(&releases, tag) {
                    Some(i) => Ok(i),
                    None => Err(Error::TagNotFound(tag.clone())),
                }
            },
        };
        match sel {
            Ok(index) => {
                let mut releases = releases;
                let release = releases.remove(index);
                let n = release.assets.len();
                proof {
                    assert(release.assets@.len() == n);
                }
                self.all_assets = Ghost(release.assets@);
                self.assets = release.assets;
                self.state = RunPhase::PreparingDir;
                proof {
                    assert(self.assets@ =~= self.all_assets@.skip(0));
                }
                Ok(())
            },
            Err(e) => {
                self.state = RunPhase::Stopped;
                Err(e)
            },
        }
    }

    /// The output directory exists — found or created before any worker
    /// starts; workers can now be handed out.
    pub fn on_dir_ready(&mut self)
        requires
            old(self).wf(),
            old(self).phase() is PreparingDir,
        ensures
            final(self).wf(),
            final(self).phase() is Dispatching,
            final(self).dispatched() == 0,
            final(self).dir_ensured(),
            final(self).params_spec() == old(self).params_spec(),
            final(self).asset_list() == old(self).asset_list(),
    {
        self.dir_ready = Ghost(true);
        self.state = RunPhase::Dispatching;
    }

    /// The output directory could not be created; the run stops before any
    /// worker is handed out.
    pub fn on_dir_failed(&mut self, detail: String) -> (r: Error)
        requires
            old(self).wf(),
            old(self).phase() is PreparingDir,
        ensures
            final(self).wf(),
            final(self).phase() is Stopped,
            final(self).dispatched() == 0,
            final(self).params_spec() == old(self).params_spec(),
            r == Error::File(detail),
    {
        self.state = RunPhase::Stopped;
        Error::File(detail)
    }

    /// Whether another worker remains to be handed out.
    pub fn has_next_worker(&self) -> (b: bool)
        requires
            self.wf(),
        ensures
            b == (self.phase() is Dispatching && self.dispatched() < self.asset_list().len()),
    {
        match self.state {
            RunPhase::Dispatching => self.assets.len() > 0,
            _ => false,
        }
    }

    /// How many workers have been handed out.
    pub fn dispatched_count(&self) -> (n: usize)
        ensures
            n == self.dispatched(),
    {
        self.handed_out
    }

    /// Where the run stands, for whoever drives it.
    pub fn current_phase(&self) -> (p: RunPhase)
        ensures
            p == self.phase(),
    {
        self.state
    }

    /// Hands out the worker for the next asset in the release's order,
    /// bound to its destination file under the output directory.
    pub fn next_worker(&mut self) -> (w: Worker)
        requires
            old(self).wf(),
            old(self).phase() is Dispatching,
            old(self).dispatched() < old(self).asset_list().len(),
        ensures
            final(self).wf(),
            final(self).phase() is Dispatching,
            final(self).params_spec() == old(self).params_spec(),
            final(self).asset_list() == old(self).asset_list(),
            final(self).dispatched() == old(self).dispatched() + 1,
            w.wf(),
            w.phase() is Created,
            w.asset_spec() == old(self).asset_list()[old(self).dispatched()],
            w.dest_spec()@ == old(self).params_spec().output@ + "/"@ + w.asset_spec().name@,
            w.file_bytes() == Seq::<u8>::empty(),
            w.chunks_seen() == Seq::<Seq<u8>>::empty(),
    {
        let asset = self.assets.remove(0);
        self.handed_out = self.handed_out + 1;
        proof {
            assert(asset == self.all_assets@.skip(old(self).handed_out as int)[0]);
            assert(self.assets@ =~= self.all_assets@.skip(self.handed_out as int));
        }
        Worker::new(asset, &self.params.output)
    }

    /// Hands out every worker of the resolved release at once: exactly one
    /// per asset, in the release's asset order.
    pub fn dispatch_all(&mut self) -> (ws: Vec<Worker>)
        requires
            old(self).wf(),
            old(self).phase() is Dispatching,
            old(self).dispatched() == 0,
        ensures
            final(self).wf(),
            final(self).phase() is Dispatching,
            final(self).params_spec() == old(self).params_spec(),
            final(self).asset_list() == old(self).asset_list(),
            final(self).dispatched() == old(self).asset_list().len(),
            ws@.len() == old(self).asset_list().len(),
            forall|i: int|
                0 <= i < ws@.len() ==> {
                    &&& (#[trigger] ws@[i]).wf()
                    &&& ws@[i].phase() is Created
                    &&& ws@[i].asset_spec() == old(self).asset_list()[i]
                    &&& ws@[i].dest_spec()@ == old(self).params_spec().output@ + "/"@ + old(self).asset_list()[i].name@
                },
    {
        let mut ws: Vec<Worker> = Vec::new();
        let total = self.assets.len();
        while self.handed_out < total
            invariant
                self.wf(),
                self.phase() is Dispatching,
                self.params_spec() == old(self).params_spec(),
                self.asset_list() == old(self).asset_list(),
                total == self.asset_list().len(),
                ws@.len() == self.dispatched(),
                forall|i: int|
                    0 <= i < ws@.len() ==> {
                        &&& (#[trigger] ws@[i]).wf()
                        &&& ws@[i].phase() is Created
                        &&& ws@[i].asset_spec() == self.asset_list()[i]
                        &&& ws@[i].dest_spec()@ == self.params_spec().output@ + "/"@
                            + self.asset_list()[i].name@
                    },
            decreases self.asset_list().len() - self.dispatched(),
        {
            let w = self.next_worker();
            ws.push(w);
        }
        ws
    }
}

/// No worker is handed out before the output directory step has completed:
/// the directory is found or created before any download starts.
pub proof fn lemma_dir_before_workers(m: &Run)
    requires
        m.wf(),
        m.dispatched() > 0,
    ensures
        m.dir_ensured(),
{
}

/// A run that stopped early — the listing failed, the requested tag was
/// not in it, or the output directory could not be created — handed out no
/// worker, so no asset download was ever attempted.
pub proof fn lemma_stopped_run_dispatched_nothing(m: &Run)
    requires
        m.wf(),
        m.phase() is Stopped,
    ensures
        m.dispatched() == 0,
{
}

} // verus!
