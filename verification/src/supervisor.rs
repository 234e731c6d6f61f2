//! The update supervisor: a single background sequence
//! check -> download -> install -> restart, with its failure semantics.
//!
//! The supervisor itself performs no I/O. The embedding program reports
//! each outside outcome (check result, received chunk, install result) as
//! an event, and the supervisor decides the next phase. The spec-level
//! machine `step` is the reference; every executable transition is proved
//! to follow it.

use vstd::prelude::*;

use crate::progress::{
    lemma_sum_chunks_take_bound, lemma_sum_chunks_take_step, sum_chunks, Progress,
};
use crate::version::{spec_update_wanted, update_wanted};

verus! {

/// Why an update sequence stopped early.
#[derive(Clone, Copy, Debug, PartialEq, Eq, Structural)]
pub enum UpdateError {
    /// The version check could not be completed (network or parse failure).
    VersionCheck,
    /// The artifact transfer failed mid-download.
    Download,
    /// The platform install step failed; the running build is untouched.
    Install,
}

impl UpdateError {
    /// A diagnostic line for logging; the supervisor itself never prints.
    pub fn message(&self) -> (m: String)
        ensures
            *self == UpdateError::VersionCheck ==> m@ == "version check failed"@,
            *self == UpdateError::Download ==> m@ == "download failed"@,
            *self == UpdateError::Install ==> m@ == "install failed"@,
    {
        match self {
            UpdateError::VersionCheck => "version check failed".to_owned(),
            UpdateError::Download => "download failed".to_owned(),
            UpdateError::Install => "install failed".to_owned(),
        }
    }
}

/// The phase of the update sequence. `Restarting` is the terminal success
/// phase; `Failed` is terminal too, and the application keeps running the
/// current build.
#[derive(Clone, Copy, Debug, PartialEq, Eq, Structural)]
pub enum Phase {
    Idle,
    Checking,
    UpToDate,
    Downloading,
    Installing,
    Restarting,
    Failed(UpdateError),
}

/// What the version check endpoint returned: the candidate version and the
/// artifact's content length, when the endpoint announces one.
#[derive(Debug)]
pub struct Descriptor {
    pub version: String,
    pub length: Option<u64>,
}

/// The mathematical state of a supervisor: the running version, the phase,
/// and the download accounting.
pub struct Model {
    pub current: Seq<char>,
    pub phase: Phase,
    pub downloaded: nat,
    pub total: Option<u64>,
    pub complete: bool,
}

impl Model {
    /// While a download is in progress its completion has not fired yet.
    pub open spec fn wf(self) -> bool {
        self.phase == Phase::Downloading ==> !self.complete
    }
}

/// One outside outcome reported to the supervisor.
pub enum Event {
    CheckStarted,
    CheckFailed,
    CheckOk { candidate: Seq<char>, length: Option<u64> },
    ChunkReceived { len: u64 },
    DownloadFailed,
    DownloadComplete,
    InstallSucceeded,
    InstallFailed,
}

/// The reference machine: how one event changes the state. An event that
/// does not belong to the current phase changes nothing.
pub open spec fn step(m: Model, e: Event) -> Model {
    match e {
        Event::CheckStarted => if m.phase == Phase::Idle {
            Model { phase: Phase::Checking, ..m }
        } else {
            m
        },
        Event::CheckFailed => if m.phase == Phase::Checking {
            Model { phase: Phase::Failed(UpdateError::VersionCheck), ..m }
        } else {
            m
        },
        Event::CheckOk { candidate, length } => if m.phase == Phase::Checking {
            if spec_update_wanted(m.current, candidate) {
                Model {
                    phase: Phase::Downloading,
                    downloaded: 0,
                    total: length,
                    complete: false,
                    ..m
                }
            } else {
                Model { phase: Phase::UpToDate, ..m }
            }
        } else {
            m
        },
        Event::ChunkReceived { len } => if m.phase == Phase::Downloading {
            Model { downloaded: (m.downloaded + len) as nat, ..m }
        } else {
            m
        },
        Event::DownloadFailed => if m.phase == Phase::Downloading {
            Model { phase: Phase::Failed(UpdateError::Download), ..m }
        } else {
            m
        },
        Event::DownloadComplete => if m.phase == Phase::Downloading {
            Model { phase: Phase::Installing, complete: true, ..m }
        } else {
            m
        },
        Event::InstallSucceeded => if m.phase == Phase::Installing {
            Model { phase: Phase::Restarting, ..m }
        } else {
            m
        },
        Event::InstallFailed => if m.phase == Phase::Installing {
            Model { phase: Phase::Failed(UpdateError::Install), ..m }
        } else {
            m
        },
    }
}

/// The machine run over a whole sequence of events, oldest first.
pub open spec fn run_events(m: Model, es: Seq<Event>) -> Model
    decreases es.len(),
{
    if es.len() == 0 {
        m
    } else {
        step(run_events(m, es.drop_last()), es.last())
    }
}

/// The designed edges of the sequence: a phase either holds or advances
/// one step along
/// Idle -> Checking -> (UpToDate | Downloading -> Installing -> Restarting),
/// with each of the three fallible steps allowed to fail instead.
pub open spec fn phase_edge(p: Phase, q: Phase) -> bool {
    ||| p == q
    ||| (p == Phase::Idle && q == Phase::Checking)
    ||| (p == Phase::Checking && (q == Phase::UpToDate || q == Phase::Downloading || q
        == Phase::Failed(UpdateError::VersionCheck)))
    ||| (p == Phase::Downloading && (q == Phase::Installing || q == Phase::Failed(
        UpdateError::Download,
    )))
    ||| (p == Phase::Installing && (q == Phase::Restarting || q == Phase::Failed(
        UpdateError::Install,
    )))
}

/// The sequence is strictly sequential: no event ever moves the phase
/// anywhere but along one designed edge, so no reordering of
/// check -> download -> install -> restart is possible.
pub proof fn lemma_steps_follow_edges(m: Model, e: Event)
    ensures
        phase_edge(m.phase, step(m, e).phase),
{
}

/// A finished sequence — up to date, restarting, or failed — never moves
/// again: once the task has ended, no download and no restart can follow.
pub proof fn lemma_settled_is_terminal(m: Model, es: Seq<Event>)
    requires
        m.phase == Phase::UpToDate || m.phase == Phase::Restarting || (m.phase matches Phase::Failed(
            _,
        )),
    ensures
        run_events(m, es) == m,
    decreases es.len(),
{
    if es.len() > 0 {
        lemma_settled_is_terminal(m, es.drop_last());
    }
}

/// Running the machine over a sequence of events is running it over any
/// prefix and then over the rest.
pub proof fn lemma_run_events_split(m: Model, es: Seq<Event>, i: int)
    requires
        0 <= i <= es.len(),
    ensures
        run_events(m, es) == run_events(run_events(m, es.take(i)), es.skip(i)),
    decreases es.len(),
{
    if i == es.len() {
        assert(es.take(i) =~= es);
        assert(es.skip(i) =~= Seq::<Event>::empty());
    } else {
        lemma_run_events_split(m, es.drop_last(), i);
        assert(es.drop_last().take(i) =~= es.take(i));
        assert(es.skip(i).drop_last() =~= es.drop_last().skip(i));
        assert(es.skip(i).last() == es.last());
        assert(es.skip(i).len() > 0);
    }
}

/// Once past the version check, a fired completion never unfires.
pub proof fn lemma_complete_is_monotone(m: Model, es: Seq<Event>)
    requires
        m.complete,
        m.phase != Phase::Idle,
        m.phase != Phase::Checking,
    ensures
        run_events(m, es).complete,
        run_events(m, es).phase != Phase::Idle,
        run_events(m, es).phase != Phase::Checking,
    decreases es.len(),
{
    if es.len() > 0 {
        lemma_complete_is_monotone(m, es.drop_last());
    }
}

/// The completion report fires at position `i` of a run: it had not fired
/// before the event at `i` and has fired after it.
pub open spec fn completion_fires_at(m: Model, es: Seq<Event>, i: int) -> bool {
    &&& 0 <= i < es.len()
    &&& !run_events(m, es.take(i)).complete
    &&& run_events(m, es.take(i + 1)).complete
}

/// The only step that fires completion is `DownloadComplete` during a
/// download, and it leads to `Installing`.
pub proof fn lemma_completion_step(m: Model, e: Event)
    requires
        !m.complete,
        step(m, e).complete,
    ensures
        m.phase == Phase::Downloading,
        e == Event::DownloadComplete,
        step(m, e).phase == Phase::Installing,
{
}

/// In any run of the machine, the completion report fires at most once.
pub proof fn lemma_completion_fires_at_most_once(m: Model, es: Seq<Event>, i: int, j: int)
    requires
        completion_fires_at(m, es, i),
        completion_fires_at(m, es, j),
        i <= j,
    ensures
        i == j,
{
    if i < j {
        let fired = run_events(m, es.take(i + 1));
        assert(es.take(i + 1).drop_last() =~= es.take(i));
        lemma_completion_step(run_events(m, es.take(i)), es[i]);
        lemma_run_events_split(m, es.take(j), i + 1);
        assert(es.take(j).take(i + 1) =~= es.take(i + 1));
        lemma_complete_is_monotone(fired, es.take(j).skip(i + 1));
    }
}

/// A failure in the middle of a download is final: whatever events follow,
/// the sequence stays failed, installation is never reached, and the
/// running version never changes.
pub proof fn lemma_download_failure_precludes_install(m: Model, es: Seq<Event>)
    requires
        m.phase == Phase::Downloading,
    ensures
        step(m, Event::DownloadFailed).phase == Phase::Failed(UpdateError::Download),
        step(m, Event::DownloadFailed).current == m.current,
        forall|i: int|
            0 <= i <= es.len() ==> run_events(step(m, Event::DownloadFailed), #[trigger] es.take(i))
                == step(m, Event::DownloadFailed),
{
    let failed = step(m, Event::DownloadFailed);
    assert forall|i: int|
        0 <= i <= es.len() implies run_events(failed, #[trigger] es.take(i)) == failed by {
        lemma_settled_is_terminal(failed, es.take(i));
    }
}

/// The update supervisor as held by the embedding program.
pub struct Supervisor {
    current: String,
    phase: Phase,
    progress: Progress,
}

impl View for Supervisor {
    type V = Model;

    closed spec fn view(&self) -> Model {
        Model {
            current: self.current@,
            phase: self.phase,
            downloaded: self.progress.downloaded as nat,
            total: self.progress.total,
            complete: self.progress.complete,
        }
    }
}

impl Supervisor {
    /// A fresh supervisor for one application session running `current`.
    pub fn new(current: String) -> (s: Supervisor)
        ensures
            s@ == (Model {
                current: current@,
                phase: Phase::Idle,
                downloaded: 0,
                total: None,
                complete: false,
            }),
    {
        Supervisor { current, phase: Phase::Idle, progress: Progress::new(None) }
    }

    /// The current phase, for the embedding program to dispatch on.
    pub fn current_phase(&self) -> (p: Phase)
        ensures
            p == self@.phase,
    {
        self.phase
    }

    /// Bytes received so far in the running download.
    pub fn downloaded_bytes(&self) -> (n: u64)
        ensures
            n as nat == self@.downloaded,
    {
        self.progress.downloaded
    }

    /// The version check begins; exactly one check runs per session.
    pub fn begin_check(&mut self)
        requires
            old(self)@.phase == Phase::Idle,
        ensures
            final(self)@ == step(old(self)@, Event::CheckStarted),
            final(self)@.phase == Phase::Checking,
    {
        self.phase = Phase::Checking;
    }

    /// The version check failed: the task ends; the application keeps
    /// running the current build.
    pub fn on_check_failed(&mut self)
        requires
            old(self)@.phase == Phase::Checking,
        ensures
            final(self)@ == step(old(self)@, Event::CheckFailed),
            final(self)@.phase == Phase::Failed(UpdateError::VersionCheck),
    {
        self.phase = Phase::Failed(UpdateError::VersionCheck);
    }

    /// The version check returned a candidate descriptor. The download
    /// starts exactly when the candidate differs from the running version;
    /// otherwise the task ends normally.
    pub fn on_check_ok(&mut self, candidate: &Descriptor) -> (started: bool)
        requires
            old(self)@.phase == Phase::Checking,
        ensures
            final(self)@ == step(
                old(self)@,
                Event::CheckOk { candidate: candidate.version@, length: candidate.length },
            ),
            started == spec_update_wanted(old(self)@.current, candidate.version@),
            final(self)@.phase == Phase::Downloading <==> candidate.version@
                != old(self)@.current,
            final(self)@.phase == Phase::UpToDate <==> candidate.version@ == old(self)@.current,
            final(self)@.wf(),
    {
        if update_wanted(&self.current, &candidate.version) {
            self.phase = Phase::Downloading;
            self.progress = Progress::new(candidate.length);
            true
        } else {
            self.phase = Phase::UpToDate;
            false
        }
    }

    /// One chunk of the artifact arrived; returns the running byte total,
    /// for progress reporting.
    pub fn on_chunk(&mut self, chunk_len: u64) -> (running: u64)
        requires
            old(self)@.phase == Phase::Downloading,
            old(self)@.wf(),
            old(self)@.downloaded + chunk_len <= u64::MAX,
        ensures
            final(self)@ == step(old(self)@, Event::ChunkReceived { len: chunk_len }),
            running as nat == final(self)@.downloaded,
            final(self)@.phase == Phase::Downloading,
            final(self)@.wf(),
    {
        self.progress.on_chunk(chunk_len)
    }

    /// A chunk transfer failed: the whole sequence aborts; no partial
    /// artifact is ever installed.
    pub fn on_download_failed(&mut self)
        requires
            old(self)@.phase == Phase::Downloading,
        ensures
            final(self)@ == step(old(self)@, Event::DownloadFailed),
            final(self)@.phase == Phase::Failed(UpdateError::Download),
    {
        self.phase = Phase::Failed(UpdateError::Download);
    }

    /// All chunks arrived: completion fires, once, and installation begins.
    pub fn on_download_complete(&mut self)
        requires
            old(self)@.phase == Phase::Downloading,
            old(self)@.wf(),
        ensures
            final(self)@ == step(old(self)@, Event::DownloadComplete),
            final(self)@.phase == Phase::Installing,
            final(self)@.complete,
            final(self)@.downloaded == old(self)@.downloaded,
    {
        self.progress.mark_complete();
        self.phase = Phase::Installing;
    }

    /// The install step succeeded: the host process is to restart now.
    pub fn on_install_ok(&mut self)
        requires
            old(self)@.phase == Phase::Installing,
        ensures
            final(self)@ == step(old(self)@, Event::InstallSucceeded),
            final(self)@.phase == Phase::Restarting,
    {
        self.phase = Phase::Restarting;
    }

    /// The install step failed: the sequence aborts and the running
    /// application is left unmodified.
    pub fn on_install_failed(&mut self)
        requires
            old(self)@.phase == Phase::Installing,
        ensures
            final(self)@ == step(old(self)@, Event::InstallFailed),
            final(self)@.phase == Phase::Failed(UpdateError::Install),
    {
        self.phase = Phase::Failed(UpdateError::Install);
    }

    /// Records a whole successful transfer, chunk by chunk in order, then
    /// completion: afterwards installation is due and the byte counter
    /// holds exactly the sum of the chunk lengths.
    pub fn run_transfer(&mut self, chunks: &Vec<u64>)
        requires
            old(self)@.phase == Phase::Downloading,
            old(self)@.wf(),
            old(self)@.downloaded + sum_chunks(chunks@) <= u64::MAX,
        ensures
            final(self)@.phase == Phase::Installing,
            final(self)@.complete,
            final(self)@.downloaded == old(self)@.downloaded + sum_chunks(chunks@),
            final(self)@.current == old(self)@.current,
            final(self)@.total == old(self)@.total,
    {
        let mut i: usize = 0;
        while i < chunks.len()
            invariant
                i <= chunks.len(),
                self@.phase == Phase::Downloading,
                self@.wf(),
                self@.current == old(self)@.current,
                self@.total == old(self)@.total,
                self@.downloaded == old(self)@.downloaded + sum_chunks(chunks@.take(i as int)),
                old(self)@.downloaded + sum_chunks(chunks@) <= u64::MAX,
            decreases chunks.len() - i,
        {
            proof {
                lemma_sum_chunks_take_step(chunks@, i as int);
                lemma_sum_chunks_take_bound(chunks@, i + 1);
            }
            self.on_chunk(chunks[i]);
            i = i + 1;
        }
        proof {
            assert(chunks@.take(chunks@.len() as int) =~= chunks@);
        }
        self.on_download_complete();
    }
}

} // verus!
