//! The downloader: which recording is looked at, started, stopped or dropped
//! next.
//!
//! A [`DownloadManager`] does nothing itself. It says what is to be done, and
//! is told how that ended.

use crate::cleanup::{Cleanup, CleanupAction, CleanupEvent, POLL_MILLIS};
use crate::clock::LocalTime;
use crate::downloader::{
    CommandView, DirectoryInfo, DownloaderProc, ProcHandle, ProcView, StartCommand,
};
use crate::streamer::{
    ActionView, StreamerAction, StreamerUpdate, StreamerView, UpdateView,
};
use vstd::prelude::*;

verus! {

/// Seconds between two rounds.
pub const ROUND_SECS: u64 = 2;

/// Why the downloader gave up.
#[derive(Clone, Copy, Debug, PartialEq, Eq, Structural)]
pub enum ManagerError {
    /// Nobody receives its messages any more.
    SendFailed,
    /// A recording could not be started.
    StartFailed,
    /// A recording could not be interrupted.
    InterruptFailed,
    /// A recording could not be killed.
    KillFailed,
}

/// What the downloader is waiting for.
#[derive(Debug)]
pub enum ManagerPhase {
    /// That its heartbeat is sent.
    Starting,
    /// What a recording is doing, those before it having been looked at.
    Polling { pos: usize, finished: Vec<usize> },
    /// That the report about a recording is sent.
    Reporting { pos: usize, finished: Vec<usize> },
    /// A message.
    Receiving,
    /// The directories and the time for a new recording.
    Preparing { url: String, name: String },
    /// The process of a new recording.
    Launching { recording: DownloaderProc },
    /// That a recording is interrupted.
    Signalling { pos: usize },
    /// That a recording ends.
    Cleaning { pos: usize, cleanup: Cleanup },
    /// That a recording is interrupted, one after the other.
    SignallingAll { pos: usize },
    /// That a recording ends, one after the other.
    CleaningAll { pos: usize, cleanup: Cleanup },
    /// The next round.
    Sleeping,
    /// Nothing any more.
    Finished,
}

/// What happened.
#[derive(Debug)]
pub enum ManagerEvent {
    /// A message was sent, or could not be.
    Sent(bool),
    /// The exit status of a process and the length of its file, as far as there
    /// are any.
    Polled { status: Option<i32>, file_len: Option<u64> },
    /// The next message, if there was one.
    Message(Option<StreamerUpdate>),
    /// What the file system and the clock say.
    Prepared { output: DirectoryInfo, log: DirectoryInfo, now: LocalTime },
    /// The process that was started, if it was.
    Launched(Option<ProcHandle>),
    /// A process was interrupted, or could not be.
    Interrupted(bool),
    /// What became of a process that was interrupted.
    Cleanup(CleanupEvent),
    /// The time has passed.
    Slept,
}

/// What is to be done.
#[derive(Debug)]
pub enum ManagerAction {
    /// Send a message.
    Send(StreamerUpdate),
    /// Look at a process and at its file.
    Poll { handle: ProcHandle, path: String },
    /// See whether there is a message.
    Receive,
    /// Look at the two directories and at the clock.
    Inspect { download_dir: String, log_dir: String },
    /// Start a process.
    Launch(StartCommand),
    /// Interrupt the process with that number.
    Interrupt(i32),
    /// Wait that many milliseconds, then see whether the process still runs.
    WaitAndPoll { handle: ProcHandle, millis: u64 },
    /// Kill a process.
    Kill { handle: ProcHandle },
    /// Wait that many seconds.
    Sleep(u64),
    /// Return.
    Exit,
    /// Return the error.
    Fail(ManagerError),
}

/// The downloader: its directories, its recordings, and what it waits for.
#[derive(Debug)]
pub struct DownloadManager {
    download_dir: String,
    log_dir: String,
    downloaders: Vec<DownloaderProc>,
    phase: ManagerPhase,
}

/// The model of a [`ManagerPhase`].
pub enum PhaseView {
    Starting,
    Polling { pos: int, finished: Seq<int> },
    Reporting { pos: int, finished: Seq<int> },
    Receiving,
    Preparing { url: Seq<char>, name: Seq<char> },
    Launching { recording: ProcView },
    Signalling { pos: int },
    Cleaning { pos: int, cleanup: Cleanup },
    SignallingAll { pos: int },
    CleaningAll { pos: int, cleanup: Cleanup },
    Sleeping,
    Finished,
}

/// The model of a [`ManagerEvent`].
pub enum ManagerEventView {
    Sent(bool),
    Polled { status: Option<i32>, file_len: Option<u64> },
    Message(Option<UpdateView>),
    Prepared { output: DirectoryInfo, log: DirectoryInfo, now: LocalTime },
    Launched(Option<ProcHandle>),
    Interrupted(bool),
    Cleanup(CleanupEvent),
    Slept,
}

/// The model of a [`ManagerAction`].
pub enum ManagerActionView {
    Send(UpdateView),
    Poll { handle: ProcHandle, path: Seq<char> },
    Receive,
    Inspect { download_dir: Seq<char>, log_dir: Seq<char> },
    Launch(CommandView),
    Interrupt(i32),
    WaitAndPoll { handle: ProcHandle, millis: u64 },
    Kill { handle: ProcHandle },
    Sleep(u64),
    Exit,
    Fail(ManagerError),
}

/// The model of a [`DownloadManager`].
pub struct ManagerView {
    pub download_dir: Seq<char>,
    pub log_dir: Seq<char>,
    pub downloaders: Seq<ProcView>,
    pub phase: PhaseView,
}

impl View for ManagerPhase {
    type V = PhaseView;

    open spec fn view(&self) -> PhaseView {
        match self {
            ManagerPhase::Starting => PhaseView::Starting,
            ManagerPhase::Polling { pos, finished } => PhaseView::Polling {
                pos: *pos as int,
                finished: place_views(finished@),
            },
            ManagerPhase::Reporting { pos, finished } => PhaseView::Reporting {
                pos: *pos as int,
                finished: place_views(finished@),
            },
            ManagerPhase::Receiving => PhaseView::Receiving,
            ManagerPhase::Preparing { url, name } => PhaseView::Preparing {
                url: url@,
                name: name@,
            },
            ManagerPhase::Launching { recording } => PhaseView::Launching {
                recording: recording@,
            },
            ManagerPhase::Signalling { pos } => PhaseView::Signalling { pos: *pos as int },
            ManagerPhase::Cleaning { pos, cleanup } => PhaseView::Cleaning {
                pos: *pos as int,
                cleanup: *cleanup,
            },
            ManagerPhase::SignallingAll { pos } => PhaseView::SignallingAll { pos: *pos as int },
            ManagerPhase::CleaningAll { pos, cleanup } => PhaseView::CleaningAll {
                pos: *pos as int,
                cleanup: *cleanup,
            },
            ManagerPhase::Sleeping => PhaseView::Sleeping,
            ManagerPhase::Finished => PhaseView::Finished,
        }
    }
}

impl View for ManagerEvent {
    type V = ManagerEventView;

    open spec fn view(&self) -> ManagerEventView {
        match self {
            ManagerEvent::Sent(ok) => ManagerEventView::Sent(*ok),
            ManagerEvent::Polled { status, file_len } => ManagerEventView::Polled {
                status: *status,
                file_len: *file_len,
            },
            ManagerEvent::Message(None) => ManagerEventView::Message(None),
            ManagerEvent::Message(Some(u)) => ManagerEventView::Message(Some(u@)),
            ManagerEvent::Prepared { output, log, now } => ManagerEventView::Prepared {
                output: *output,
                log: *log,
                now: *now,
            },
            ManagerEvent::Launched(handle) => ManagerEventView::Launched(*handle),
            ManagerEvent::Interrupted(ok) => ManagerEventView::Interrupted(*ok),
            ManagerEvent::Cleanup(event) => ManagerEventView::Cleanup(*event),
            ManagerEvent::Slept => ManagerEventView::Slept,
        }
    }
}

impl View for ManagerAction {
    type V = ManagerActionView;

    open spec fn view(&self) -> ManagerActionView {
        match self {
            ManagerAction::Send(u) => ManagerActionView::Send(u@),
            ManagerAction::Poll { handle, path } => ManagerActionView::Poll {
                handle: *handle,
                path: path@,
            },
            ManagerAction::Receive => ManagerActionView::Receive,
            ManagerAction::Inspect { download_dir, log_dir } => ManagerActionView::Inspect {
                download_dir: download_dir@,
                log_dir: log_dir@,
            },
            ManagerAction::Launch(command) => ManagerActionView::Launch(command@),
            ManagerAction::Interrupt(pid) => ManagerActionView::Interrupt(*pid),
            ManagerAction::WaitAndPoll { handle, millis } => ManagerActionView::WaitAndPoll {
                handle: *handle,
                millis: *millis,
            },
            ManagerAction::Kill { handle } => ManagerActionView::Kill { handle: *handle },
            ManagerAction::Sleep(secs) => ManagerActionView::Sleep(*secs),
            ManagerAction::Exit => ManagerActionView::Exit,
            ManagerAction::Fail(e) => ManagerActionView::Fail(*e),
        }
    }
}

/// The models of a list of recordings.
pub open spec fn proc_views(s: Seq<DownloaderProc>) -> Seq<ProcView> {
    s.map_values(|x: DownloaderProc| x@)
}

impl View for DownloadManager {
    type V = ManagerView;

    closed spec fn view(&self) -> ManagerView {
        ManagerView {
            download_dir: self.download_dir@,
            log_dir: self.log_dir@,
            downloaders: proc_views(self.downloaders@),
            phase: self.phase@,
        }
    }
}

/// The models of a list of places.
pub open spec fn place_views(s: Seq<usize>) -> Seq<int> {
    s.map_values(|x: usize| x as int)
}

/// The elements of a list at places that are not among the given ones, in their
/// order.
pub open spec fn at_other_places<T>(s: Seq<T>, places: Seq<int>) -> Seq<T>
    decreases s.len(),
{
    if s.len() == 0 {
        s
    } else {
        let rest = at_other_places(s.drop_last(), places);
        if places.contains(s.len() - 1) {
            rest
        } else {
            rest.push(s.last())
        }
    }
}

/// The first recording of a user.
pub open spec fn is_first_of(s: Seq<ProcView>, name: Seq<char>, pos: int) -> bool {
    &&& 0 <= pos < s.len()
    &&& s[pos].name == name
    &&& forall|j: int| 0 <= j < pos ==> (#[trigger] s[j]).name != name
}

/// Whether a user is recorded.
pub open spec fn is_recorded(s: Seq<ProcView>, name: Seq<char>) -> bool {
    exists|j: int| 0 <= j < s.len() && (#[trigger] s[j]).name == name
}

/// Whether places are in rising order, all of them before `end`.
pub open spec fn rising_below(places: Seq<int>, end: int) -> bool {
    &&& forall|i: int| 0 <= i < places.len() ==> 0 <= #[trigger] places[i] < end
    &&& forall|i: int, j: int| 0 <= i < j < places.len() ==> places[i] < places[j]
}

impl ManagerView {
    /// A downloader that begins.
    pub open spec fn initial(download_dir: Seq<char>, log_dir: Seq<char>) -> ManagerView {
        ManagerView {
            download_dir,
            log_dir,
            downloaders: Seq::empty(),
            phase: PhaseView::Starting,
        }
    }

    /// The states that a downloader can be in. Every recording that it keeps
    /// has a process.
    pub open spec fn wf(self) -> bool {
        let n = self.downloaders.len();
        &&& forall|i: int| 0 <= i < n ==> (#[trigger] self.downloaders[i]).handle is Some
        &&& match self.phase {
            PhaseView::Polling { pos, finished } => 0 <= pos < n && rising_below(finished, pos),
            PhaseView::Reporting { pos, finished } => 0 <= pos < n && rising_below(
                finished,
                pos + 1,
            ),
            PhaseView::Launching { recording } => recording.handle is None,
            PhaseView::Signalling { pos } => 0 <= pos < n,
            PhaseView::Cleaning { pos, cleanup } => 0 <= pos < n && cleanup.wf()
                && !(cleanup.phase is Ended),
            PhaseView::SignallingAll { pos } => 0 <= pos < n,
            PhaseView::CleaningAll { pos, cleanup } => 0 <= pos < n && cleanup.wf()
                && !(cleanup.phase is Ended),
            _ => true,
        }
    }

    /// Whether an event can follow.
    pub open spec fn accepts(self, event: ManagerEventView) -> bool {
        match self.phase {
            PhaseView::Starting => event is Sent,
            PhaseView::Polling { pos, finished } => event is Polled,
            PhaseView::Reporting { pos, finished } => event is Sent,
            PhaseView::Receiving => match event {
                ManagerEventView::Message(Some(u)) => u.action is Stop ==> is_recorded(
                    self.downloaders,
                    u.streamer.profile_name,
                ),
                ManagerEventView::Message(None) => true,
                _ => false,
            },
            PhaseView::Preparing { url, name } => match event {
                ManagerEventView::Prepared { output, log, now } => output.usable() && log.usable()
                    && now.valid(),
                _ => false,
            },
            PhaseView::Launching { recording } => event is Launched,
            PhaseView::Signalling { pos } => event is Interrupted,
            PhaseView::Cleaning { pos, cleanup } => match event {
                ManagerEventView::Cleanup(e) => cleanup.accepts(e),
                _ => false,
            },
            PhaseView::SignallingAll { pos } => event == ManagerEventView::Interrupted(true),
            PhaseView::CleaningAll { pos, cleanup } => match event {
                ManagerEventView::Cleanup(e) => cleanup.accepts(e) && !(e is KillFailed),
                _ => false,
            },
            PhaseView::Sleeping => event is Slept,
            PhaseView::Finished => false,
        }
    }

    /// The same downloader, waiting for something else.
    pub open spec fn waiting_for(self, phase: PhaseView) -> ManagerView {
        ManagerView { phase, ..self }
    }

    /// The end, with an error.
    pub open spec fn failed(self, e: ManagerError) -> (ManagerView, ManagerActionView) {
        (self.waiting_for(PhaseView::Finished), ManagerActionView::Fail(e))
    }

    /// The next message is handled.
    pub open spec fn receive(self) -> (ManagerView, ManagerActionView) {
        (self.waiting_for(PhaseView::Receiving), ManagerActionView::Receive)
    }

    /// The recording at `pos` is looked at. Behind the last one, those that
    /// have finished are removed, and messages are handled.
    pub open spec fn look_at(self, pos: int, finished: Seq<int>) -> (
        ManagerView,
        ManagerActionView,
    ) {
        if pos < self.downloaders.len() {
            (
                self.waiting_for(PhaseView::Polling { pos, finished }),
                ManagerActionView::Poll {
                    handle: self.downloaders[pos].handle->0,
                    path: self.downloaders[pos].download_path,
                },
            )
        } else {
            ManagerView {
                downloaders: at_other_places(self.downloaders, finished),
                ..self
            }.receive()
        }
    }

    /// The recording at `pos` is given time to end.
    pub open spec fn wait_for(self, pos: int, phase: PhaseView, millis: u64) -> (
        ManagerView,
        ManagerActionView,
    ) {
        (
            self.waiting_for(phase),
            ManagerActionView::WaitAndPoll { handle: self.downloaders[pos].handle->0, millis },
        )
    }

    /// The recording at `pos` and all behind it are interrupted, then all are
    /// given time to end.
    pub open spec fn signal_all(self, pos: int) -> (ManagerView, ManagerActionView) {
        if pos < self.downloaders.len() {
            (
                self.waiting_for(PhaseView::SignallingAll { pos }),
                ManagerActionView::Interrupt(self.downloaders[pos].handle->0.pid as i32),
            )
        } else {
            self.clean_all(0)
        }
    }

    /// The recording at `pos` and all behind it are given time to end, then the
    /// downloader is done.
    pub open spec fn clean_all(self, pos: int) -> (ManagerView, ManagerActionView) {
        if pos < self.downloaders.len() {
            self.wait_for(
                pos,
                PhaseView::CleaningAll { pos, cleanup: Cleanup::initial() },
                POLL_MILLIS,
            )
        } else {
            (
                ManagerView {
                    downloaders: Seq::empty(),
                    phase: PhaseView::Finished,
                    ..self
                },
                ManagerActionView::Exit,
            )
        }
    }

    /// A message is handled.
    pub open spec fn handle_message(self, u: UpdateView) -> (ManagerView, ManagerActionView) {
        match u.action {
            ActionView::Start(url) => (
                self.waiting_for(
                    PhaseView::Preparing { url, name: u.streamer.profile_name },
                ),
                ManagerActionView::Inspect {
                    download_dir: self.download_dir,
                    log_dir: self.log_dir,
                },
            ),
            ActionView::Stop => {
                let pos = choose|pos: int|
                    is_first_of(self.downloaders, u.streamer.profile_name, pos);
                (
                    self.waiting_for(PhaseView::Signalling { pos }),
                    ManagerActionView::Interrupt(self.downloaders[pos].handle->0.pid as i32),
                )
            },
            ActionView::StopAll => self.signal_all(0),
            _ => self.receive(),
        }
    }

    /// What follows an event: the next state, and what is to be done.
    pub open spec fn step(self, event: ManagerEventView) -> (ManagerView, ManagerActionView) {
        match (self.phase, event) {
            (PhaseView::Starting, ManagerEventView::Sent(ok)) => if ok {
                self.look_at(0, Seq::empty())
            } else {
                self.failed(ManagerError::SendFailed)
            },
            (
                PhaseView::Polling { pos, finished },
                ManagerEventView::Polled { status, file_len },
            ) => (
                self.waiting_for(
                    PhaseView::Reporting {
                        pos,
                        finished: if status is Some {
                            finished.push(pos)
                        } else {
                            finished
                        },
                    },
                ),
                ManagerActionView::Send(self.downloaders[pos].report(status, file_len)),
            ),
            (PhaseView::Reporting { pos, finished }, ManagerEventView::Sent(ok)) => if ok {
                self.look_at(pos + 1, finished)
            } else {
                self.failed(ManagerError::SendFailed)
            },
            (PhaseView::Receiving, ManagerEventView::Message(Some(u))) => self.handle_message(u),
            (PhaseView::Receiving, ManagerEventView::Message(None)) => (
                self.waiting_for(PhaseView::Sleeping),
                ManagerActionView::Sleep(ROUND_SECS),
            ),
            (
                PhaseView::Preparing { url, name },
                ManagerEventView::Prepared { output, log, now },
            ) => {
                let recording = ProcView::new(url, name, self.download_dir, self.log_dir, now);
                (
                    self.waiting_for(PhaseView::Launching { recording }),
                    ManagerActionView::Launch(recording.command()),
                )
            },
            (PhaseView::Launching { recording }, ManagerEventView::Launched(Some(handle))) =>
                ManagerView {
                downloaders: self.downloaders.push(recording.with_handle(handle)),
                ..self
            }.receive(),
            (PhaseView::Launching { recording }, ManagerEventView::Launched(None)) => self.failed(
                ManagerError::StartFailed,
            ),
            (PhaseView::Signalling { pos }, ManagerEventView::Interrupted(ok)) => if ok {
                self.wait_for(
                    pos,
                    PhaseView::Cleaning { pos, cleanup: Cleanup::initial() },
                    POLL_MILLIS,
                )
            } else {
                self.failed(ManagerError::InterruptFailed)
            },
            (PhaseView::Cleaning { pos, cleanup }, ManagerEventView::Cleanup(e)) => {
                let next = PhaseView::Cleaning { pos, cleanup: cleanup.after(e) };
                match cleanup.action(e) {
                    CleanupAction::WaitAndPoll(millis) => self.wait_for(pos, next, millis),
                    CleanupAction::Kill => (
                        self.waiting_for(next),
                        ManagerActionView::Kill { handle: self.downloaders[pos].handle->0 },
                    ),
                    CleanupAction::Done => ManagerView {
                        downloaders: self.downloaders.remove(pos),
                        ..self
                    }.receive(),
                    CleanupAction::Failed => self.failed(ManagerError::KillFailed),
                }
            },
            (PhaseView::SignallingAll { pos }, ManagerEventView::Interrupted(ok)) =>
                self.signal_all(pos + 1),
            (PhaseView::CleaningAll { pos, cleanup }, ManagerEventView::Cleanup(e)) => {
                let next = PhaseView::CleaningAll { pos, cleanup: cleanup.after(e) };
                match cleanup.action(e) {
                    CleanupAction::WaitAndPoll(millis) => self.wait_for(pos, next, millis),
                    CleanupAction::Kill => (
                        self.waiting_for(next),
                        ManagerActionView::Kill { handle: self.downloaders[pos].handle->0 },
                    ),
                    _ => self.clean_all(pos + 1),
                }
            },
            (PhaseView::Sleeping, ManagerEventView::Slept) => self.look_at(0, Seq::empty()),
            _ => (self, ManagerActionView::Exit),
        }
    }
}

/// Finds the first recording of a user.
fn find_recording(downloaders: &Vec<DownloaderProc>, name: &String) -> (r: Option<usize>)
    ensures
        match r {
            Some(pos) => is_first_of(proc_views(downloaders@), name@, pos as int),
            None => !is_recorded(proc_views(downloaders@), name@),
        },
{
    let ghost all = proc_views(downloaders@);
    let mut i: usize = 0;
    while i < downloaders.len()
        invariant
            i <= downloaders.len(),
            all == proc_views(downloaders@),
            forall|j: int| 0 <= j < i ==> (#[trigger] all[j]).name != name@,
        decreases downloaders.len() - i,
    {
        assert(all[i as int] == downloaders@[i as int]@);
        if downloaders[i].name == *name {
            return Some(i);
        }
        i += 1;
    }
    None
}

/// Only places in the list matter for what is left of it.
proof fn lemma_same_places<T>(s: Seq<T>, a: Seq<int>, b: Seq<int>)
    requires
        forall|i: int| 0 <= i < s.len() ==> (#[trigger] a.contains(i) <==> b.contains(i)),
    ensures
        at_other_places(s, a) == at_other_places(s, b),
    decreases s.len(),
{
    if s.len() > 0 {
        lemma_same_places(s.drop_last(), a, b);
        assert(a.contains(s.len() - 1) <==> b.contains(s.len() - 1));
    }
}

/// Without any place, the whole list is left.
pub proof fn lemma_no_places<T>(s: Seq<T>)
    ensures
        at_other_places(s, Seq::<int>::empty()) == s,
    decreases s.len(),
{
    if s.len() > 0 {
        lemma_no_places(s.drop_last());
        assert(s.drop_last().push(s.last()) == s);
    }
}

/// Removing at the last place first leaves the other places as they are.
proof fn lemma_last_place_first<T>(s: Seq<T>, places: Seq<int>)
    requires
        rising_below(places, s.len() as int),
        places.len() > 0,
    ensures
        at_other_places(s, places) == at_other_places(
            s.remove(places.last()),
            places.drop_last(),
        ),
    decreases s.len(),
{
    let init = s.drop_last();
    let rest = places.drop_last();
    let end = s.len() - 1;
    assert(places[places.len() - 1] == places.last());
    assert forall|i: int| 0 <= i < end && i != places.last() implies (#[trigger] places.contains(i)
        <==> rest.contains(i)) by {
        if places.contains(i) {
            let j = choose|j: int| 0 <= j < places.len() && places[j] == i;
            assert(rest[j] == i);
        }
        if rest.contains(i) {
            let j = choose|j: int| 0 <= j < rest.len() && rest[j] == i;
            assert(places[j] == i);
        }
    }
    if places.last() == end {
        assert(places.contains(end));
        assert(s.remove(end) == init);
        lemma_same_places(init, places, rest);
    } else {
        assert(!places.contains(end)) by {
            if places.contains(end) {
                let j = choose|j: int| 0 <= j < places.len() && places[j] == end;
                assert(places[j] <= places.last());
            }
        }
        assert(rising_below(places, init.len() as int)) by {
            assert forall|i: int| 0 <= i < places.len() implies 0 <= #[trigger] places[i]
                < init.len() by {
                assert(places[i] <= places.last());
            }
        }
        lemma_last_place_first(init, places);
        let t = s.remove(places.last());
        assert(t.drop_last() == init.remove(places.last()));
        assert(t.last() == s.last());
        assert(!rest.contains(end - 1)) by {
            if rest.contains(end - 1) {
                let j = choose|j: int| 0 <= j < rest.len() && rest[j] == end - 1;
                assert(places[j] < places.last());
            }
        }
    }
}

/// Removes the elements at the given places, the last one first.
fn remove_places(downloaders: &mut Vec<DownloaderProc>, places: &Vec<usize>)
    requires
        rising_below(place_views(places@), old(downloaders).len() as int),
    ensures
        proc_views(final(downloaders)@) == at_other_places(
            proc_views(old(downloaders)@),
            place_views(places@),
        ),
{
    let ghost all = proc_views(downloaders@);
    let ghost at = place_views(places@);
    let mut j: usize = places.len();
    assert(at.take(j as int) == at);
    while j > 0
        invariant
            j <= places.len(),
            at == place_views(places@),
            rising_below(at.take(j as int), downloaders@.len() as int),
            at_other_places(all, at) == at_other_places(
                proc_views(downloaders@),
                at.take(j as int),
            ),
        decreases j,
    {
        let place: usize = places[j - 1];
        let ghost before = proc_views(downloaders@);
        let ghost left = at.take(j as int);
        proof {
            assert(left.last() == place);
            assert(left[j - 1] == place);
            assert(left.drop_last() == at.take(j - 1));
            lemma_last_place_first(before, left);
        }
        downloaders.remove(place);
        assert(proc_views(downloaders@) == before.remove(place as int));
        j -= 1;
        assert forall|i: int| 0 <= i < at.take(j as int).len() implies 0 <= #[trigger] at.take(
            j as int,
        )[i] < downloaders@.len() by {
            assert(at.take(j as int)[i] == left[i]);
            assert(left[i] < left[j as int]);
        }
    }
    proof {
        assert(at.take(0) == Seq::<int>::empty());
        lemma_no_places(proc_views(downloaders@));
    }
}

/// The first recording of a user is the only one that comes first.
proof fn lemma_first_is_unique(s: Seq<ProcView>, name: Seq<char>, pos: int)
    requires
        is_first_of(s, name, pos),
    ensures
        pos == choose|p: int| is_first_of(s, name, p),
{
    let p = choose|p: int| is_first_of(s, name, p);
    assert(is_first_of(s, name, p));
    assert(s[p].name == name && s[pos].name == name);
}

/// What is left of a list was in it before.
pub proof fn lemma_left_was_there<T>(s: Seq<T>, places: Seq<int>, i: int)
    requires
        0 <= i < at_other_places(s, places).len(),
    ensures
        s.contains(at_other_places(s, places)[i]),
    decreases s.len(),
{
    if s.len() > 0 {
        let init = s.drop_last();
        let rest = at_other_places(init, places);
        if i < rest.len() {
            lemma_left_was_there(init, places, i);
            let j = choose|j: int| 0 <= j < init.len() && init[j] == rest[i];
            assert(s[j] == rest[i]);
        } else {
            assert(s[s.len() - 1] == s.last());
        }
    }
}

/// Recordings with a process stay so when some are left out.
proof fn lemma_left_have_handles(s: Seq<ProcView>, places: Seq<int>)
    requires
        forall|i: int| 0 <= i < s.len() ==> (#[trigger] s[i]).handle is Some,
    ensures
        forall|i: int|
            0 <= i < at_other_places(s, places).len() ==> (#[trigger] at_other_places(
                s,
                places,
            )[i]).handle is Some,
{
    assert forall|i: int| 0 <= i < at_other_places(s, places).len() implies (
    #[trigger] at_other_places(s, places)[i]).handle is Some by {
        lemma_left_was_there(s, places, i);
    }
}

impl DownloadManager {
    /// A downloader that begins, and the first thing to be done: to say that it
    /// is ready.
    pub fn new(download_dir: &str, log_dir: &str) -> (r: (DownloadManager, ManagerAction))
        ensures
            r.0@ == ManagerView::initial(download_dir@, log_dir@),
            r.0@.wf(),
            r.1@ == ManagerActionView::Send(
                UpdateView { streamer: StreamerView::nobody(), action: ActionView::Heartbeat },
            ),
    {
        let downloaders: Vec<DownloaderProc> = Vec::new();
        assert(proc_views(downloaders@) == Seq::<ProcView>::empty());
        (
            DownloadManager {
                download_dir: download_dir.to_owned(),
                log_dir: log_dir.to_owned(),
                downloaders,
                phase: ManagerPhase::Starting,
            },
            ManagerAction::Send(StreamerUpdate::heartbeat()),
        )
    }

    /// Whether one of the recordings has that process.
    pub fn manages(&self, id: u64) -> (r: bool)
        ensures
            r == exists|i: int|
                0 <= i < self@.downloaders.len() && {
                    &&& (#[trigger] self@.downloaders[i]).handle is Some
                    &&& self@.downloaders[i].handle->0.id == id
                },
    {
        let mut i: usize = 0;
        while i < self.downloaders.len()
            invariant
                i <= self.downloaders.len(),
                forall|j: int|
                    0 <= j < i ==> {
                        ||| (#[trigger] self@.downloaders[j]).handle is None
                        ||| self@.downloaders[j].handle->0.id != id
                    },
            decreases self.downloaders.len() - i,
        {
            assert(self@.downloaders[i as int] == self.downloaders@[i as int]@);
            match self.downloaders[i].handle {
                Some(handle) => {
                    if handle.id == id {
                        return true;
                    }
                },
                None => {},
            }
            i += 1;
        }
        false
    }

    /// Whether an event can follow.
    pub fn can_accept(&self, event: &ManagerEvent) -> (r: bool)
        ensures
            r == self@.accepts(event@),
    {
        match (&self.phase, event) {
            (ManagerPhase::Starting, ManagerEvent::Sent(_)) => true,
            (ManagerPhase::Polling { .. }, ManagerEvent::Polled { .. }) => true,
            (ManagerPhase::Reporting { .. }, ManagerEvent::Sent(_)) => true,
            (ManagerPhase::Receiving, ManagerEvent::Message(None)) => true,
            (ManagerPhase::Receiving, ManagerEvent::Message(Some(u))) => match u.action {
                StreamerAction::Stop => {
                    let found = find_recording(&self.downloaders, &u.streamer.profile_name);
                    found.is_some()
                },
                _ => true,
            },
            (ManagerPhase::Preparing { .. }, ManagerEvent::Prepared { output, log, now }) => {
                output.is_usable() && log.is_usable() && now.is_valid()
            },
            (ManagerPhase::Launching { .. }, ManagerEvent::Launched(_)) => true,
            (ManagerPhase::Signalling { .. }, ManagerEvent::Interrupted(_)) => true,
            (ManagerPhase::Cleaning { cleanup, .. }, ManagerEvent::Cleanup(e)) => {
                cleanup.can_accept(*e)
            },
            (ManagerPhase::SignallingAll { .. }, ManagerEvent::Interrupted(ok)) => *ok,
            (ManagerPhase::CleaningAll { cleanup, .. }, ManagerEvent::Cleanup(e)) => match e {
                CleanupEvent::KillFailed => false,
                _ => cleanup.can_accept(*e),
            },
            (ManagerPhase::Sleeping, ManagerEvent::Slept) => true,
            _ => false,
        }
    }

    /// The end, with an error.
    fn fail(self, e: ManagerError) -> (r: (DownloadManager, ManagerAction))
        ensures
            (r.0@, r.1@) == self@.failed(e),
    {
        (DownloadManager { phase: ManagerPhase::Finished, ..self }, ManagerAction::Fail(e))
    }

    /// The next message is handled.
    fn receive(self) -> (r: (DownloadManager, ManagerAction))
        ensures
            (r.0@, r.1@) == self@.receive(),
    {
        (DownloadManager { phase: ManagerPhase::Receiving, ..self }, ManagerAction::Receive)
    }

    /// The recording at `pos` is dropped, and the next message is handled.
    fn drop_recording(self, pos: usize) -> (r: (DownloadManager, ManagerAction))
        requires
            pos < self@.downloaders.len(),
        ensures
            (r.0@, r.1@) == (ManagerView {
                downloaders: self@.downloaders.remove(pos as int),
                ..self@
            }).receive(),
    {
        let ghost before = self@.downloaders;
        let mut downloaders = self.downloaders;
        downloaders.remove(pos);
        assert(proc_views(downloaders@) == before.remove(pos as int));
        let left = DownloadManager { downloaders, ..self };
        left.receive()
    }

    /// The process of a recording that has one.
    fn handle_at(&self, pos: usize) -> (r: ProcHandle)
        requires
            pos < self@.downloaders.len(),
            self@.downloaders[pos as int].handle is Some,
        ensures
            r == self@.downloaders[pos as int].handle->0,
    {
        self.downloaders[pos].handle.unwrap()
    }

    /// The recording at `pos` is looked at, or messages are handled.
    fn look_at(self, pos: usize, finished: Vec<usize>) -> (r: (DownloadManager, ManagerAction))
        requires
            pos < self@.downloaders.len() ==> self@.downloaders[pos as int].handle is Some,
            rising_below(place_views(finished@), self@.downloaders.len() as int),
        ensures
            (r.0@, r.1@) == self@.look_at(pos as int, place_views(finished@)),
    {
        if pos < self.downloaders.len() {
            let handle = self.handle_at(pos);
            let path = self.downloaders[pos].download_path.clone();
            (
                DownloadManager { phase: ManagerPhase::Polling { pos, finished }, ..self },
                ManagerAction::Poll { handle, path },
            )
        } else {
            let mut downloaders = self.downloaders;
            remove_places(&mut downloaders, &finished);
            let swept = DownloadManager { downloaders, ..self };
            swept.receive()
        }
    }

    /// The recordings are looked at from the first one on.
    fn begin_round(self) -> (r: (DownloadManager, ManagerAction))
        requires
            self@.downloaders.len() > 0 ==> self@.downloaders[0].handle is Some,
        ensures
            (r.0@, r.1@) == self@.look_at(0, Seq::empty()),
    {
        let finished: Vec<usize> = Vec::new();
        assert(place_views(finished@) == Seq::<int>::empty());
        self.look_at(0, finished)
    }

    /// The recording at `pos` is given time to end.
    fn wait_for(self, pos: usize, phase: ManagerPhase, millis: u64) -> (r: (
        DownloadManager,
        ManagerAction,
    ))
        requires
            pos < self@.downloaders.len(),
            self@.downloaders[pos as int].handle is Some,
        ensures
            (r.0@, r.1@) == self@.wait_for(pos as int, phase@, millis),
    {
        let handle = self.handle_at(pos);
        (DownloadManager { phase, ..self }, ManagerAction::WaitAndPoll { handle, millis })
    }

    /// The recording at `pos` is interrupted.
    fn interrupt(self, pos: usize, phase: ManagerPhase) -> (r: (DownloadManager, ManagerAction))
        requires
            pos < self@.downloaders.len(),
            self@.downloaders[pos as int].handle is Some,
        ensures
            r.0@ == self@.waiting_for(phase@),
            r.1@ == ManagerActionView::Interrupt(
                self@.downloaders[pos as int].handle->0.pid as i32,
            ),
    {
        let pid: i32 = self.downloaders[pos].send_sigint().unwrap();
        (DownloadManager { phase, ..self }, ManagerAction::Interrupt(pid))
    }

    /// The recording at `pos` and all behind it are given time to end, then the
    /// downloader is done.
    fn clean_all(self, pos: usize) -> (r: (DownloadManager, ManagerAction))
        requires
            pos < self@.downloaders.len() ==> self@.downloaders[pos as int].handle is Some,
        ensures
            (r.0@, r.1@) == self@.clean_all(pos as int),
    {
        if pos < self.downloaders.len() {
            let (cleanup, _) = self.downloaders[pos].cleanup_process().unwrap();
            self.wait_for(pos, ManagerPhase::CleaningAll { pos, cleanup }, POLL_MILLIS)
        } else {
            let mut downloaders = self.downloaders;
            downloaders.clear();
            assert(proc_views(downloaders@) == Seq::<ProcView>::empty());
            (
                DownloadManager { downloaders, phase: ManagerPhase::Finished, ..self },
                ManagerAction::Exit,
            )
        }
    }

    /// The recording at `pos` and all behind it are interrupted, then all are
    /// given time to end.
    fn signal_all(self, pos: usize) -> (r: (DownloadManager, ManagerAction))
        requires
            self@.downloaders.len() > 0 ==> self@.downloaders[0].handle is Some,
            pos < self@.downloaders.len() ==> self@.downloaders[pos as int].handle is Some,
        ensures
            (r.0@, r.1@) == self@.signal_all(pos as int),
    {
        if pos < self.downloaders.len() {
            self.interrupt(pos, ManagerPhase::SignallingAll { pos })
        } else {
            self.clean_all(0)
        }
    }

    /// A message is handled.
    fn handle_message(self, u: StreamerUpdate) -> (r: (DownloadManager, ManagerAction))
        requires
            self@.wf(),
            u@.action is Stop ==> is_recorded(self@.downloaders, u@.streamer.profile_name),
        ensures
            (r.0@, r.1@) == self@.handle_message(u@),
    {
        match u.action {
            StreamerAction::Start(url) => {
                let download_dir = self.download_dir.clone();
                let log_dir = self.log_dir.clone();
                let phase = ManagerPhase::Preparing { url, name: u.streamer.profile_name };
                (
                    DownloadManager { phase, ..self },
                    ManagerAction::Inspect { download_dir, log_dir },
                )
            },
            StreamerAction::Stop => {
                let name = u.streamer.profile_name;
                let pos: usize = find_recording(&self.downloaders, &name).unwrap();
                proof {
                    lemma_first_is_unique(self@.downloaders, name@, pos as int);
                }
                self.interrupt(pos, ManagerPhase::Signalling { pos })
            },
            StreamerAction::StopAll => self.signal_all(0),
            _ => self.receive(),
        }
    }

    /// Acts upon an event: the downloader afterwards, and what is to be done.
    pub fn next(self, event: ManagerEvent) -> (r: (DownloadManager, ManagerAction))
        requires
            self@.wf(),
            self@.accepts(event@),
        ensures
            (r.0@, r.1@) == self@.step(event@),
            r.0@.wf(),
    {
        proof {
            lemma_step_keeps_wf(self@, event@);
        }
        let ghost start = self@;
        let count: usize = self.downloaders.len();
        assert(count == start.downloaders.len());
        let DownloadManager { download_dir, log_dir, mut downloaders, phase } = self;
        match (phase, event) {
            (ManagerPhase::Starting, ManagerEvent::Sent(ok)) => {
                let s = DownloadManager {
                    download_dir,
                    log_dir,
                    downloaders,
                    phase: ManagerPhase::Starting,
                };
                if ok {
                    s.begin_round()
                } else {
                    s.fail(ManagerError::SendFailed)
                }
            },
            (
                ManagerPhase::Polling { pos, mut finished },
                ManagerEvent::Polled { status, file_len },
            ) => {
                let report = downloaders[pos].report(status, file_len);
                assert(start.downloaders[pos as int] == downloaders@[pos as int]@);
                let ghost before = finished@;
                if downloaders[pos].get_proc_status(status).is_some() {
                    finished.push(pos);
                    assert(place_views(finished@) == place_views(before).push(pos as int));
                }
                let phase = ManagerPhase::Reporting { pos, finished };
                (
                    DownloadManager { download_dir, log_dir, downloaders, phase },
                    ManagerAction::Send(report),
                )
            },
            (ManagerPhase::Reporting { pos, finished }, ManagerEvent::Sent(ok)) => {
                let s = DownloadManager {
                    download_dir,
                    log_dir,
                    downloaders,
                    phase: ManagerPhase::Receiving,
                };
                if ok {
                    s.look_at(pos + 1, finished)
                } else {
                    s.fail(ManagerError::SendFailed)
                }
            },
            (ManagerPhase::Receiving, ManagerEvent::Message(Some(u))) => {
                let s = DownloadManager {
                    download_dir,
                    log_dir,
                    downloaders,
                    phase: ManagerPhase::Receiving,
                };
                s.handle_message(u)
            },
            (ManagerPhase::Receiving, ManagerEvent::Message(None)) => (
                DownloadManager {
                    download_dir,
                    log_dir,
                    downloaders,
                    phase: ManagerPhase::Sleeping,
                },
                ManagerAction::Sleep(ROUND_SECS),
            ),
            (
                ManagerPhase::Preparing { url, name },
                ManagerEvent::Prepared { output, log, now },
            ) => {
                let recording = DownloaderProc::new(
                    url.as_str(),
                    name.as_str(),
                    download_dir.as_str(),
                    log_dir.as_str(),
                    output,
                    log,
                    &now,
                );
                let command = recording.start_command();
                let phase = ManagerPhase::Launching { recording };
                (
                    DownloadManager { download_dir, log_dir, downloaders, phase },
                    ManagerAction::Launch(command),
                )
            },
            (ManagerPhase::Launching { mut recording }, ManagerEvent::Launched(launched)) => {
                let started: Result<ProcHandle, ManagerError> = match launched {
                    Some(handle) => Ok(handle),
                    None => Err(ManagerError::StartFailed),
                };
                match recording.start_downloading(started) {
                    Ok(()) => {
                        downloaders.push(recording);
                        assert(proc_views(downloaders@) == start.downloaders.push(recording@));
                        let phase = ManagerPhase::Receiving;
                        let s = DownloadManager { download_dir, log_dir, downloaders, phase };
                        s.receive()
                    },
                    Err(e) => {
                        let phase = ManagerPhase::Receiving;
                        let s = DownloadManager { download_dir, log_dir, downloaders, phase };
                        s.fail(e)
                    },
                }
            },
            (ManagerPhase::Signalling { pos }, ManagerEvent::Interrupted(ok)) => {
                let s = DownloadManager {
                    download_dir,
                    log_dir,
                    downloaders,
                    phase: ManagerPhase::Signalling { pos },
                };
                if ok {
                    let (cleanup, _) = s.downloaders[pos].cleanup_process().unwrap();
                    s.wait_for(pos, ManagerPhase::Cleaning { pos, cleanup }, POLL_MILLIS)
                } else {
                    s.fail(ManagerError::InterruptFailed)
                }
            },
            (ManagerPhase::Cleaning { pos, mut cleanup }, ManagerEvent::Cleanup(e)) => {
                let action = cleanup.next(e);
                let s = DownloadManager {
                    download_dir,
                    log_dir,
                    downloaders,
                    phase: ManagerPhase::Cleaning { pos, cleanup },
                };
                match action {
                    CleanupAction::WaitAndPoll(millis) => s.wait_for(
                        pos,
                        ManagerPhase::Cleaning { pos, cleanup },
                        millis,
                    ),
                    CleanupAction::Kill => {
                        let handle = s.handle_at(pos);
                        (s, ManagerAction::Kill { handle })
                    },
                    CleanupAction::Done => s.drop_recording(pos),
                    CleanupAction::Failed => s.fail(ManagerError::KillFailed),
                }
            },
            (ManagerPhase::SignallingAll { pos }, ManagerEvent::Interrupted(_)) => {
                let s = DownloadManager {
                    download_dir,
                    log_dir,
                    downloaders,
                    phase: ManagerPhase::SignallingAll { pos },
                };
                s.signal_all(pos + 1)
            },
            (ManagerPhase::CleaningAll { pos, mut cleanup }, ManagerEvent::Cleanup(e)) => {
                let action = cleanup.next(e);
                let s = DownloadManager {
                    download_dir,
                    log_dir,
                    downloaders,
                    phase: ManagerPhase::CleaningAll { pos, cleanup },
                };
                match action {
                    CleanupAction::WaitAndPoll(millis) => s.wait_for(
                        pos,
                        ManagerPhase::CleaningAll { pos, cleanup },
                        millis,
                    ),
                    CleanupAction::Kill => {
                        let handle = s.handle_at(pos);
                        (s, ManagerAction::Kill { handle })
                    },
                    _ => s.clean_all(pos + 1),
                }
            },
            (ManagerPhase::Sleeping, ManagerEvent::Slept) => {
                let s = DownloadManager {
                    download_dir,
                    log_dir,
                    downloaders,
                    phase: ManagerPhase::Sleeping,
                };
                s.begin_round()
            },
            (phase, _) => (
                DownloadManager { download_dir, log_dir, downloaders, phase },
                ManagerAction::Exit,
            ),
        }
    }
}

/// Every state that follows an accepted event is one that a downloader can be
/// in: in particular every recording that it keeps has a process.
pub proof fn lemma_step_keeps_wf(s: ManagerView, event: ManagerEventView)
    requires
        s.wf(),
        s.accepts(event),
    ensures
        s.step(event).0.wf(),
{
    match (s.phase, event) {
        (PhaseView::Starting, ManagerEventView::Sent(ok)) => {
            lemma_no_places(s.downloaders);
        },
        (PhaseView::Sleeping, ManagerEventView::Slept) => {
            lemma_no_places(s.downloaders);
        },
        (PhaseView::Reporting { pos, finished }, ManagerEventView::Sent(ok)) => {
            if ok && pos + 1 == s.downloaders.len() {
                lemma_left_have_handles(s.downloaders, finished);
            }
        },
        (PhaseView::Receiving, ManagerEventView::Message(Some(u))) => {
            if u.action is Stop {
                lemma_first_exists(s.downloaders, u.streamer.profile_name);
            }
        },
        _ => {},
    }
}

/// A user who is recorded has a first recording.
proof fn lemma_first_exists(s: Seq<ProcView>, name: Seq<char>)
    requires
        is_recorded(s, name),
    ensures
        exists|pos: int| is_first_of(s, name, pos),
    decreases s.len(),
{
    let j = choose|j: int| 0 <= j < s.len() && (#[trigger] s[j]).name == name;
    let init = s.take(j);
    if is_recorded(init, name) {
        lemma_first_exists(init, name);
        let pos = choose|pos: int| is_first_of(init, name, pos);
        assert(is_first_of(s, name, pos)) by {
            assert(s[pos] == init[pos]);
            assert forall|k: int| 0 <= k < pos implies (#[trigger] s[k]).name != name by {
                assert(init[k] == s[k]);
            }
        }
    } else {
        assert(is_first_of(s, name, j)) by {
            assert forall|k: int| 0 <= k < j implies (#[trigger] s[k]).name != name by {
                assert(init[k] == s[k]);
            }
        }
    }
}

} // verus!
