//! What holds of every downloader, over more than one step.

use crate::cleanup::{
    after_alive, lemma_after_alive, Cleanup, CleanupEvent, CleanupPhase, PATIENCE, POLL_MILLIS,
};
use crate::clock::LocalTime;
use crate::downloader::{video_file, DirectoryInfo, DownloaderProc, ProcHandle, ProcView};
use crate::manager::{
    at_other_places, is_first_of, is_recorded, lemma_left_was_there, lemma_no_places,
    lemma_step_keeps_wf, proc_views, ManagerAction, ManagerActionView, ManagerError, ManagerEvent,
    ManagerEventView, ManagerView, PhaseView,
};
use crate::reports::is_report;
use crate::streamer::{ActionView, UpdateView};
use crate::text::joined_path;
use vstd::prelude::*;

verus! {

/// What was seen of a recording: the exit status of its process and the length
/// of its file, as far as there are any.
pub struct Look {
    pub status: Option<i32>,
    pub file_len: Option<u64>,
}

/// The places at which the process had ended, among the first `k`.
pub open spec fn ended(looks: Seq<Look>, k: int) -> Seq<int>
    decreases k,
{
    if k <= 0 {
        Seq::empty()
    } else if looks[k - 1].status is Some {
        ended(looks, k - 1).push(k - 1)
    } else {
        ended(looks, k - 1)
    }
}

/// The downloader after the first `k` recordings were looked at and reported.
pub open spec fn after_looks(s: ManagerView, looks: Seq<Look>, k: int) -> ManagerView
    decreases k,
{
    if k <= 0 {
        s.look_at(0, Seq::empty()).0
    } else {
        let look = looks[k - 1];
        after_looks(s, looks, k - 1).step(
            ManagerEventView::Polled { status: look.status, file_len: look.file_len },
        ).0.step(ManagerEventView::Sent(true)).0
    }
}

/// In a round every recording is looked at once and reported once, one after
/// the other.
pub proof fn law_round_reports_every_recording(s: ManagerView, looks: Seq<Look>, k: int)
    requires
        s.wf(),
        looks.len() == s.downloaders.len(),
        0 <= k < looks.len(),
    ensures
        after_looks(s, looks, k) == s.waiting_for(
            PhaseView::Polling { pos: k, finished: ended(looks, k) },
        ),
        ({
            let t = after_looks(s, looks, k);
            let look = ManagerEventView::Polled {
                status: looks[k].status,
                file_len: looks[k].file_len,
            };
            &&& t.accepts(look)
            &&& t.step(look).1 == ManagerActionView::Send(
                s.downloaders[k].report(looks[k].status, looks[k].file_len),
            )
            &&& t.step(look).0.accepts(ManagerEventView::Sent(true))
        }),
    decreases k,
{
    if k > 0 {
        law_round_reports_every_recording(s, looks, k - 1);
    }
}

/// After a round the recordings that have finished are removed, and messages
/// are handled.
pub proof fn law_round_ends_with_messages(s: ManagerView, looks: Seq<Look>)
    requires
        s.wf(),
        looks.len() == s.downloaders.len(),
    ensures
        after_looks(s, looks, looks.len() as int) == (ManagerView {
            downloaders: at_other_places(s.downloaders, ended(looks, looks.len() as int)),
            phase: PhaseView::Receiving,
            ..s
        }),
{
    if looks.len() > 0 {
        law_round_reports_every_recording(s, looks, looks.len() - 1);
    }
}

/// Which places have ended.
proof fn lemma_ended(looks: Seq<Look>, k: int)
    requires
        0 <= k <= looks.len(),
    ensures
        forall|i: int| #[trigger]
            ended(looks, k).contains(i) <==> 0 <= i < k && looks[i].status is Some,
    decreases k,
{
    if k > 0 {
        lemma_ended(looks, k - 1);
        let before = ended(looks, k - 1);
        let after = ended(looks, k);
        if looks[k - 1].status is Some {
            assert(after[before.len() as int] == k - 1);
            assert forall|i: int| #[trigger] after.contains(i) <==> 0 <= i < k && looks[i].status
                is Some by {
                if before.contains(i) {
                    let j = choose|j: int| 0 <= j < before.len() && before[j] == i;
                    assert(after[j] == i);
                }
                if after.contains(i) && i != k - 1 {
                    let j = choose|j: int| 0 <= j < after.len() && after[j] == i;
                    assert(before[j] == i);
                }
            }
        }
    }
}

/// The recordings that go on.
pub open spec fn going_on(s: Seq<ProcView>, looks: Seq<Look>) -> Seq<ProcView>
    decreases s.len(),
{
    if s.len() == 0 {
        s
    } else {
        let rest = going_on(s.drop_last(), looks);
        if looks[s.len() - 1].status is Some {
            rest
        } else {
            rest.push(s.last())
        }
    }
}

/// The recordings that go on are those at places that have not ended.
proof fn lemma_going_on(s: Seq<ProcView>, looks: Seq<Look>, places: Seq<int>)
    requires
        s.len() <= looks.len(),
        forall|i: int| 0 <= i < s.len() ==> (places.contains(i) <==> #[trigger] looks[i].status
            is Some),
    ensures
        going_on(s, looks) == at_other_places(s, places),
    decreases s.len(),
{
    if s.len() > 0 {
        lemma_going_on(s.drop_last(), looks, places);
        assert(places.contains(s.len() - 1) <==> looks[s.len() - 1].status is Some);
    }
}

/// After a round the downloader keeps exactly the recordings that go on, in
/// their order, however many have ended.
pub proof fn law_round_keeps_what_goes_on(s: ManagerView, looks: Seq<Look>)
    requires
        s.wf(),
        looks.len() == s.downloaders.len(),
    ensures
        after_looks(s, looks, looks.len() as int).downloaders == going_on(s.downloaders, looks),
{
    lemma_ended(looks, looks.len() as int);
    law_round_ends_with_messages(s, looks);
    lemma_going_on(s.downloaders, looks, ended(looks, looks.len() as int));
}

/// After its heartbeat a downloader sends nothing but reports about its
/// recordings.
pub proof fn law_downloader_sends_reports(s: ManagerView, event: ManagerEventView)
    requires
        s.wf(),
        s.accepts(event),
    ensures
        match s.step(event).1 {
            ManagerActionView::Send(u) => is_report(u) && is_recorded(
                s.downloaders,
                u.streamer.profile_name,
            ),
            _ => true,
        },
{
}

/// The list of recordings changes in four ways only: a new one is put at its
/// end, finished ones are removed after a round, one that was stopped is removed,
/// and it is emptied at the end.
pub proof fn law_list_of_recordings(s: ManagerView, event: ManagerEventView)
    requires
        s.wf(),
        s.accepts(event),
    ensures
        ({
            let t = s.step(event).0;
            ||| t.downloaders == s.downloaders
            ||| {
                &&& s.phase is Launching
                &&& t.downloaders.len() == s.downloaders.len() + 1
                &&& t.downloaders.drop_last() == s.downloaders
            }
            ||| {
                &&& s.phase is Reporting
                &&& t.downloaders == at_other_places(s.downloaders, s.phase->Reporting_finished)
            }
            ||| {
                &&& s.phase is Cleaning
                &&& t.downloaders == s.downloaders.remove(s.phase->Cleaning_pos)
            }
            ||| {
                &&& t.downloaders.len() == 0
                &&& t.phase is Finished
                &&& s.step(event).1 is Exit
            }
        }),
{
    match (s.phase, event) {
        (PhaseView::Launching { recording }, ManagerEventView::Launched(Some(handle))) => {
            let t = s.step(event).0;
            assert(t.downloaders.drop_last() == s.downloaders);
        },
        _ => {
            lemma_no_places(s.downloaders);
        },
    }
}

/// Told to start a user, a downloader looks at its directories and the clock,
/// has ffmpeg copy the stream under the link to a file named after the user and
/// the time, and keeps the recording with its process behind all others.
pub proof fn law_start_records_the_stream(
    s: ManagerView,
    u: UpdateView,
    link: Seq<char>,
    output: DirectoryInfo,
    log: DirectoryInfo,
    now: LocalTime,
    handle: ProcHandle,
)
    requires
        s.wf(),
        s.phase is Receiving,
        u.action == ActionView::Start(link),
        output.usable(),
        log.usable(),
        now.valid(),
    ensures
        ({
            let name = u.streamer.profile_name;
            let recording = ProcView::new(link, name, s.download_dir, s.log_dir, now);
            let (told, inspect) = s.step(ManagerEventView::Message(Some(u)));
            let (prepared, launch) = told.step(ManagerEventView::Prepared { output, log, now });
            let (started, next) = prepared.step(ManagerEventView::Launched(Some(handle)));
            &&& s.accepts(ManagerEventView::Message(Some(u)))
            &&& inspect == (ManagerActionView::Inspect {
                download_dir: s.download_dir,
                log_dir: s.log_dir,
            })
            &&& told.accepts(ManagerEventView::Prepared { output, log, now })
            &&& launch == ManagerActionView::Launch(recording.command())
            &&& recording.command().program == "ffmpeg"@
            &&& recording.command().args == seq![
                "-i"@,
                link,
                "-c"@,
                "copy"@,
                joined_path(s.download_dir, video_file(name, now.stamp_text())),
            ]
            &&& prepared.accepts(ManagerEventView::Launched(Some(handle)))
            &&& started.downloaders == s.downloaders.push(recording.with_handle(handle))
            &&& is_recorded(started.downloaders, name)
            &&& next == ManagerActionView::Receive
        }),
{
    let name = u.streamer.profile_name;
    let recording = ProcView::new(link, name, s.download_dir, s.log_dir, now);
    let all = s.downloaders.push(recording.with_handle(handle));
    assert(all[all.len() - 1].name == name);
}

/// The downloader after it was told to stop everything, and the first `k`
/// recordings were interrupted.
pub open spec fn after_interrupts(s: ManagerView, u: UpdateView, k: int) -> ManagerView
    decreases k,
{
    if k <= 0 {
        s.step(ManagerEventView::Message(Some(u))).0
    } else {
        after_interrupts(s, u, k - 1).step(ManagerEventView::Interrupted(true)).0
    }
}

/// What is done last before `after_interrupts`.
pub open spec fn interrupt_action(s: ManagerView, u: UpdateView, k: int) -> ManagerActionView {
    if k <= 0 {
        s.step(ManagerEventView::Message(Some(u))).1
    } else {
        after_interrupts(s, u, k - 1).step(ManagerEventView::Interrupted(true)).1
    }
}

/// Told to stop everything, a downloader interrupts every recording, one after
/// the other, before it waits for the first one to end.
pub proof fn law_stop_all_interrupts_all_first(s: ManagerView, u: UpdateView, k: int)
    requires
        s.wf(),
        s.phase is Receiving,
        u.action is StopAll,
        0 <= k <= s.downloaders.len(),
    ensures
        k < s.downloaders.len() ==> {
            &&& after_interrupts(s, u, k) == s.waiting_for(PhaseView::SignallingAll { pos: k })
            &&& interrupt_action(s, u, k) == ManagerActionView::Interrupt(
                s.downloaders[k].handle->0.pid as i32,
            )
        },
        k == s.downloaders.len() && k > 0 ==> after_interrupts(s, u, k) == s.waiting_for(
            PhaseView::CleaningAll { pos: 0, cleanup: Cleanup::initial() },
        ),
        s.downloaders.len() == 0 ==> interrupt_action(s, u, 0) is Exit,
    decreases k,
{
    if k > 0 {
        law_stop_all_interrupts_all_first(s, u, k - 1);
    }
}

/// The state when the process that is waited for was found alive `n` times.
pub open spec fn after_alive_looks(s: ManagerView, n: nat) -> ManagerView
    decreases n,
{
    if n == 0 {
        s
    } else {
        after_alive_looks(s, (n - 1) as nat).step(
            ManagerEventView::Cleanup(CleanupEvent::Alive),
        ).0
    }
}

/// How a process ends that was found alive `n` times: by itself, or killed when
/// patience is at an end.
pub open spec fn end_of(n: nat) -> ManagerEventView {
    ManagerEventView::Cleanup(
        if n < PATIENCE {
            CleanupEvent::Exited
        } else {
            CleanupEvent::Killed
        },
    )
}

/// The state and the action when the process that is waited for was found alive
/// `n` times, and then ended.
pub open spec fn after_end(s: ManagerView, n: nat) -> (ManagerView, ManagerActionView) {
    after_alive_looks(s, n).step(end_of(n))
}

/// Told to stop everything, a downloader looks at a process that stays alive
/// every 250 milliseconds, and kills it after the twelfth look.
pub proof fn law_stop_all_kills_what_stays_alive(s: ManagerView, pos: int, n: nat)
    requires
        s.wf(),
        s.phase == (PhaseView::CleaningAll { pos, cleanup: Cleanup::initial() }),
        n < PATIENCE,
    ensures
        ({
            let handle = s.downloaders[pos].handle->0;
            let t = after_alive_looks(s, n);
            let (looked, action) = t.step(ManagerEventView::Cleanup(CleanupEvent::Alive));
            &&& t == s.waiting_for(PhaseView::CleaningAll { pos, cleanup: after_alive(n) })
            &&& t.accepts(ManagerEventView::Cleanup(CleanupEvent::Alive))
            &&& t.accepts(end_of(n))
            &&& n + 1 < PATIENCE ==> action == (ManagerActionView::WaitAndPoll {
                handle,
                millis: POLL_MILLIS,
            })
            &&& n + 1 == PATIENCE ==> action == (ManagerActionView::Kill { handle })
                && looked.accepts(end_of(PATIENCE as nat))
        }),
    decreases n,
{
    lemma_after_alive(n);
    if n > 0 {
        law_stop_all_kills_what_stays_alive(s, pos, (n - 1) as nat);
        lemma_after_alive((n - 1) as nat);
    }
}

/// The downloader after it was told to stop everything, all recordings were
/// interrupted, and the first `k` have ended, each after it was found alive so
/// many times.
pub open spec fn after_ends(s: ManagerView, u: UpdateView, alive: Seq<nat>, k: int) -> ManagerView
    decreases k,
{
    if k <= 0 {
        after_interrupts(s, u, s.downloaders.len() as int)
    } else {
        after_end(after_ends(s, u, alive, k - 1), alive[k - 1]).0
    }
}

/// Told to stop everything, a downloader waits for every recording, one after
/// the other. Whether one ends by itself or is killed, the next one follows, and
/// when the last one has ended, the downloader exits.
pub proof fn law_stop_all_waits_for_all(s: ManagerView, u: UpdateView, alive: Seq<nat>, k: int)
    requires
        s.wf(),
        s.phase is Receiving,
        u.action is StopAll,
        alive.len() == s.downloaders.len(),
        forall|i: int| 0 <= i < alive.len() ==> #[trigger] alive[i] <= PATIENCE,
        0 <= k < s.downloaders.len(),
    ensures
        ({
            let t = after_ends(s, u, alive, k);
            let (next, action) = after_end(t, alive[k]);
            &&& t == s.waiting_for(PhaseView::CleaningAll { pos: k, cleanup: Cleanup::initial() })
            &&& after_alive_looks(t, alive[k]).accepts(end_of(alive[k]))
            &&& k + 1 < s.downloaders.len() ==> action == (ManagerActionView::WaitAndPoll {
                handle: s.downloaders[k + 1].handle->0,
                millis: POLL_MILLIS,
            })
            &&& k + 1 == s.downloaders.len() ==> action == ManagerActionView::Exit
                && next.downloaders.len() == 0
        }),
    decreases k,
{
    law_stop_all_interrupts_all_first(s, u, s.downloaders.len() as int);
    if k > 0 {
        law_stop_all_waits_for_all(s, u, alive, k - 1);
        lemma_end_in_turn(s, k - 1, alive[k - 1]);
    }
    assert(alive[k] <= PATIENCE);
    lemma_end_in_turn(s, k, alive[k]);
}

/// Whichever way a process ends, the next one is waited for.
proof fn lemma_end_in_turn(s: ManagerView, pos: int, n: nat)
    requires
        s.wf(),
        0 <= pos < s.downloaders.len(),
        n <= PATIENCE,
    ensures
        ({
            let t = s.waiting_for(PhaseView::CleaningAll { pos, cleanup: Cleanup::initial() });
            &&& after_alive_looks(t, n).accepts(end_of(n))
            &&& after_end(t, n) == s.clean_all(pos + 1)
        }),
{
    let t = s.waiting_for(PhaseView::CleaningAll { pos, cleanup: Cleanup::initial() });
    if n < PATIENCE {
        law_stop_all_kills_what_stays_alive(t, pos, n);
    } else {
        law_stop_all_kills_what_stays_alive(t, pos, (n - 1) as nat);
        lemma_after_alive((n - 1) as nat);
    }
}

/// The downloader after `events`, none of which it may refuse.
pub open spec fn after_events(s: ManagerView, events: Seq<ManagerEventView>) -> ManagerView
    decreases events.len(),
{
    if events.len() == 0 {
        s
    } else {
        after_events(s, events.drop_last()).step(events.last()).0
    }
}

/// Whether every one of the events can follow the ones before it.
pub open spec fn accepts_all(s: ManagerView, events: Seq<ManagerEventView>) -> bool
    decreases events.len(),
{
    events.len() > 0 ==> {
        &&& accepts_all(s, events.drop_last())
        &&& after_events(s, events.drop_last()).accepts(events.last())
    }
}

/// Whatever happens to a downloader, every recording that it keeps has a
/// process.
pub proof fn law_recordings_have_a_process(
    download_dir: Seq<char>,
    log_dir: Seq<char>,
    events: Seq<ManagerEventView>,
)
    requires
        accepts_all(ManagerView::initial(download_dir, log_dir), events),
    ensures
        after_events(ManagerView::initial(download_dir, log_dir), events).wf(),
    decreases events.len(),
{
    let s = ManagerView::initial(download_dir, log_dir);
    if events.len() > 0 {
        law_recordings_have_a_process(download_dir, log_dir, events.drop_last());
        lemma_step_keeps_wf(after_events(s, events.drop_last()), events.last());
    }
}

/// Whether a downloader is stopping everything or done.
pub open spec fn is_stopping(s: ManagerView) -> bool {
    s.phase is SignallingAll || s.phase is CleaningAll || s.phase is Finished
}

/// A downloader that was told to stop everything handles no further message,
/// and has no recording left when it is done.
pub proof fn law_stop_all_is_final(s: ManagerView, event: ManagerEventView)
    requires
        s.wf(),
        s.phase is SignallingAll || s.phase is CleaningAll,
        s.accepts(event),
    ensures
        is_stopping(s.step(event).0),
        s.step(event).0.phase is Finished <==> s.step(event).1 is Exit,
        s.step(event).1 is Exit ==> s.step(event).0.downloaders.len() == 0,
        !(s.step(event).1 is Receive) && !(s.step(event).1 is Fail),
{
}

/// A downloader that gave up does nothing any more.
pub proof fn law_failure_is_final(s: ManagerView, event: ManagerEventView, e: ManagerError)
    requires
        s.wf(),
        s.accepts(event),
        s.step(event).1 == ManagerActionView::Fail(e),
    ensures
        s.step(event).0.phase is Finished,
        forall|later: ManagerEventView| !s.step(event).0.accepts(later),
{
}

/// A downloader that neither exited nor gave up can go on: there is always
/// something that can follow.
pub proof fn law_downloader_goes_on(s: ManagerView, event: ManagerEventView)
    requires
        s.wf(),
        s.accepts(event),
        !(s.step(event).1 is Exit),
        !(s.step(event).1 is Fail),
    ensures
        !(s.step(event).0.phase is Finished),
        exists|later: ManagerEventView| s.step(event).0.accepts(later),
{
    let t = s.step(event).0;
    lemma_step_keeps_wf(s, event);
    let usable = DirectoryInfo { is_dir: true, readonly: false };
    let now = LocalTime { year: 2000, month: 1, day: 1, hour: 0, minute: 0, second: 0 };
    assert(t.accepts(ManagerEventView::Sent(true))
        || t.accepts(ManagerEventView::Polled { status: None, file_len: None })
        || t.accepts(ManagerEventView::Message(None))
        || t.accepts(ManagerEventView::Prepared { output: usable, log: usable, now })
        || t.accepts(ManagerEventView::Launched(None))
        || t.accepts(ManagerEventView::Interrupted(true))
        || t.accepts(ManagerEventView::Cleanup(CleanupEvent::Exited))
        || t.accepts(ManagerEventView::Cleanup(CleanupEvent::Killed))
        || t.accepts(ManagerEventView::Slept));
}

/// Whether a user is neither recorded nor about to be.
pub open spec fn is_forgotten(s: ManagerView, name: Seq<char>) -> bool {
    &&& !is_recorded(s.downloaders, name)
    &&& match s.phase {
        PhaseView::Preparing { url, name: next } => next != name,
        PhaseView::Launching { recording } => recording.name != name,
        _ => true,
    }
}

/// The state and the action when a recording was told to stop, was interrupted,
/// and was found alive `n` times since.
pub open spec fn after_stop(s: ManagerView, u: UpdateView, n: nat) -> (
    ManagerView,
    ManagerActionView,
)
    decreases n,
{
    if n == 0 {
        s.step(ManagerEventView::Message(Some(u))).0.step(ManagerEventView::Interrupted(true))
    } else {
        after_stop(s, u, (n - 1) as nat).0.step(ManagerEventView::Cleanup(CleanupEvent::Alive))
    }
}

/// A user is stopped by an interrupt of the first recording of that user. Its
/// process is then looked at every 250 milliseconds, and killed after the
/// twelfth look if it is still alive. Once it has ended either way, the recording
/// is removed from the list, and the next message is handled. No other process
/// is touched.
pub proof fn law_stopped_recording_ends(s: ManagerView, u: UpdateView, pos: int, n: nat)
    requires
        s.wf(),
        s.phase is Receiving,
        u.action is Stop,
        is_first_of(s.downloaders, u.streamer.profile_name, pos),
        n < PATIENCE,
    ensures
        ({
            let handle = s.downloaders[pos].handle->0;
            let (t, action) = after_stop(s, u, n);
            let (looked, kill) = t.step(ManagerEventView::Cleanup(CleanupEvent::Alive));
            let (ended, next) = t.step(ManagerEventView::Cleanup(CleanupEvent::Exited));
            let (killed, resumed) = looked.step(ManagerEventView::Cleanup(CleanupEvent::Killed));
            let left = ManagerView { downloaders: s.downloaders.remove(pos), ..s };
            &&& s.accepts(ManagerEventView::Message(Some(u)))
            &&& s.step(ManagerEventView::Message(Some(u))).1 == ManagerActionView::Interrupt(
                handle.pid as i32,
            )
            &&& t == s.waiting_for(PhaseView::Cleaning { pos, cleanup: after_alive(n) })
            &&& action == (ManagerActionView::WaitAndPoll { handle, millis: POLL_MILLIS })
            &&& t.accepts(ManagerEventView::Cleanup(CleanupEvent::Exited))
            &&& ended == left && next == ManagerActionView::Receive
            &&& t.accepts(ManagerEventView::Cleanup(CleanupEvent::Alive))
            &&& n + 1 == PATIENCE ==> {
                &&& kill == (ManagerActionView::Kill { handle })
                &&& looked.accepts(ManagerEventView::Cleanup(CleanupEvent::Killed))
                &&& killed == left && resumed == ManagerActionView::Receive
            }
        }),
    decreases n,
{
    lemma_after_alive(n);
    if n > 0 {
        law_stopped_recording_ends(s, u, pos, (n - 1) as nat);
        lemma_after_alive((n - 1) as nat);
    } else {
        let p = choose|p: int| is_first_of(s.downloaders, u.streamer.profile_name, p);
        assert(is_first_of(s.downloaders, u.streamer.profile_name, p));
        assert(s.downloaders[p].name == s.downloaders[pos].name);
        assert(p == pos);
    }
}

/// A user with one recording is forgotten when that one was stopped.
pub proof fn law_stopped_user_is_forgotten(s: ManagerView, name: Seq<char>, pos: int)
    requires
        s.phase is Receiving,
        is_first_of(s.downloaders, name, pos),
        forall|j: int| pos < j < s.downloaders.len() ==> (#[trigger] s.downloaders[j]).name != name,
    ensures
        is_forgotten(ManagerView { downloaders: s.downloaders.remove(pos), ..s }, name),
{
    let left = s.downloaders.remove(pos);
    assert forall|j: int| 0 <= j < left.len() implies (#[trigger] left[j]).name != name by {
        if j < pos {
            assert(left[j] == s.downloaders[j]);
        } else {
            assert(left[j] == s.downloaders[j + 1]);
        }
    }
}

/// Whether an event is the message to start a user.
pub open spec fn starts(event: ManagerEventView, name: Seq<char>) -> bool {
    match event {
        ManagerEventView::Message(Some(u)) => u.action is Start && u.streamer.profile_name == name,
        _ => false,
    }
}

/// Every recording after an event was there before, or was about to be.
proof fn lemma_recordings_come_from(s: ManagerView, event: ManagerEventView, name: Seq<char>)
    requires
        s.wf(),
        s.accepts(event),
        is_forgotten(s, name),
        !starts(event, name),
    ensures
        is_forgotten(s.step(event).0, name),
{
    let t = s.step(event).0;
    law_list_of_recordings(s, event);
    assert forall|i: int| 0 <= i < t.downloaders.len() implies (#[trigger] t.downloaders[i]).name
        != name by {
        if t.downloaders == s.downloaders {
        } else if s.phase is Launching {
            if i < s.downloaders.len() {
                assert(t.downloaders.drop_last()[i] == s.downloaders[i]);
            }
        } else if s.phase is Reporting {
            lemma_left_was_there(s.downloaders, s.phase->Reporting_finished, i);
        } else if s.phase is Cleaning {
            let pos = s.phase->Cleaning_pos;
            if i < pos {
                assert(t.downloaders[i] == s.downloaders[i]);
            } else {
                assert(t.downloaders[i] == s.downloaders[i + 1]);
            }
        }
    }
}

/// A user who is forgotten stays so, and no message is sent about the user,
/// until there is a message to start the user again.
pub proof fn law_forgotten_user_is_not_reported(
    s: ManagerView,
    events: Seq<ManagerEventView>,
    name: Seq<char>,
)
    requires
        s.wf(),
        is_forgotten(s, name),
        accepts_all(s, events),
        forall|i: int| 0 <= i < events.len() ==> !starts(#[trigger] events[i], name),
    ensures
        after_events(s, events).wf(),
        is_forgotten(after_events(s, events), name),
        events.len() > 0 ==> match after_events(s, events.drop_last()).step(events.last()).1 {
            ManagerActionView::Send(u) => u.streamer.profile_name != name,
            _ => true,
        },
    decreases events.len(),
{
    if events.len() > 0 {
        let init = events.drop_last();
        assert forall|i: int| 0 <= i < init.len() implies !starts(#[trigger] init[i], name) by {
            assert(init[i] == events[i]);
        }
        law_forgotten_user_is_not_reported(s, init, name);
        let t = after_events(s, init);
        assert(!starts(events[events.len() - 1], name));
        lemma_recordings_come_from(t, events.last(), name);
        lemma_step_keeps_wf(t, events.last());
        law_downloader_sends_reports(t, events.last());
    }
}

/// Whether one of the events is the message to start a user.
pub open spec fn was_started(events: Seq<ManagerEventView>, name: Seq<char>) -> bool {
    exists|i: int| 0 <= i < events.len() && starts(#[trigger] events[i], name)
}

/// Every user that a downloader reports about was started before.
pub proof fn law_reported_users_were_started(
    download_dir: Seq<char>,
    log_dir: Seq<char>,
    events: Seq<ManagerEventView>,
    u: UpdateView,
)
    requires
        accepts_all(ManagerView::initial(download_dir, log_dir), events),
        events.len() > 0,
        after_events(ManagerView::initial(download_dir, log_dir), events.drop_last()).step(
            events.last(),
        ).1 == ManagerActionView::Send(u),
    ensures
        was_started(events.drop_last(), u.streamer.profile_name),
{
    let s = ManagerView::initial(download_dir, log_dir);
    let init = events.drop_last();
    let name = u.streamer.profile_name;
    if !was_started(init, name) {
        assert forall|i: int| 0 <= i < init.len() implies !starts(#[trigger] init[i], name) by {}
        law_forgotten_user_is_not_reported(s, init, name);
        law_downloader_sends_reports(after_events(s, init), events.last());
    }
}

/// Whether the last message among the events is the one to stop everything.
pub open spec fn last_message_stops_all(events: Seq<ManagerEventView>) -> bool {
    exists|i: int|
        0 <= i < events.len() && {
            &&& (#[trigger] events[i]) matches ManagerEventView::Message(Some(u))
                && u.action is StopAll
            &&& forall|j: int| i < j < events.len() ==> !(#[trigger] events[j] is Message)
        }
}

/// What comes after the message to stop everything, if it is no message, leaves
/// that one the last.
proof fn lemma_still_last(events: Seq<ManagerEventView>)
    requires
        events.len() > 0,
        last_message_stops_all(events.drop_last()),
        !(events.last() is Message),
    ensures
        last_message_stops_all(events),
{
    let init = events.drop_last();
    let i = choose|i: int|
        0 <= i < init.len() && {
            &&& (#[trigger] init[i]) matches ManagerEventView::Message(Some(u))
                && u.action is StopAll
            &&& forall|j: int| i < j < init.len() ==> !(#[trigger] init[j] is Message)
        };
    assert(events[i] == init[i]);
    assert forall|j: int| i < j < events.len() implies !(#[trigger] events[j] is Message) by {
        if j < init.len() {
            assert(events[j] == init[j]);
        }
    }
}

/// A downloader that is stopping everything was told to by the last message.
proof fn lemma_stopping_was_told(s: ManagerView, events: Seq<ManagerEventView>)
    requires
        s.wf(),
        s.phase is Starting,
        accepts_all(s, events),
    ensures
        after_events(s, events).wf(),
        after_events(s, events).phase is SignallingAll || after_events(s, events).phase
            is CleaningAll ==> last_message_stops_all(events),
    decreases events.len(),
{
    if events.len() > 0 {
        let init = events.drop_last();
        lemma_stopping_was_told(s, init);
        let t = after_events(s, init);
        lemma_step_keeps_wf(t, events.last());
        if t.phase is SignallingAll || t.phase is CleaningAll {
            lemma_still_last(events);
        } else if t.phase is Receiving {
            assert(events[events.len() - 1] == events.last());
        }
    }
}

/// A downloader exits only when it was told to stop everything, and that message
/// is the last one that it took.
pub proof fn law_exit_follows_stop_all(
    download_dir: Seq<char>,
    log_dir: Seq<char>,
    events: Seq<ManagerEventView>,
)
    requires
        accepts_all(ManagerView::initial(download_dir, log_dir), events),
        events.len() > 0,
        after_events(ManagerView::initial(download_dir, log_dir), events.drop_last()).step(
            events.last(),
        ).1 is Exit,
    ensures
        last_message_stops_all(events),
{
    let s = ManagerView::initial(download_dir, log_dir);
    let init = events.drop_last();
    lemma_stopping_was_told(s, init);
    let t = after_events(s, init);
    if t.phase is SignallingAll || t.phase is CleaningAll {
        lemma_still_last(events);
    } else {
        assert(t.phase is Receiving);
        assert(events[events.len() - 1] == events.last());
    }
}

/// A downloader begins with the directories that it is given and no recording.
pub proof fn law_downloader_begins(download_dir: Seq<char>, log_dir: Seq<char>)
    ensures
        ManagerView::initial(download_dir, log_dir).download_dir == download_dir,
        ManagerView::initial(download_dir, log_dir).log_dir == log_dir,
        ManagerView::initial(download_dir, log_dir).downloaders.len() == 0,
        ManagerView::initial(download_dir, log_dir).phase is Starting,
{
}

/// What is left of a list: of all its places in rising order, those that are not
/// among the given ones, each with what stands there.
pub proof fn law_left_places<T>(s: Seq<T>, places: Seq<int>)
    ensures
        at_other_places(s, places) == Seq::new(s.len(), |i: int| i).filter(
            |i: int| !places.contains(i),
        ).map_values(|i: int| s[i]),
    decreases s.len(),
{
    let all = Seq::new(s.len(), |i: int| i);
    let other = |i: int| !places.contains(i);
    reveal(Seq::filter);
    if s.len() > 0 {
        let init = s.drop_last();
        let before = Seq::new(init.len(), |i: int| i);
        law_left_places(init, places);
        assert(all.drop_last() =~= before);
        assert(all.last() == s.len() - 1);
        let kept = before.filter(other);
        assert forall|k: int| 0 <= k < kept.len() implies 0 <= #[trigger] kept[k] < init.len() by {
            assert(kept.contains(kept[k]));
            before.lemma_filter_contains_rev(other, kept[k]);
        }
        assert(kept.map_values(|i: int| init[i]) =~= kept.map_values(|i: int| s[i]));
        assert(all.filter(other) == if other(all.last()) {
            kept.push(all.last())
        } else {
            kept
        });
        assert(kept.push(all.last()).map_values(|i: int| s[i]) =~= kept.map_values(
            |i: int| s[i],
        ).push(s.last()));
    } else {
        assert(all.filter(other) =~= Seq::<int>::empty());
    }
}

/// A round begins with a look at the first recording: at its own process, and at
/// the length of the very file that its command writes. Without a recording,
/// messages are handled. A heartbeat that cannot be sent ends the downloader.
pub proof fn law_round_begins(s: ManagerView)
    requires
        s.wf(),
        s.phase is Starting || s.phase is Sleeping,
    ensures
        ({
            let go = if s.phase is Starting {
                ManagerEventView::Sent(true)
            } else {
                ManagerEventView::Slept
            };
            &&& s.downloaders.len() > 0 ==> s.step(go) == (
                ManagerView {
                    phase: PhaseView::Polling { pos: 0, finished: Seq::empty() },
                    ..s
                },
                ManagerActionView::Poll {
                    handle: s.downloaders[0].handle->0,
                    path: s.downloaders[0].command().args[4],
                },
            )
            &&& s.downloaders.len() == 0 ==> s.step(go) == (
                ManagerView { phase: PhaseView::Receiving, ..s },
                ManagerActionView::Receive,
            )
        }),
        s.phase is Starting ==> s.step(ManagerEventView::Sent(false)) == (
            ManagerView { phase: PhaseView::Finished, ..s },
            ManagerActionView::Fail(ManagerError::SendFailed),
        ),
{
    lemma_no_places(s.downloaders);
}

/// What was seen of a recording is reported, and the recording is marked exactly
/// when its process has ended.
pub proof fn law_look_is_reported(
    s: ManagerView,
    pos: int,
    finished: Seq<int>,
    status: Option<i32>,
    file_len: Option<u64>,
)
    requires
        s.phase == (PhaseView::Polling { pos, finished }),
    ensures
        s.step(ManagerEventView::Polled { status, file_len }) == (
            ManagerView {
                phase: PhaseView::Reporting {
                    pos,
                    finished: if status is Some {
                        finished + seq![pos]
                    } else {
                        finished
                    },
                },
                ..s
            },
            ManagerActionView::Send(s.downloaders[pos].report(status, file_len)),
        ),
{
    assert(finished.push(pos) =~= finished + seq![pos]);
}

/// After a report comes a look at the next recording: at its own process, and at
/// the length of the very file that its command writes. After the last one, the
/// marked recordings are dropped, and messages are handled. A report that cannot be
/// sent ends the downloader.
pub proof fn law_next_look(s: ManagerView, pos: int, finished: Seq<int>)
    requires
        s.wf(),
        s.phase == (PhaseView::Reporting { pos, finished }),
    ensures
        pos + 1 < s.downloaders.len() ==> s.step(ManagerEventView::Sent(true)) == (
            ManagerView { phase: PhaseView::Polling { pos: pos + 1, finished }, ..s },
            ManagerActionView::Poll {
                handle: s.downloaders[pos + 1].handle->0,
                path: s.downloaders[pos + 1].command().args[4],
            },
        ),
        pos + 1 == s.downloaders.len() ==> s.step(ManagerEventView::Sent(true)) == (
            ManagerView {
                downloaders: Seq::new(s.downloaders.len(), |i: int| i).filter(
                    |i: int| !finished.contains(i),
                ).map_values(|i: int| s.downloaders[i]),
                phase: PhaseView::Receiving,
                ..s
            },
            ManagerActionView::Receive,
        ),
        s.step(ManagerEventView::Sent(false)) == (
            ManagerView { phase: PhaseView::Finished, ..s },
            ManagerActionView::Fail(ManagerError::SendFailed),
        ),
{
    law_left_places(s.downloaders, finished);
}

/// Every look is at a recording that is kept: at its own process, and at the file
/// that its command writes.
pub proof fn law_looks_are_at_recordings(s: ManagerView, event: ManagerEventView)
    requires
        s.wf(),
        s.accepts(event),
    ensures
        s.step(event).1 matches ManagerActionView::Poll { handle, path } ==> {
            let t = s.step(event).0;
            &&& t.phase matches PhaseView::Polling { pos, finished }
            &&& t.downloaders == s.downloaders
            &&& 0 <= pos < s.downloaders.len()
            &&& s.downloaders[pos].handle == Some(handle)
            &&& s.downloaders[pos].download_path == path
            &&& s.downloaders[pos].command().args[4] == path
        },
        s.step(event).1 matches ManagerActionView::WaitAndPoll { handle, millis } ==> exists|i: int|
            0 <= i < s.downloaders.len() && #[trigger] s.downloaders[i].handle == Some(handle),
        s.step(event).1 matches ManagerActionView::Kill { handle } ==> exists|i: int|
            0 <= i < s.downloaders.len() && #[trigger] s.downloaders[i].handle == Some(handle),
        s.step(event).1 matches ManagerActionView::Interrupt(pid) ==> exists|i: int|
            0 <= i < s.downloaders.len() && (#[trigger] s.downloaders[i].handle)->0.pid as i32
                == pid,
{
    lemma_step_keeps_wf(s, event);
    let t = s.step(event).0;
    match t.phase {
        PhaseView::Cleaning { pos, cleanup } => {
            assert(s.downloaders[pos].handle is Some);
        },
        PhaseView::CleaningAll { pos, cleanup } => {
            assert(s.downloaders[pos].handle is Some);
        },
        PhaseView::Signalling { pos } => {
            assert(s.downloaders[pos].handle is Some);
        },
        PhaseView::SignallingAll { pos } => {
            assert(s.downloaders[pos].handle is Some);
        },
        _ => {},
    }
}

/// A message to start a user is answered by a look at the two directories, one to
/// stop a user by an interrupt of the first recording of that user, one to stop
/// everything by an interrupt of the first recording of all. Any other is passed
/// over, and without one the downloader sleeps for two seconds.
pub proof fn law_messages_are_handled(s: ManagerView, u: UpdateView, pos: int)
    requires
        s.wf(),
        s.phase is Receiving,
    ensures
        u.action matches ActionView::Start(link) ==> s.step(ManagerEventView::Message(Some(u))) == (
            ManagerView {
                phase: PhaseView::Preparing { url: link, name: u.streamer.profile_name },
                ..s
            },
            ManagerActionView::Inspect { download_dir: s.download_dir, log_dir: s.log_dir },
        ),
        u.action is Stop && 0 <= pos < s.downloaders.len() && s.downloaders[pos].name
            == u.streamer.profile_name && (forall|j: int|
            0 <= j < pos ==> (#[trigger] s.downloaders[j]).name != u.streamer.profile_name)
            ==> s.step(ManagerEventView::Message(Some(u))) == (
            ManagerView { phase: PhaseView::Signalling { pos }, ..s },
            ManagerActionView::Interrupt(s.downloaders[pos].handle->0.pid as i32),
        ),
        u.action is StopAll && s.downloaders.len() > 0 ==> s.step(
            ManagerEventView::Message(Some(u)),
        ) == (
            ManagerView { phase: PhaseView::SignallingAll { pos: 0 }, ..s },
            ManagerActionView::Interrupt(s.downloaders[0].handle->0.pid as i32),
        ),
        u.action is StopAll && s.downloaders.len() == 0 ==> s.step(
            ManagerEventView::Message(Some(u)),
        ) == (ManagerView { phase: PhaseView::Finished, ..s }, ManagerActionView::Exit),
        u.action is Heartbeat || u.action is Update ==> s.step(ManagerEventView::Message(Some(u)))
            == (s, ManagerActionView::Receive),
        s.step(ManagerEventView::Message(None)) == (
            ManagerView { phase: PhaseView::Sleeping, ..s },
            ManagerActionView::Sleep(2),
        ),
{
    if u.action is Stop && 0 <= pos < s.downloaders.len() && s.downloaders[pos].name
        == u.streamer.profile_name && (forall|j: int|
        0 <= j < pos ==> (#[trigger] s.downloaders[j]).name != u.streamer.profile_name) {
        assert(is_first_of(s.downloaders, u.streamer.profile_name, pos));
        let p = choose|p: int| is_first_of(s.downloaders, u.streamer.profile_name, p);
        assert(is_first_of(s.downloaders, u.streamer.profile_name, p));
        assert(s.downloaders[p].name == s.downloaders[pos].name);
        assert(p == pos);
    }
    if s.downloaders.len() == 0 {
        assert(s.downloaders =~= Seq::<ProcView>::empty());
    }
}

/// The command that is launched is that of a new recording of the user and the
/// stream, in the directories of the downloader, at the time that was seen. It is
/// kept until its process is there, which is then put behind all others. One that
/// cannot be started ends the downloader.
pub proof fn law_new_recording_is_launched(
    s: ManagerView,
    url: Seq<char>,
    name: Seq<char>,
    output: DirectoryInfo,
    log: DirectoryInfo,
    now: LocalTime,
    recording: ProcView,
    handle: ProcHandle,
)
    ensures
        s.phase == (PhaseView::Preparing { url, name }) ==> {
            let fresh = ProcView::new(url, name, s.download_dir, s.log_dir, now);
            s.step(ManagerEventView::Prepared { output, log, now }) == (
                ManagerView { phase: PhaseView::Launching { recording: fresh }, ..s },
                ManagerActionView::Launch(fresh.command()),
            )
        },
        s.phase == (PhaseView::Launching { recording }) ==> {
            &&& s.step(ManagerEventView::Launched(Some(handle))) == (
                ManagerView {
                    downloaders: s.downloaders + seq![
                        ProcView { handle: Some(handle), ..recording },
                    ],
                    phase: PhaseView::Receiving,
                    ..s
                },
                ManagerActionView::Receive,
            )
            &&& s.step(ManagerEventView::Launched(None)) == (
                ManagerView { phase: PhaseView::Finished, ..s },
                ManagerActionView::Fail(ManagerError::StartFailed),
            )
        },
{
    let kept = ProcView { handle: Some(handle), ..recording };
    assert(s.downloaders.push(kept) =~= s.downloaders + seq![kept]);
}

/// A recording that was interrupted is given time: its process is looked at after
/// 250 milliseconds, and again after each look that finds it alive, up to the
/// twelfth, after which it is killed. When it has ended it is dropped, and no other.
/// What cannot be interrupted or killed ends the downloader.
pub proof fn law_interrupted_recording_is_watched(s: ManagerView, pos: int, cleanup: Cleanup)
    requires
        s.wf(),
        0 <= pos < s.downloaders.len(),
    ensures
        s.phase == (PhaseView::Signalling { pos }) ==> {
            &&& s.step(ManagerEventView::Interrupted(true)) == (
                ManagerView {
                    phase: PhaseView::Cleaning {
                        pos,
                        cleanup: Cleanup { counter: 0, phase: CleanupPhase::Waiting },
                    },
                    ..s
                },
                ManagerActionView::WaitAndPoll {
                    handle: s.downloaders[pos].handle->0,
                    millis: 250,
                },
            )
            &&& s.step(ManagerEventView::Interrupted(false)) == (
                ManagerView { phase: PhaseView::Finished, ..s },
                ManagerActionView::Fail(ManagerError::InterruptFailed),
            )
        },
        s.phase == (PhaseView::Cleaning { pos, cleanup }) ==> {
            let left = ManagerView {
                downloaders: s.downloaders.take(pos) + s.downloaders.skip(pos + 1),
                phase: PhaseView::Receiving,
                ..s
            };
            &&& cleanup.phase is Waiting && cleanup.counter < 11 ==> s.step(
                ManagerEventView::Cleanup(CleanupEvent::Alive),
            ) == (
                ManagerView {
                    phase: PhaseView::Cleaning {
                        pos,
                        cleanup: Cleanup {
                            counter: (cleanup.counter + 1) as u32,
                            phase: CleanupPhase::Waiting,
                        },
                    },
                    ..s
                },
                ManagerActionView::WaitAndPoll {
                    handle: s.downloaders[pos].handle->0,
                    millis: 250,
                },
            )
            &&& cleanup.phase is Waiting && cleanup.counter == 11 ==> s.step(
                ManagerEventView::Cleanup(CleanupEvent::Alive),
            ) == (
                ManagerView {
                    phase: PhaseView::Cleaning {
                        pos,
                        cleanup: Cleanup { counter: 11, phase: CleanupPhase::Killing },
                    },
                    ..s
                },
                ManagerActionView::Kill { handle: s.downloaders[pos].handle->0 },
            )
            &&& s.step(ManagerEventView::Cleanup(CleanupEvent::Exited)) == (
                left,
                ManagerActionView::Receive,
            )
            &&& s.step(ManagerEventView::Cleanup(CleanupEvent::Killed)) == (
                left,
                ManagerActionView::Receive,
            )
            &&& s.step(ManagerEventView::Cleanup(CleanupEvent::KillFailed)) == (
                ManagerView { phase: PhaseView::Finished, ..s },
                ManagerActionView::Fail(ManagerError::KillFailed),
            )
        },
{
    assert(s.downloaders.remove(pos) =~= s.downloaders.take(pos) + s.downloaders.skip(pos + 1));
}

/// Told to stop everything, a downloader interrupts one recording after the other,
/// then gives the first one time.
pub proof fn law_all_are_interrupted_in_turn(s: ManagerView, pos: int)
    requires
        s.wf(),
        s.phase == (PhaseView::SignallingAll { pos }),
    ensures
        pos + 1 < s.downloaders.len() ==> s.step(ManagerEventView::Interrupted(true)) == (
            ManagerView { phase: PhaseView::SignallingAll { pos: pos + 1 }, ..s },
            ManagerActionView::Interrupt(s.downloaders[pos + 1].handle->0.pid as i32),
        ),
        pos + 1 == s.downloaders.len() ==> s.step(ManagerEventView::Interrupted(true)) == (
            ManagerView {
                phase: PhaseView::CleaningAll {
                    pos: 0,
                    cleanup: Cleanup { counter: 0, phase: CleanupPhase::Waiting },
                },
                ..s
            },
            ManagerActionView::WaitAndPoll { handle: s.downloaders[0].handle->0, millis: 250 },
        ),
{
}

/// Told to stop everything, a downloader watches one recording after the other: each
/// one for twelve looks at most, after which it is killed. When the last one has
/// ended, the list is emptied and the downloader exits.
pub proof fn law_all_are_watched_in_turn(s: ManagerView, pos: int, cleanup: Cleanup)
    requires
        s.wf(),
        s.phase == (PhaseView::CleaningAll { pos, cleanup }),
    ensures
        cleanup.phase is Waiting && cleanup.counter < 11 ==> s.step(
            ManagerEventView::Cleanup(CleanupEvent::Alive),
        ) == (
            ManagerView {
                phase: PhaseView::CleaningAll {
                    pos,
                    cleanup: Cleanup {
                        counter: (cleanup.counter + 1) as u32,
                        phase: CleanupPhase::Waiting,
                    },
                },
                ..s
            },
            ManagerActionView::WaitAndPoll { handle: s.downloaders[pos].handle->0, millis: 250 },
        ),
        cleanup.phase is Waiting && cleanup.counter == 11 ==> s.step(
            ManagerEventView::Cleanup(CleanupEvent::Alive),
        ) == (
            ManagerView {
                phase: PhaseView::CleaningAll {
                    pos,
                    cleanup: Cleanup { counter: 11, phase: CleanupPhase::Killing },
                },
                ..s
            },
            ManagerActionView::Kill { handle: s.downloaders[pos].handle->0 },
        ),
        s.step(ManagerEventView::Cleanup(CleanupEvent::Killed)) == s.step(
            ManagerEventView::Cleanup(CleanupEvent::Exited),
        ),
        pos + 1 < s.downloaders.len() ==> s.step(ManagerEventView::Cleanup(CleanupEvent::Exited))
            == (
            ManagerView {
                phase: PhaseView::CleaningAll {
                    pos: pos + 1,
                    cleanup: Cleanup { counter: 0, phase: CleanupPhase::Waiting },
                },
                ..s
            },
            ManagerActionView::WaitAndPoll {
                handle: s.downloaders[pos + 1].handle->0,
                millis: 250,
            },
        ),
        pos + 1 == s.downloaders.len() ==> s.step(ManagerEventView::Cleanup(CleanupEvent::Exited))
            == (
            ManagerView { downloaders: Seq::empty(), phase: PhaseView::Finished, ..s },
            ManagerActionView::Exit,
        ),
{
}

/// A downloader accepts any outcome of what it asked for, but for these: a message
/// to stop a user who is not recorded, directories that cannot be written to, and,
/// when everything is to be stopped, a recording that cannot be.
pub proof fn law_accepted_outcomes(s: ManagerView, event: ManagerEventView)
    ensures
        s.accepts(event) <==> match event {
            ManagerEventView::Sent(_) => s.phase is Starting || s.phase is Reporting,
            ManagerEventView::Polled { status, file_len } => s.phase is Polling,
            ManagerEventView::Message(None) => s.phase is Receiving,
            ManagerEventView::Message(Some(u)) => s.phase is Receiving && (u.action is Stop
                ==> exists|j: int|
                0 <= j < s.downloaders.len() && (#[trigger] s.downloaders[j]).name
                    == u.streamer.profile_name),
            ManagerEventView::Prepared { output, log, now } => s.phase is Preparing
                && output.is_dir && !output.readonly && log.is_dir && !log.readonly && now.valid(),
            ManagerEventView::Launched(_) => s.phase is Launching,
            ManagerEventView::Interrupted(ok) => s.phase is Signalling || ok && s.phase
                is SignallingAll,
            ManagerEventView::Cleanup(e) => match s.phase {
                PhaseView::Cleaning { pos, cleanup } => cleanup.accepts(e),
                PhaseView::CleaningAll { pos, cleanup } => cleanup.accepts(e) && !(e
                    is KillFailed),
                _ => false,
            },
            ManagerEventView::Slept => s.phase is Sleeping,
        },
{
}

/// The recordings of a downloader are looked at round after round as they are: what
/// is reported of one depends neither on the others nor on its place.
pub proof fn law_report_depends_on_the_recording_alone(
    s: ManagerView,
    t: ManagerView,
    look: Look,
    i: int,
    j: int,
    a: Seq<int>,
    b: Seq<int>,
)
    requires
        s.phase == (PhaseView::Polling { pos: i, finished: a }),
        t.phase == (PhaseView::Polling { pos: j, finished: b }),
        s.downloaders[i] == t.downloaders[j],
    ensures
        s.step(ManagerEventView::Polled { status: look.status, file_len: look.file_len }).1
            == t.step(ManagerEventView::Polled { status: look.status, file_len: look.file_len }).1,
{
}

/// The models of an event, of an action and of a list hold what these hold.
pub proof fn law_downloader_models(
    event: ManagerEvent,
    action: ManagerAction,
    recordings: Seq<DownloaderProc>,
)
    ensures
        match event {
            ManagerEvent::Sent(ok) => event@ == ManagerEventView::Sent(ok),
            ManagerEvent::Polled { status, file_len } => event@
                == (ManagerEventView::Polled { status, file_len }),
            ManagerEvent::Message(Some(u)) => event@ == ManagerEventView::Message(Some(u@)),
            ManagerEvent::Message(None) => event@ == ManagerEventView::Message(None),
            ManagerEvent::Prepared { output, log, now } => event@
                == (ManagerEventView::Prepared { output, log, now }),
            ManagerEvent::Launched(handle) => event@ == ManagerEventView::Launched(handle),
            ManagerEvent::Interrupted(ok) => event@ == ManagerEventView::Interrupted(ok),
            ManagerEvent::Cleanup(e) => event@ == ManagerEventView::Cleanup(e),
            ManagerEvent::Slept => event@ is Slept,
        },
        match action {
            ManagerAction::Send(u) => action@ == ManagerActionView::Send(u@),
            ManagerAction::Poll { handle, path } => action@
                == (ManagerActionView::Poll { handle, path: path@ }),
            ManagerAction::Receive => action@ is Receive,
            ManagerAction::Inspect { download_dir, log_dir } => action@
                == (ManagerActionView::Inspect { download_dir: download_dir@, log_dir: log_dir@ }),
            ManagerAction::Launch(command) => action@ == ManagerActionView::Launch(command@),
            ManagerAction::Interrupt(pid) => action@ == ManagerActionView::Interrupt(pid),
            ManagerAction::WaitAndPoll { handle, millis } => action@
                == (ManagerActionView::WaitAndPoll { handle, millis }),
            ManagerAction::Kill { handle } => action@ == (ManagerActionView::Kill { handle }),
            ManagerAction::Sleep(secs) => action@ == ManagerActionView::Sleep(secs),
            ManagerAction::Exit => action@ is Exit,
            ManagerAction::Fail(e) => action@ == ManagerActionView::Fail(e),
        },
        proc_views(recordings).len() == recordings.len(),
        forall|i: int|
            0 <= i < recordings.len() ==> #[trigger] proc_views(recordings)[i] == recordings[i]@,
{
}

} // verus!
