use stream_downloader::cleanup::CleanupEvent;
use stream_downloader::clock::LocalTime;
use stream_downloader::downloader::{DirectoryInfo, ProcHandle};
use stream_downloader::manager::{DownloadManager, ManagerAction, ManagerError, ManagerEvent};
use stream_downloader::streamer::{Streamer, StreamerAction, StreamerState, StreamerUpdate};

/// A downloader, and what it wants to be done.
struct Driver {
    manager: DownloadManager,
    action: ManagerAction,
}

fn message(name: &str, action: StreamerAction) -> ManagerEvent {
    ManagerEvent::Message(Some(StreamerUpdate {
        streamer: Streamer {
            profile_url: format!("https://stream.site/{}", name),
            profile_name: name.to_string(),
            profile_status: StreamerState::Downloading,
            download_size_mb: 0,
        },
        action,
    }))
}

fn start(name: &str) -> ManagerEvent {
    message(name, StreamerAction::Start(format!("https://a/{}.m3u8", name)))
}

fn prepared() -> ManagerEvent {
    let usable = DirectoryInfo { is_dir: true, readonly: false };
    ManagerEvent::Prepared {
        output: usable,
        log: usable,
        now: LocalTime { year: 2024, month: 7, day: 14, hour: 23, minute: 5, second: 9 },
    }
}

fn handle(id: u64) -> ProcHandle {
    ProcHandle { id, pid: 1000 + id as u32 }
}

impl Driver {
    fn new() -> Driver {
        let (manager, action) = DownloadManager::new("/videos", "/logs");
        Driver { manager, action }
    }

    fn next(self, event: ManagerEvent) -> Driver {
        assert!(self.manager.can_accept(&event), "{:?} refuses {:?}", self.manager, event);
        let (manager, action) = self.manager.next(event);
        Driver { manager, action }
    }

    /// Through the messages of a round, with no recording yet.
    fn receiving() -> Driver {
        let d = Driver::new().next(ManagerEvent::Sent(true));
        assert!(matches!(d.action, ManagerAction::Receive));
        d
    }

    fn started(self, name: &str, id: u64) -> Driver {
        let d = self.next(start(name));
        assert!(matches!(&d.action, ManagerAction::Inspect { download_dir, log_dir }
            if download_dir == "/videos" && log_dir == "/logs"));
        let d = d.next(prepared());
        assert!(matches!(&d.action, ManagerAction::Launch(command)
            if command.args[1] == format!("https://a/{}.m3u8", name)));
        let d = d.next(ManagerEvent::Launched(Some(handle(id))));
        assert!(matches!(d.action, ManagerAction::Receive));
        d
    }

    fn next_round(self) -> Driver {
        let d = self.next(ManagerEvent::Message(None));
        assert!(matches!(d.action, ManagerAction::Sleep(2)));
        d.next(ManagerEvent::Slept)
    }

    /// Looks at the recording that is due.
    fn polled(self, id: u64, status: Option<i32>, len: u64) -> (Driver, StreamerUpdate) {
        assert!(matches!(&self.action, ManagerAction::Poll { handle, .. } if handle.id == id),
            "{:?}", self.action);
        let d = self.next(ManagerEvent::Polled { status, file_len: Some(len) });
        match d.action {
            ManagerAction::Send(update) => (
                Driver { manager: d.manager, action: ManagerAction::Receive },
                update,
            ),
            other => panic!("{:?}", other),
        }
    }
}

fn is_stop(u: &StreamerUpdate) -> bool {
    matches!(u.action, StreamerAction::Stop)
}

#[test]
fn the_first_message_is_a_heartbeat() {
    let d = Driver::new();
    match &d.action {
        ManagerAction::Send(u) => {
            assert!(matches!(u.action, StreamerAction::Heartbeat));
            assert_eq!(u.streamer.profile_name, "N/A");
        }
        other => panic!("{:?}", other),
    }
    let d = d.next(ManagerEvent::Sent(false));
    assert!(matches!(d.action, ManagerAction::Fail(ManagerError::SendFailed)));
    assert!(!d.manager.can_accept(&ManagerEvent::Slept));
    assert!(!d.manager.can_accept(&ManagerEvent::Message(None)));
}

#[test]
fn a_recording_is_started_reported_and_dropped() {
    let d = Driver::receiving().started("user1", 1);
    assert!(d.manager.manages(1));
    assert!(!d.manager.manages(2));
    let (d, report) = d.next_round().polled(1, None, 7_900_000);
    assert!(matches!(report.action, StreamerAction::Update));
    assert_eq!(report.streamer.profile_name, "user1");
    assert_eq!(report.streamer.download_size_mb, 7);
    let d = d.next(ManagerEvent::Sent(true));
    assert!(matches!(d.action, ManagerAction::Receive));
    let (d, report) = d.next_round().polled(1, Some(0), 8_000_000);
    assert!(is_stop(&report));
    assert_eq!(report.streamer.download_size_mb, 8);
    let d = d.next(ManagerEvent::Sent(true));
    assert!(matches!(d.action, ManagerAction::Receive));
    assert!(!d.manager.manages(1));
    assert!(matches!(d.next_round().action, ManagerAction::Receive));
}

#[test]
fn reports_that_cannot_be_sent_end_the_downloader() {
    let (d, _) = Driver::receiving().started("user1", 1).next_round().polled(1, None, 0);
    let d = d.next(ManagerEvent::Sent(false));
    assert!(matches!(d.action, ManagerAction::Fail(ManagerError::SendFailed)));
}

#[test]
fn every_recording_is_looked_at_in_a_round() {
    let d = Driver::receiving().started("user1", 1).started("user2", 2).started("user3", 3);
    let (d, first) = d.next_round().polled(1, None, 1_000_000);
    let (d, second) = d.next(ManagerEvent::Sent(true)).polled(2, Some(1), 2_000_000);
    let (d, third) = d.next(ManagerEvent::Sent(true)).polled(3, None, 3_000_000);
    assert_eq!(first.streamer.profile_name, "user1");
    assert_eq!(second.streamer.profile_name, "user2");
    assert_eq!(third.streamer.profile_name, "user3");
    assert!(!is_stop(&first) && is_stop(&second) && !is_stop(&third));
    let d = d.next(ManagerEvent::Sent(true));
    assert!(d.manager.manages(1));
    assert!(!d.manager.manages(2));
    assert!(d.manager.manages(3));
}

#[test]
fn of_two_that_finish_in_a_round_both_are_dropped() {
    let d = Driver::receiving().started("user1", 1).started("user2", 2).started("user3", 3);
    let (d, first) = d.next_round().polled(1, Some(0), 0);
    let (d, second) = d.next(ManagerEvent::Sent(true)).polled(2, Some(0), 0);
    let (d, third) = d.next(ManagerEvent::Sent(true)).polled(3, None, 0);
    assert!(is_stop(&first) && is_stop(&second) && !is_stop(&third));
    let d = d.next(ManagerEvent::Sent(true));
    assert!(!d.manager.manages(1));
    assert!(!d.manager.manages(2));
    assert!(d.manager.manages(3));
    let (_, next) = d.next_round().polled(3, None, 0);
    assert_eq!(next.streamer.profile_name, "user3");
}

#[test]
fn all_can_finish_in_one_round() {
    let d = Driver::receiving().started("user1", 1).started("user2", 2);
    let (d, _) = d.next_round().polled(1, Some(0), 0);
    let (d, _) = d.next(ManagerEvent::Sent(true)).polled(2, Some(0), 0);
    let d = d.next(ManagerEvent::Sent(true));
    assert!(matches!(d.action, ManagerAction::Receive));
    assert!(!d.manager.manages(1));
    assert!(!d.manager.manages(2));
    assert!(matches!(d.next_round().action, ManagerAction::Receive));
}

#[test]
fn those_that_go_on_keep_their_order() {
    for ended in 0..16u64 {
        let mut d = Driver::receiving();
        for id in 0..4 {
            d = d.started(&format!("user{}", id), id);
        }
        d = d.next_round();
        for id in 0..4 {
            let status = if ended >> id & 1 == 1 { Some(0) } else { None };
            d = d.polled(id, status, 0).0.next(ManagerEvent::Sent(true));
        }
        d = d.next_round();
        for id in 0..4 {
            if ended >> id & 1 == 0 {
                d = d.polled(id, None, 0).0.next(ManagerEvent::Sent(true));
            }
        }
        assert!(matches!(d.action, ManagerAction::Receive));
    }
}

#[test]
fn a_recording_that_cannot_be_started_ends_the_downloader() {
    let d = Driver::receiving().next(start("user1"));
    let file = DirectoryInfo { is_dir: false, readonly: false };
    let usable = DirectoryInfo { is_dir: true, readonly: false };
    let now = LocalTime { year: 2024, month: 7, day: 14, hour: 23, minute: 5, second: 9 };
    assert!(!d.manager.can_accept(&ManagerEvent::Prepared { output: file, log: usable, now }));
    assert!(!d.manager.can_accept(&ManagerEvent::Prepared { output: usable, log: file, now }));
    let d = d.next(prepared()).next(ManagerEvent::Launched(None));
    assert!(matches!(d.action, ManagerAction::Fail(ManagerError::StartFailed)));
}

#[test]
fn a_recording_is_stopped() {
    let d = Driver::receiving().started("user1", 1).started("user2", 2);
    let d = d.next(message("user2", StreamerAction::Stop));
    assert!(matches!(d.action, ManagerAction::Interrupt(1002)));
    let d = d.next(ManagerEvent::Interrupted(true));
    assert!(matches!(&d.action, ManagerAction::WaitAndPoll { handle, millis: 250 }
        if handle.id == 2));
    let d = d.next(ManagerEvent::Cleanup(CleanupEvent::Alive));
    assert!(matches!(d.action, ManagerAction::WaitAndPoll { .. }));
    let d = d.next(ManagerEvent::Cleanup(CleanupEvent::Exited));
    assert!(matches!(d.action, ManagerAction::Receive));
    assert!(d.manager.manages(1));
    assert!(!d.manager.manages(2));
    let (d, report) = d.next_round().polled(1, None, 0);
    assert_eq!(report.streamer.profile_name, "user1");
    let d = d.next(ManagerEvent::Sent(true));
    assert!(matches!(d.action, ManagerAction::Receive));
    assert!(!d.manager.can_accept(&message("user2", StreamerAction::Stop)));
    let d = d.started("user2", 5);
    assert!(d.manager.manages(5));
}

#[test]
fn a_recording_that_does_not_stop_is_killed() {
    let mut d = Driver::receiving()
        .started("user1", 1)
        .next(message("user1", StreamerAction::Stop))
        .next(ManagerEvent::Interrupted(true));
    for _ in 0..11 {
        d = d.next(ManagerEvent::Cleanup(CleanupEvent::Alive));
        assert!(matches!(d.action, ManagerAction::WaitAndPoll { .. }));
    }
    let d = d.next(ManagerEvent::Cleanup(CleanupEvent::Alive));
    assert!(matches!(&d.action, ManagerAction::Kill { handle } if handle.id == 1));
    assert!(!d.manager.can_accept(&ManagerEvent::Cleanup(CleanupEvent::Exited)));
    assert!(d.manager.can_accept(&ManagerEvent::Cleanup(CleanupEvent::KillFailed)));
    let d = d.next(ManagerEvent::Cleanup(CleanupEvent::Killed));
    assert!(matches!(d.action, ManagerAction::Receive));
    assert!(!d.manager.manages(1));
}

#[test]
fn recordings_that_cannot_be_stopped_end_the_downloader() {
    let d = Driver::receiving()
        .started("user1", 1)
        .next(message("user1", StreamerAction::Stop))
        .next(ManagerEvent::Interrupted(false));
    assert!(matches!(d.action, ManagerAction::Fail(ManagerError::InterruptFailed)));
    let mut d = Driver::receiving()
        .started("user1", 1)
        .next(message("user1", StreamerAction::Stop))
        .next(ManagerEvent::Interrupted(true));
    for _ in 0..12 {
        d = d.next(ManagerEvent::Cleanup(CleanupEvent::Alive));
    }
    let d = d.next(ManagerEvent::Cleanup(CleanupEvent::KillFailed));
    assert!(matches!(d.action, ManagerAction::Fail(ManagerError::KillFailed)));
}

#[test]
fn a_user_without_a_recording_cannot_be_stopped() {
    let d = Driver::receiving().started("user1", 1);
    assert!(!d.manager.can_accept(&message("user2", StreamerAction::Stop)));
    assert!(d.manager.can_accept(&message("user1", StreamerAction::Stop)));
}

#[test]
fn other_messages_are_passed_over() {
    let d = Driver::receiving();
    let d = d.next(message("user1", StreamerAction::Heartbeat));
    assert!(matches!(d.action, ManagerAction::Receive));
    let d = d.next(message("user1", StreamerAction::Update));
    assert!(matches!(d.action, ManagerAction::Receive));
}

#[test]
fn all_are_interrupted_before_any_is_waited_for() {
    let d = Driver::receiving().started("user1", 1).started("user2", 2);
    let d = d.next(message("N/A", StreamerAction::StopAll));
    assert!(matches!(d.action, ManagerAction::Interrupt(1001)));
    assert!(!d.manager.can_accept(&ManagerEvent::Interrupted(false)));
    let d = d.next(ManagerEvent::Interrupted(true));
    assert!(matches!(d.action, ManagerAction::Interrupt(1002)));
    let d = d.next(ManagerEvent::Interrupted(true));
    assert!(matches!(&d.action, ManagerAction::WaitAndPoll { handle, .. } if handle.id == 1));
    let d = d.next(ManagerEvent::Cleanup(CleanupEvent::Exited));
    assert!(matches!(&d.action, ManagerAction::WaitAndPoll { handle, .. } if handle.id == 2));
    let d = d.next(ManagerEvent::Cleanup(CleanupEvent::Exited));
    assert!(matches!(d.action, ManagerAction::Exit));
    assert!(!d.manager.manages(1));
    assert!(!d.manager.manages(2));
    assert!(!d.manager.can_accept(&ManagerEvent::Message(None)));
}

#[test]
fn stopping_all_goes_on_after_a_kill() {
    let mut d = Driver::receiving()
        .started("user1", 1)
        .started("user2", 2)
        .next(message("N/A", StreamerAction::StopAll))
        .next(ManagerEvent::Interrupted(true))
        .next(ManagerEvent::Interrupted(true));
    for _ in 0..11 {
        d = d.next(ManagerEvent::Cleanup(CleanupEvent::Alive));
        assert!(matches!(&d.action, ManagerAction::WaitAndPoll { handle, .. } if handle.id == 1));
    }
    let d = d.next(ManagerEvent::Cleanup(CleanupEvent::Alive));
    assert!(matches!(&d.action, ManagerAction::Kill { handle } if handle.id == 1));
    assert!(!d.manager.can_accept(&ManagerEvent::Cleanup(CleanupEvent::KillFailed)));
    let d = d.next(ManagerEvent::Cleanup(CleanupEvent::Killed));
    assert!(matches!(&d.action, ManagerAction::WaitAndPoll { handle, .. } if handle.id == 2));
    let d = d.next(ManagerEvent::Cleanup(CleanupEvent::Exited));
    assert!(matches!(d.action, ManagerAction::Exit));
}

#[test]
fn with_nothing_to_stop_the_downloader_exits_at_once() {
    let d = Driver::receiving().next(message("N/A", StreamerAction::StopAll));
    assert!(matches!(d.action, ManagerAction::Exit));
}
