use stream_downloader::config::DownloaderConfig;
use stream_downloader::manager::{DownloadManager, ManagerAction};
use stream_downloader::status::{
    remove_first, StatusAction, StatusError, StatusEvent, StatusLoop,
};
use stream_downloader::streamer::{
    OnlineState, Streamer, StreamerAction, StreamerState, StreamerUpdate,
};

/// A status loop, and what it wants to be done.
struct Driver {
    status: StatusLoop,
    action: StatusAction,
}

fn config() -> DownloaderConfig {
    DownloaderConfig {
        backend_url: "backend:8000".to_string(),
        max_parallel_downloads: 2,
        main_loop_sleep_time: 7,
        sleep_time_between_statusing: 3,
        ..DownloaderConfig::default()
    }
}

fn user(name: &str, status: StreamerState, size: u64) -> Streamer {
    Streamer {
        profile_url: format!("https://stream.site/{}", name),
        profile_name: name.to_string(),
        profile_status: status,
        download_size_mb: size,
    }
}

fn report(name: &str, size: u64, action: StreamerAction) -> StreamerUpdate {
    StreamerUpdate { streamer: user(name, StreamerState::Stopped, size), action }
}

fn answer(text: &str) -> StatusEvent {
    StatusEvent::Statusing(Some(text.to_string()))
}

impl Driver {
    fn new() -> Driver {
        let (status, action) = StatusLoop::new(config());
        Driver { status, action }
    }

    fn next(self, event: StatusEvent) -> Driver {
        assert!(self.status.can_accept(&event), "{:?} refuses {:?}", self.status, event);
        let (status, action) = self.status.next(event);
        Driver { status, action }
    }

    fn begun() -> Driver {
        Driver::new().next(StatusEvent::Received(Some(StreamerUpdate::heartbeat())))
    }

    /// A round in which these users are being recorded, up to the question who
    /// is to be stopped.
    fn recording(statusing: &str, active: Vec<Streamer>) -> Driver {
        let d = Driver::begun()
            .next(answer(statusing))
            .next(StatusEvent::Users(Some(active)))
            .next(StatusEvent::Reports(vec![]));
        d.lists("http://backend:8000/users/state/stopping");
        d
    }

    fn lists(&self, address: &str) {
        match &self.action {
            StatusAction::ListUsers { url } => assert_eq!(url, address),
            other => panic!("{:?}", other),
        }
    }

    fn posts(&self, name: &str, status: StreamerState, size: u64) {
        match &self.action {
            StatusAction::PostUser { url, body } => {
                assert_eq!(url, &format!("http://backend:8000/users/{}", name));
                assert_eq!(body.profile_name, name);
                assert_eq!(body.profile_url, format!("https://stream.site/{}", name));
                assert_eq!(body.profile_status, status);
                assert_eq!(body.download_size_mb, size);
            }
            other => panic!("{:?}", other),
        }
    }

    fn sleeps(&self, expected: u64) {
        assert!(matches!(self.action, StatusAction::Sleep(secs) if secs == expected),
            "{:?}", self.action);
    }

    fn checks(&self, name: &str) {
        match &self.action {
            StatusAction::CheckUser { user, retries } => {
                assert_eq!(user.profile_name, name);
                assert_eq!(*retries, 4);
            }
            other => panic!("{:?}", other),
        }
    }

    fn fails(&self, error: StatusError) {
        assert!(matches!(self.action, StatusAction::Fail(e) if e == error));
        assert!(!self.status.can_accept(&StatusEvent::Slept));
        assert!(!self.status.can_accept(&StatusEvent::Received(None)));
    }
}

#[test]
fn the_heartbeat_comes_first() {
    let d = Driver::new();
    assert!(matches!(d.action, StatusAction::Receive));
    assert!(!d.status.can_accept(&answer("true")));
    let (_, first) = DownloadManager::new("/videos", "/logs");
    let beat = match first {
        ManagerAction::Send(u) => u,
        other => panic!("{:?}", other),
    };
    let d = d.next(StatusEvent::Received(Some(beat)));
    assert!(matches!(&d.action, StatusAction::GetStatusing { url }
        if url == "http://backend:8000/statusing"));
}

#[test]
fn without_a_heartbeat_the_loop_fails() {
    let u = report("user1", 0, StreamerAction::Update);
    Driver::new().next(StatusEvent::Received(Some(u))).fails(StatusError::NoHeartbeat);
    Driver::new().next(StatusEvent::Received(None)).fails(StatusError::Disconnected);
}

#[test]
fn the_backend_must_say_whether_to_look_users_up() {
    Driver::begun().next(StatusEvent::Statusing(None)).fails(StatusError::RequestFailed);
    Driver::begun().next(answer("maybe")).fails(StatusError::InvalidStatusing);
    Driver::begun().next(answer("true")).lists("http://backend:8000/users/state/downloading");
    Driver::begun().next(answer("false")).lists("http://backend:8000/users/state/downloading");
}

#[test]
fn errors_say_what_happened() {
    assert_eq!(StatusError::NoHeartbeat.message(), "No Heartbeat Received!");
    assert_eq!(StatusError::Disconnected.message(), "downloader disconnected");
    assert_eq!(StatusError::RequestFailed.message(), "request to the backend failed");
    assert_eq!(
        StatusError::InvalidStatusing.message(),
        "yes".parse::<bool>().unwrap_err().to_string()
    );
    assert_eq!(StatusError::SendFailed.message(), "sending on a disconnected channel");
}

#[test]
fn reports_are_posted_one_after_the_other() {
    let d = Driver::begun().next(answer("true")).next(StatusEvent::Users(Some(vec![
        user("user1", StreamerState::Downloading, 10),
        user("user2", StreamerState::Downloading, 20),
        user("user3", StreamerState::Downloading, 30),
    ])));
    assert!(matches!(d.action, StatusAction::CollectReports));
    let d = d.next(StatusEvent::Reports(vec![
        report("user3", 31, StreamerAction::Update),
        report("user1", 11, StreamerAction::Update),
        report("user3", 32, StreamerAction::Stop),
        report("user1", 12, StreamerAction::Update),
        report("user4", 99, StreamerAction::Heartbeat),
    ]));
    d.posts("user1", StreamerState::Downloading, 12);
    let d = d.next(StatusEvent::Posted(true));
    d.posts("user3", StreamerState::Waiting, 30);
    let d = d.next(StatusEvent::Posted(true));
    d.lists("http://backend:8000/users/state/stopping");
}

#[test]
fn a_report_that_cannot_be_posted_ends_the_loop() {
    Driver::begun()
        .next(answer("true"))
        .next(StatusEvent::Users(Some(vec![user("user1", StreamerState::Downloading, 10)])))
        .next(StatusEvent::Reports(vec![report("user1", 11, StreamerAction::Update)]))
        .next(StatusEvent::Posted(false))
        .fails(StatusError::RequestFailed);
}

#[test]
fn only_reports_are_accepted_about_recorded_users() {
    let d = Driver::begun()
        .next(answer("true"))
        .next(StatusEvent::Users(Some(vec![user("user1", StreamerState::Downloading, 10)])));
    let bad = vec![report("user1", 11, StreamerAction::Heartbeat)];
    assert!(!d.status.can_accept(&StatusEvent::Reports(bad)));
    let good = vec![
        report("user1", 11, StreamerAction::Update),
        report("user1", 11, StreamerAction::Stop),
    ];
    assert!(d.status.can_accept(&StatusEvent::Reports(good)));
}

#[test]
fn users_are_stopped() {
    let d = Driver::recording(
        "true",
        vec![
            user("user1", StreamerState::Downloading, 10),
            user("user2", StreamerState::Downloading, 20),
        ],
    );
    let d = d.next(StatusEvent::Users(Some(vec![
        user("user2", StreamerState::Stopping, 20),
        user("user9", StreamerState::Stopping, 90),
    ])));
    match &d.action {
        StatusAction::Send(u) => {
            assert!(matches!(u.action, StreamerAction::Stop));
            assert_eq!(u.streamer.profile_name, "user2");
            assert_eq!(u.streamer.profile_status, StreamerState::Stopping);
            assert_eq!(u.streamer.download_size_mb, 20);
        }
        other => panic!("{:?}", other),
    }
    let d = d.next(StatusEvent::Sent(true));
    d.posts("user2", StreamerState::Stopped, 0);
    assert!(!d.status.can_accept(&StatusEvent::Posted(false)));
    let d = d.next(StatusEvent::Posted(true));
    assert!(matches!(&d.action, StatusAction::Send(u) if u.streamer.profile_name == "user9"));
    let d = d.next(StatusEvent::Sent(true));
    d.posts("user9", StreamerState::Stopped, 0);
    let d = d.next(StatusEvent::Posted(true));
    d.lists("http://backend:8000/users/state/waiting");
}

#[test]
fn a_stop_that_cannot_be_sent_ends_the_loop() {
    Driver::recording("true", vec![])
        .next(StatusEvent::Users(Some(vec![user("user1", StreamerState::Stopping, 0)])))
        .next(StatusEvent::Sent(false))
        .fails(StatusError::SendFailed);
}

#[test]
fn without_room_nobody_is_looked_up() {
    let full = vec![
        user("user1", StreamerState::Downloading, 10),
        user("user2", StreamerState::Downloading, 20),
    ];
    let d = Driver::recording("true", full).next(StatusEvent::Users(None));
    d.sleeps(7);
    let d = d.next(StatusEvent::Slept);
    assert!(matches!(&d.action, StatusAction::GetStatusing { url }
        if url == "http://backend:8000/statusing"));
}

#[test]
fn nobody_is_looked_up_while_the_backend_does_not_want_it() {
    Driver::recording("false", vec![]).next(StatusEvent::Users(None)).sleeps(7);
}

#[test]
fn waiting_users_are_looked_up() {
    let d = Driver::recording("true", vec![user("user1", StreamerState::Downloading, 10)])
        .next(StatusEvent::Users(None));
    d.lists("http://backend:8000/users/state/waiting");
    let d = d.next(StatusEvent::Users(Some(vec![
        user("user2", StreamerState::Waiting, 5),
        user("user3", StreamerState::Waiting, 6),
        user("user4", StreamerState::Waiting, 0),
    ])));
    d.checks("user2");
    let d = d.next(StatusEvent::Checked(OnlineState::Online("https://a/2.m3u8".to_string())));
    d.posts("user2", StreamerState::Downloading, 0);
    assert!(!d.status.can_accept(&StatusEvent::Posted(false)));
    let d = d.next(StatusEvent::Posted(true));
    match &d.action {
        StatusAction::Send(u) => {
            assert!(matches!(&u.action, StreamerAction::Start(link) if link == "https://a/2.m3u8"));
            assert_eq!(u.streamer.profile_name, "user2");
            assert_eq!(u.streamer.profile_status, StreamerState::Downloading);
            assert_eq!(u.streamer.download_size_mb, 0);
        }
        other => panic!("{:?}", other),
    }
    let d = d.next(StatusEvent::Sent(true));
    d.sleeps(3);
    let d = d.next(StatusEvent::Slept);
    d.checks("user3");
    let d = d.next(StatusEvent::Checked(OnlineState::Offline));
    d.sleeps(3);
    let d = d.next(StatusEvent::Slept);
    d.checks("user4");
    let d = d.next(StatusEvent::Checked(OnlineState::Offline)).next(StatusEvent::Slept);
    d.sleeps(7);
}

#[test]
fn a_start_that_cannot_be_sent_ends_the_loop() {
    Driver::recording("true", vec![])
        .next(StatusEvent::Users(None))
        .next(StatusEvent::Users(Some(vec![user("user1", StreamerState::Waiting, 0)])))
        .next(StatusEvent::Checked(OnlineState::Online("a.m3u8".to_string())))
        .next(StatusEvent::Posted(true))
        .next(StatusEvent::Sent(false))
        .fails(StatusError::SendFailed);
}

#[test]
fn the_first_user_of_a_name_is_removed() {
    let mut users = vec![
        user("user1", StreamerState::Downloading, 1),
        user("user2", StreamerState::Downloading, 2),
        user("user1", StreamerState::Downloading, 3),
    ];
    remove_first(&mut users, &"user1".to_string());
    let sizes: Vec<u64> = users.iter().map(|u| u.download_size_mb).collect();
    assert_eq!(sizes, vec![2, 3]);
    remove_first(&mut users, &"user9".to_string());
    assert_eq!(users.len(), 2);
}
