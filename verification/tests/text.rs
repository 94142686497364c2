use std::path::PathBuf;
use stream_downloader::config::DownloaderConfig;
use stream_downloader::streamer::{
    return_users_to_waiting, state_url, statusing_url, user_url, users_url, Streamer,
    StreamerAction, StreamerState, StreamerUpdate,
};
use stream_downloader::text::{ends_with, join_path, parse_bool, strip_quotes};

#[test]
fn paths_are_joined() {
    assert_eq!(join_path("/tmp", "a.mp4"), "/tmp/a.mp4");
    let dirs = ["", "/", "/tmp", "/tmp/", "videos", "a b/\u{fc}", "."];
    let files = ["a.mp4", "/a.mp4", "", "b/c.log", "\u{e4}-1.mp4"];
    for dir in dirs {
        for file in files {
            let mut path = PathBuf::from(dir);
            path.push(file);
            assert_eq!(join_path(dir, file), path.to_str().unwrap());
        }
    }
}

#[test]
fn quotes_are_stripped() {
    assert_eq!(strip_quotes("\"a\"b\"\""), "ab");
    assert_eq!(strip_quotes("'a' \u{201c}b\u{201d}"), "'a' \u{201c}b\u{201d}");
    assert_eq!(strip_quotes(""), "");
}

#[test]
fn suffixes() {
    assert!(ends_with("one.m3u8", "m3u8"));
    assert!(ends_with("m3u8", "m3u8"));
    assert!(!ends_with("3u8", "m3u8"));
    assert!(!ends_with("one.m3u8 ", "m3u8"));
    assert!(ends_with("one", ""));
    assert!(ends_with("\u{fc}m3u8", "m3u8"));
}

#[test]
fn truth_values() {
    for text in ["true", "false", "True", "TRUE", "", " true", "true\n", "1", "0"] {
        assert_eq!(parse_bool(text), text.parse::<bool>().ok());
    }
    assert_eq!(parse_bool("true"), Some(true));
    assert_eq!(parse_bool("false"), Some(false));
    assert_eq!(parse_bool("yes"), None);
}

#[test]
fn default_settings() {
    let config = DownloaderConfig::default();
    assert_eq!(config.backend_url, "http://127.0.0.1:8000");
    assert_eq!(config.download_dir, "/tmp");
    assert_eq!(config.log_dir, "/tmp");
    assert!(config.enable_downloader);
    assert_eq!(config.max_parallel_downloads, 2);
    assert_eq!(config.main_loop_sleep_time, 5);
    assert_eq!(config.sleep_time_between_statusing, 5);
    let copy = config.clone();
    assert_eq!(copy.backend_url, config.backend_url);
    assert_eq!(copy.max_parallel_downloads, 2);
}

#[test]
fn addresses() {
    assert_eq!(statusing_url("backend:8000"), "http://backend:8000/statusing");
    assert_eq!(users_url("backend:8000"), "http://backend:8000/users");
    assert_eq!(state_url("backend:8000", "stopping"), "http://backend:8000/users/state/stopping");
    assert_eq!(user_url("backend:8000", "user1"), "http://backend:8000/users/user1");
}

#[test]
fn messages_about_nobody() {
    let nobody = Streamer::default();
    assert_eq!(nobody.profile_url, "N/A");
    assert_eq!(nobody.profile_name, "N/A");
    assert_eq!(nobody.profile_status, StreamerState::Stopped);
    assert_eq!(nobody.download_size_mb, 0);
    let beat = StreamerUpdate::heartbeat();
    assert!(matches!(beat.action, StreamerAction::Heartbeat));
    assert_eq!(beat.streamer.profile_name, "N/A");
    let stop = StreamerUpdate::stop_all();
    assert!(matches!(stop.action, StreamerAction::StopAll));
    assert_eq!(stop.streamer.profile_name, "N/A");
}

#[test]
fn users_return_to_waiting() {
    let reset = return_users_to_waiting();
    assert_eq!(reset.profile_status, StreamerState::Waiting);
    assert_eq!(reset.download_size_mb, 0);
}

#[test]
fn a_user_in_another_state_has_nothing_downloaded() {
    let user = Streamer {
        profile_url: "https://stream.site/user1".to_string(),
        profile_name: "user1".to_string(),
        profile_status: StreamerState::Error(3),
        download_size_mb: 17,
    };
    let copy = user.clone();
    assert_eq!(copy.profile_status, StreamerState::Error(3));
    assert_eq!(copy.download_size_mb, 17);
    let added = user.in_state(StreamerState::Added);
    assert_eq!(added.profile_url, user.profile_url);
    assert_eq!(added.profile_name, user.profile_name);
    assert_eq!(added.profile_status, StreamerState::Added);
    assert_eq!(added.download_size_mb, 0);
    let start = StreamerAction::Start("a.m3u8".to_string()).clone();
    assert!(matches!(start, StreamerAction::Start(link) if link == "a.m3u8"));
}
