use stream_downloader::cleanup::{Cleanup, CleanupAction, CleanupPhase};
use stream_downloader::clock::LocalTime;
use stream_downloader::downloader::{
    sanitize_directory_path, DirectoryInfo, DownloaderError, DownloaderProc, HeartbeatError,
    ProcHandle,
};
use stream_downloader::streamer::{StreamerAction, StreamerState};

const USABLE: DirectoryInfo = DirectoryInfo { is_dir: true, readonly: false };

const NOW: LocalTime =
    LocalTime { year: 2024, month: 7, day: 14, hour: 23, minute: 5, second: 9 };

fn recording() -> DownloaderProc {
    DownloaderProc::new("https://a/one.m3u8", "user1", "/videos", "/logs/", USABLE, USABLE, &NOW)
}

#[test]
fn errors_describe_themselves() {
    assert_eq!(HeartbeatError::new().to_string(), "No Heartbeat Received!");
    assert_eq!(HeartbeatError::default().to_string(), "No Heartbeat Received!");
    assert_eq!(DownloaderError::new("gone").to_string(), "gone");
}

#[test]
fn directories() {
    assert_eq!(sanitize_directory_path("/videos", USABLE), Some("/videos".to_string()));
    let file = DirectoryInfo { is_dir: false, readonly: false };
    let locked = DirectoryInfo { is_dir: true, readonly: true };
    assert_eq!(sanitize_directory_path("/videos", file), None);
    assert_eq!(sanitize_directory_path("/videos", locked), None);
    assert!(USABLE.is_usable());
    assert!(!file.is_usable());
    assert!(!locked.is_usable());
}

#[test]
fn a_new_recording() {
    let r = recording();
    assert_eq!(r.m3u8_url, "https://a/one.m3u8");
    assert_eq!(r.name, "user1");
    assert_eq!(r.download_path, "/videos/user1-23_05_09-07_14_2024.mp4");
    assert_eq!(r.stdout_log_path, "/logs/user1-stdout-23_05_09-07_14_2024.log");
    assert_eq!(r.stderr_log_path, "/logs/user1-stderr-23_05_09-07_14_2024.log");
    assert_ne!(r.stdout_log_path, r.stderr_log_path);
    assert_ne!(r.download_path, r.stdout_log_path);
    assert_ne!(r.download_path, r.stderr_log_path);
    assert_eq!(r.handle, None);
}

#[test]
fn the_command_of_a_recording() {
    let command = recording().start_command();
    assert_eq!(command.program, "ffmpeg");
    assert_eq!(
        command.args,
        vec![
            "-i",
            "https://a/one.m3u8",
            "-c",
            "copy",
            "/videos/user1-23_05_09-07_14_2024.mp4"
        ]
    );
    assert_eq!(command.stdout_log, "/logs/user1-stdout-23_05_09-07_14_2024.log");
    assert_eq!(command.stderr_log, "/logs/user1-stderr-23_05_09-07_14_2024.log");
}

#[test]
fn a_recording_without_a_process() {
    let mut r = recording();
    assert_eq!(r.get_proc_status(Some(0)), None);
    assert_eq!(
        r.send_sigint().unwrap_err().to_string(),
        "No Active Process for Downloading User"
    );
    assert_eq!(
        r.cleanup_process().unwrap_err().to_string(),
        "No Active Process for Downloading User"
    );
    assert_eq!(r.start_downloading(Err("no such program")), Err("no such program"));
    assert_eq!(r.handle, None);
    assert!(matches!(r.report(Some(0), None).action, StreamerAction::Update));
}

#[test]
fn a_recording_with_a_process() {
    let mut r = recording();
    let handle = ProcHandle { id: 7, pid: 4242 };
    let started: Result<ProcHandle, u8> = Ok(handle);
    assert_eq!(r.start_downloading(started), Ok(()));
    assert_eq!(r.handle, Some(handle));
    assert_eq!(r.get_proc_status(None), None);
    assert_eq!(r.get_proc_status(Some(255)), Some(255));
    assert!(matches!(r.send_sigint(), Ok(4242)));
    match r.cleanup_process() {
        Ok((cleanup, action)) => {
            assert_eq!(cleanup, Cleanup { counter: 0, phase: CleanupPhase::Waiting });
            assert_eq!(action, CleanupAction::WaitAndPoll(250));
        }
        Err(e) => panic!("{}", e.to_string()),
    }
}

#[test]
fn sizes_are_in_whole_megabytes() {
    let r = recording();
    assert_eq!(r.get_size_of_download_mb(None), None);
    assert_eq!(r.get_size_of_download_mb(Some(0)), Some(0));
    assert_eq!(r.get_size_of_download_mb(Some(999_999)), Some(0));
    assert_eq!(r.get_size_of_download_mb(Some(1_000_000)), Some(1));
    assert_eq!(r.get_size_of_download_mb(Some(123_456_789)), Some(123));
    assert_eq!(r.get_size_of_download_mb(Some(u64::MAX)), Some(u64::MAX / 1_000_000));
}

#[test]
fn reports_of_a_recording() {
    let mut r = recording();
    let started: Result<ProcHandle, u8> = Ok(ProcHandle { id: 7, pid: 4242 });
    assert!(r.start_downloading(started).is_ok());
    let running = r.report(None, Some(5_600_000));
    assert!(matches!(running.action, StreamerAction::Update));
    assert_eq!(running.streamer.profile_name, "user1");
    assert_eq!(running.streamer.profile_url, "N/A");
    assert_eq!(running.streamer.profile_status, StreamerState::Stopped);
    assert_eq!(running.streamer.download_size_mb, 5);
    let ended = r.report(Some(0), None);
    assert!(matches!(ended.action, StreamerAction::Stop));
    assert_eq!(ended.streamer.profile_name, "user1");
    assert_eq!(ended.streamer.download_size_mb, 0);
}
