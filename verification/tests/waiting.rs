use stream_downloader::cleanup::{
    Cleanup, CleanupAction, CleanupEvent, CleanupPhase, PATIENCE, POLL_MILLIS,
};
use stream_downloader::page::PageError;
use stream_downloader::retry::{PageReply, RetryAction, RetryPhase, StatusRetry};
use stream_downloader::streamer::{OnlineState, Streamer, StreamerState};

const PAGE: &str = "window.initialRoomDossier = \"{\\\"hls_source\\\": \\\"a.m3u8\\\"}\"";

const URL: &str = "https://stream.site/user1";

fn lookup(retry_count: u32) -> StatusRetry {
    let user = Streamer {
        profile_url: URL.to_string(),
        profile_name: "user1".to_string(),
        profile_status: StreamerState::Waiting,
        download_size_mb: 0,
    };
    let (retry, first) = StatusRetry::start(&user, retry_count);
    assert!(matches!(first, RetryAction::WaitAndRequest { secs: 0, url } if url == URL));
    assert_eq!(retry.url, URL);
    assert_eq!(retry.retries, 0);
    assert_eq!(retry.retry_count, retry_count);
    assert_eq!(retry.phase, RetryPhase::Requesting);
    retry
}

fn lookup_at(retries: u32, retry_count: u32, phase: RetryPhase) -> StatusRetry {
    StatusRetry { url: URL.to_string(), retries, retry_count, phase }
}

fn pause(action: RetryAction) -> u64 {
    match action {
        RetryAction::WaitAndRequest { secs, url } => {
            assert_eq!(url, URL);
            secs
        }
        other => panic!("{:?}", other),
    }
}

fn is_over(retry: &StatusRetry) -> bool {
    retry.phase == RetryPhase::Finished
        && !retry.can_accept(&refused())
        && !retry.can_accept(&PageReply::Answered(200))
        && !retry.can_accept(&PageReply::Unreachable)
        && !retry.can_accept(&PageReply::Page(PAGE.to_string()))
        && !retry.can_accept(&PageReply::BrokenBody)
}

fn refused() -> PageReply {
    PageReply::Answered(503)
}

#[test]
fn lookups_are_repeated_with_growing_pauses() {
    let mut retry = lookup(4);
    for (secs, reply) in [
        (1, refused()),
        (2, PageReply::Unreachable),
        (4, PageReply::Answered(404)),
        (8, PageReply::Answered(304)),
    ] {
        assert!(retry.can_accept(&reply));
        assert_eq!(pause(retry.next(reply)), secs);
        assert!(retry.retries <= retry.retry_count);
    }
    assert_eq!(retry.retries, 4);
    assert!(retry.can_accept(&refused()));
    assert!(matches!(retry.next(refused()), RetryAction::GiveUp));
    assert_eq!(retry.retries, 4);
    assert!(is_over(&retry));
}

#[test]
fn a_lookup_that_may_not_be_repeated() {
    let mut retry = lookup(0);
    assert!(matches!(retry.next(PageReply::Unreachable), RetryAction::GiveUp));
    let mut retry = lookup(0);
    assert!(matches!(retry.next(PageReply::Answered(400)), RetryAction::GiveUp));
}

#[test]
fn a_status_that_is_given_up_on_is_an_error() {
    let retry = lookup(0);
    for status in [100, 199, 300, 304, 399, 600] {
        assert!(!retry.can_accept(&PageReply::Answered(status)));
        assert!(lookup(1).can_accept(&PageReply::Answered(status)));
    }
    for status in [200, 299, 400, 499, 500, 599] {
        assert!(retry.can_accept(&PageReply::Answered(status)));
    }
}

#[test]
fn statuses_are_judged_as_reqwest_does() {
    for code in 100..1000 {
        let status = reqwest::StatusCode::from_u16(code).unwrap();
        let reads = matches!(lookup(1).next(PageReply::Answered(code)),
            RetryAction::ReadPage);
        assert_eq!(reads, status.is_success());
        let ends = lookup(0).can_accept(&PageReply::Answered(code));
        assert_eq!(ends, status.is_success() || status.is_client_error()
            || status.is_server_error());
    }
}

#[test]
fn a_page_ends_the_lookup() {
    let mut retry = lookup(4);
    assert_eq!(pause(retry.next(refused())), 1);
    let reply = PageReply::Page(PAGE.to_string());
    assert!(!retry.can_accept(&reply));
    assert!(matches!(retry.next(PageReply::Answered(200)), RetryAction::ReadPage));
    assert_eq!(retry.phase, RetryPhase::Reading);
    assert!(!retry.can_accept(&refused()));
    assert!(retry.can_accept(&reply));
    match retry.next(reply) {
        RetryAction::Done(OnlineState::Online(link)) => assert_eq!(link, "a.m3u8"),
        other => panic!("{:?}", other),
    }
    assert_eq!(retry.retries, 1);
    assert!(is_over(&retry));
}

#[test]
fn a_page_that_cannot_be_read_is_not_asked_for_again() {
    let mut retry = lookup_at(0, 4, RetryPhase::Reading);
    let reply = PageReply::Page("<html></html>".to_string());
    assert!(matches!(retry.next(reply), RetryAction::Unreadable(PageError::NoDossier)));
    assert!(is_over(&retry));
}

#[test]
fn a_page_that_breaks_off_is_not_asked_for_again() {
    let mut retry = lookup_at(0, 4, RetryPhase::Reading);
    assert!(retry.can_accept(&PageReply::BrokenBody));
    assert!(matches!(retry.next(PageReply::BrokenBody), RetryAction::GiveUp));
    assert!(is_over(&retry));
}

#[test]
fn pauses_that_can_be_counted() {
    let mut retry = lookup_at(31, 40, RetryPhase::Requesting);
    assert!(retry.can_accept(&PageReply::Unreachable));
    assert_eq!(pause(retry.next(PageReply::Unreachable)), 0x8000_0000);
    assert!(!retry.can_accept(&PageReply::Unreachable));
    assert!(!retry.can_accept(&refused()));
    assert!(retry.can_accept(&PageReply::Answered(200)));
    let last = lookup_at(40, 40, RetryPhase::Requesting);
    assert!(last.can_accept(&PageReply::Unreachable));
}

#[test]
fn a_process_that_stays_alive_is_killed() {
    let (mut cleanup, first) = Cleanup::start();
    assert_eq!(first, CleanupAction::WaitAndPoll(250));
    let mut waited: u64 = POLL_MILLIS;
    for _ in 1..PATIENCE {
        assert!(cleanup.can_accept(CleanupEvent::Alive));
        assert_eq!(cleanup.next(CleanupEvent::Alive), CleanupAction::WaitAndPoll(250));
        waited += POLL_MILLIS;
    }
    assert_eq!(waited, 3000);
    assert_eq!(cleanup.next(CleanupEvent::Alive), CleanupAction::Kill);
    assert!(!cleanup.can_accept(CleanupEvent::Alive));
    assert!(!cleanup.can_accept(CleanupEvent::Exited));
    assert!(cleanup.can_accept(CleanupEvent::Killed));
    assert!(cleanup.can_accept(CleanupEvent::KillFailed));
    let mut other = cleanup;
    assert_eq!(cleanup.next(CleanupEvent::Killed), CleanupAction::Done);
    assert_eq!(other.next(CleanupEvent::KillFailed), CleanupAction::Failed);
    for ended in [cleanup, other] {
        assert_eq!(ended.phase, CleanupPhase::Ended);
        assert!(!ended.can_accept(CleanupEvent::Killed));
        assert!(!ended.can_accept(CleanupEvent::KillFailed));
        assert!(!ended.can_accept(CleanupEvent::Alive));
        assert!(!ended.can_accept(CleanupEvent::Exited));
    }
}

#[test]
fn a_process_that_ends_is_not_killed() {
    let (mut cleanup, _) = Cleanup::start();
    assert!(!cleanup.can_accept(CleanupEvent::Killed));
    assert_eq!(cleanup.next(CleanupEvent::Alive), CleanupAction::WaitAndPoll(250));
    assert!(cleanup.can_accept(CleanupEvent::Exited));
    assert_eq!(cleanup.next(CleanupEvent::Exited), CleanupAction::Done);
    assert_eq!(cleanup, Cleanup { counter: 1, phase: CleanupPhase::Ended });
    assert!(!cleanup.can_accept(CleanupEvent::Alive));
    assert!(!cleanup.can_accept(CleanupEvent::Exited));
}
