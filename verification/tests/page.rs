use stream_downloader::page::{
    judge_source, obtain_source, obtain_user_status, require_found, PageError, ROOM_PATTERN,
};
use stream_downloader::streamer::OnlineState;
use stream_downloader::text::strip_quotes;

/// A page that carries a dossier, written as the text of a JavaScript string.
fn page(dossier: &str) -> String {
    format!(
        "<html><head><script>\n  window.initialRoomDossier = \"{}\";\n</script></head></html>",
        dossier
    )
}

fn link(html: &str) -> Option<String> {
    match obtain_user_status(html) {
        Ok(OnlineState::Online(link)) => Some(link),
        Ok(OnlineState::Offline) => None,
        Err(e) => panic!("{}", e.message()),
    }
}

fn error(html: &str) -> PageError {
    match obtain_user_status(html) {
        Ok(state) => panic!("{:?}", state),
        Err(e) => e,
    }
}

#[test]
fn online_user_test() {
    let online_user_html = page(
        "{\\u0022room\\u0022: \\u0022user1\\u0022, \\u0022hls_source\\u0022: \
         \\u0022https://edge.stream.site/live/user1.m3u8\\u0022}",
    );
    let source = obtain_source(&online_user_html).expect("No Source Found");
    let m3u8_link = link(&online_user_html).expect("No Link Found");
    assert_eq!(strip_quotes(&source), m3u8_link);
    println!("{}", m3u8_link);
    assert!(!m3u8_link.is_empty());
    assert!(m3u8_link.ends_with(".m3u8"));
    assert_eq!(m3u8_link, "https://edge.stream.site/live/user1.m3u8");
}

#[test]
fn offline_user_test() {
    let offline_user_html =
        page("{\\u0022room\\u0022: \\u0022user1\\u0022, \\u0022hls_source\\u0022: \\u0022\\u0022}");
    assert!(link(&offline_user_html).is_none());
    let source = obtain_source(&offline_user_html).expect("No Source Found");
    assert_eq!(source, "\"\"");
    let m3u8_link = strip_quotes(&source);
    println!("{}", m3u8_link);
    assert!(m3u8_link.is_empty());
}

#[test]
fn the_first_dossier_counts() {
    let first = page("{\\\"hls_source\\\": \\\"https://a/one.m3u8\\\"}");
    let second = page("{\\\"hls_source\\\": \\\"https://a/two.m3u8\\\"}");
    let both = format!("{}{}", first, second);
    assert_eq!(link(&both).unwrap(), "https://a/one.m3u8");
}

#[test]
fn space_around_the_assignment_does_not_matter() {
    let html = "window.initialRoomDossier=\n\t \"{\\\"hls_source\\\": \\\"b.m3u8\\\"}\"";
    assert_eq!(link(html).unwrap(), "b.m3u8");
}

#[test]
fn escaped_quotes_do_not_end_the_dossier() {
    let html = page("{\\\"title\\\": \\\"a \\\\\\\"b\\\\\\\" c\\\", \\\"hls_source\\\": \\\"c.m3u8\\\"}");
    assert_eq!(link(&html).unwrap(), "c.m3u8");
}

#[test]
fn a_source_that_is_no_playlist_is_offline() {
    assert!(link(&page("{\\\"hls_source\\\": \\\"https://a/one.mp4\\\"}")).is_none());
    assert!(link(&page("{\\\"hls_source\\\": null}")).is_none());
    assert!(link(&page("{\\\"hls_source\\\": 17}")).is_none());
    assert!(link(&page("{\\\"hls_source\\\": {\\\"a\\\": \\\"m3u8\\\"}}")).is_none());
}

#[test]
fn a_page_without_a_dossier() {
    assert_eq!(error(""), PageError::NoDossier);
    assert_eq!(error("<html>window.initialRoomDossier = 17;</html>"), PageError::NoDossier);
    assert_eq!(error("window.initialRoomDossier = \"never closed"), PageError::NoDossier);
    assert_eq!(PageError::NoDossier.message(), "No Valid Regex Found");
}

#[test]
fn a_dossier_that_is_no_json_text() {
    assert_eq!(error(&page("\\q")), PageError::InvalidJson);
    assert_eq!(PageError::InvalidJson.message(), "Invalid JSON Object Received");
}

#[test]
fn a_dossier_that_holds_no_json() {
    assert_eq!(error(&page("no json")), PageError::InvalidDossier);
    assert_eq!(error(&page("")), PageError::InvalidDossier);
    assert_eq!(PageError::InvalidDossier.message(), "Invalid Dossier JSON");
}

#[test]
fn a_dossier_without_a_source() {
    assert_eq!(error(&page("{}")), PageError::NoSource);
    assert_eq!(error(&page("[1, 2]")), PageError::NoSource);
    assert_eq!(error(&page("{\\\"source\\\": \\\"a.m3u8\\\"}")), PageError::NoSource);
    assert_eq!(PageError::NoSource.message(), "No Source In Dossier");
}

#[test]
fn steps_into_a_page() {
    let found: Result<Option<String>, u8> = Ok(Some("a".to_string()));
    assert_eq!(
        require_found(found, PageError::InvalidJson, PageError::NotText),
        Ok("a".to_string())
    );
    let missing: Result<Option<String>, u8> = Ok(None);
    assert_eq!(
        require_found(missing, PageError::InvalidJson, PageError::NotText),
        Err(PageError::NotText)
    );
    let invalid: Result<Option<String>, u8> = Err(1);
    assert_eq!(
        require_found(invalid, PageError::InvalidDossier, PageError::NoSource),
        Err(PageError::InvalidDossier)
    );
    assert_eq!(PageError::NotText.message(), "JSON Object Is Not A Text");
}

#[test]
fn the_room_pattern_is_valid() {
    assert!(regex::Regex::new(ROOM_PATTERN).is_ok());
    assert_eq!(ROOM_PATTERN, r#"window\.initialRoomDossier\s*=\s*("(?:\\.|[^\\"])*")"#);
}

#[test]
fn sources_are_judged_without_their_quotes() {
    match judge_source("\"https://a/one.m3u8\"") {
        OnlineState::Online(link) => {
            assert_eq!(link, "https://a/one.m3u8");
            assert!(!link.contains('"'));
        }
        OnlineState::Offline => panic!("offline"),
    }
    match judge_source("m3\"u8") {
        OnlineState::Online(link) => assert_eq!(link, "m3u8"),
        OnlineState::Offline => panic!("offline"),
    }
    assert!(matches!(judge_source("\"\""), OnlineState::Offline));
    assert!(matches!(judge_source("3u8"), OnlineState::Offline));
    assert!(matches!(judge_source("https://a/one.m3u8?token=1"), OnlineState::Offline));
}
