use stream_downloader::reports::{choose_report, find_report, sort_reports, update_users};
use stream_downloader::streamer::{Streamer, StreamerAction, StreamerState, StreamerUpdate};

fn user(name: &str, status: StreamerState, size: u64) -> Streamer {
    Streamer {
        profile_name: name.to_string(),
        profile_url: format!("https://stream.site/{}", name),
        profile_status: status,
        download_size_mb: size,
    }
}

fn message(name: &str, status: StreamerState, size: u64, action: StreamerAction) -> StreamerUpdate {
    StreamerUpdate { streamer: user(name, status, size), action }
}

#[test]
fn test_message_handling() {
    let active_users: Vec<Streamer> = vec![
        Streamer {
            profile_name: "user1".to_string(),
            profile_url: "https://stream.site/user1".to_string(),
            profile_status: StreamerState::Downloading,
            download_size_mb: 123,
        },
        Streamer {
            profile_name: "user2".to_string(),
            profile_url: "https://stream.site/user2".to_string(),
            profile_status: StreamerState::Downloading,
            download_size_mb: 456,
        },
        Streamer {
            profile_name: "user3".to_string(),
            profile_url: "https://stream.site/user3".to_string(),
            profile_status: StreamerState::Downloading,
            download_size_mb: 1024,
        },
    ];
    println!("currently active users: {:#?}", active_users);

    println!("get stream updates from the downloader");
    let updates: Vec<StreamerUpdate> = vec![
        StreamerUpdate {
            streamer: Streamer {
                profile_name: "user1".to_string(),
                profile_url: "https://stream.site/user1".to_string(),
                profile_status: StreamerState::Downloading,
                download_size_mb: 150,
            },
            action: StreamerAction::Update,
        },
        StreamerUpdate {
            streamer: Streamer {
                profile_name: "user2".to_string(),
                profile_url: "https://stream.site/user2".to_string(),
                profile_status: StreamerState::Downloading,
                download_size_mb: 480,
            },
            action: StreamerAction::Update,
        },
        StreamerUpdate {
            streamer: Streamer {
                profile_name: "user1".to_string(),
                profile_url: "https://stream.site/user1".to_string(),
                profile_status: StreamerState::Downloading,
                download_size_mb: 170,
            },
            action: StreamerAction::Update,
        },
        StreamerUpdate {
            streamer: Streamer {
                profile_name: "user2".to_string(),
                profile_url: "https://stream.site/user2".to_string(),
                profile_status: StreamerState::Stopped,
                download_size_mb: 512,
            },
            action: StreamerAction::Stop,
        },
        StreamerUpdate {
            streamer: Streamer {
                profile_name: "user1".to_string(),
                profile_url: "https://stream.site/user1".to_string(),
                profile_status: StreamerState::Downloading,
                download_size_mb: 190,
            },
            action: StreamerAction::Update,
        },
    ];
    println!("{:#?}", updates);
    assert_eq!(choose_report(&updates, &"user1".to_string()), Some(4));
    assert_eq!(choose_report(&updates, &"user2".to_string()), Some(3));
    let user3 = choose_report(&updates, &"user3".to_string());
    assert_eq!(user3, None);
    println!("no update received for user {}", active_users[2].profile_name);

    let updated = update_users(&active_users, updates);
    println!("{:#?}", updated);
    assert_eq!(updated.len(), 2);
    assert_eq!(updated[0].profile_name, "user1");
    assert_eq!(updated[0].profile_url, "https://stream.site/user1");
    assert_eq!(updated[0].profile_status, StreamerState::Downloading);
    assert_eq!(updated[0].download_size_mb, 190);
    assert_eq!(updated[1].profile_name, "user2");
    assert_eq!(updated[1].profile_url, "https://stream.site/user2");
    assert_eq!(updated[1].profile_status, StreamerState::Waiting);
    assert_eq!(updated[1].download_size_mb, 456);
}

#[test]
fn equal_sizes_keep_their_order() {
    let sorted = sort_reports(vec![
        message("a", StreamerState::Downloading, 5, StreamerAction::Update),
        message("b", StreamerState::Downloading, 7, StreamerAction::Update),
        message("c", StreamerState::Downloading, 5, StreamerAction::Stop),
        message("d", StreamerState::Downloading, 7, StreamerAction::Stop),
    ]);
    let names: Vec<&str> = sorted.iter().map(|u| u.streamer.profile_name.as_str()).collect();
    assert_eq!(names, vec!["b", "d", "a", "c"]);
    assert_eq!(find_report(&sorted, &"a".to_string()), Some(2));
    assert_eq!(find_report(&sorted, &"x".to_string()), None);
}
