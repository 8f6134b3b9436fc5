use rustwave::models::SoundCloudActivity;
use rustwave::models::SoundCloudActivityCollection;
use rustwave::models::SoundCloudTrack;
use rustwave::models::SoundCloudUser;
use rustwave::stream::get_activity_feed_tracks;
use rustwave::stream::has_artwork;
use rustwave::stream::has_waveform;
use rustwave::stream::needs_default_query;
use rustwave::stream::plan_track_download;

fn track(id: u64, stream_url: Option<&str>) -> SoundCloudTrack {
    SoundCloudTrack {
        id,
        stream_url: stream_url.map(|s| s.to_string()),
        title: format!("track {id}"),
        user: SoundCloudUser {
            urn: "soundcloud:users:1".to_string(),
            username: "someone".to_string(),
            full_name: String::new(),
            avatar_url: String::new(),
            followers_count: None,
        },
        duration: 1_000,
        access: "playable".to_string(),
        playback_count: None,
        favoritings_count: None,
        reposts_count: None,
        artwork_url: String::new(),
        waveform_url: String::new(),
    }
}

#[test]
fn download_uses_the_stream_url() {
    let t = track(1, Some("https://streams.example/1"));
    assert_eq!(plan_track_download(&t), Ok("https://streams.example/1".to_string()));
}

#[test]
fn missing_stream_url_is_nothing_to_play() {
    let t = track(1, None);
    assert_eq!(plan_track_download(&t), Err("Track has no stream URL".to_string()));
}

#[test]
fn artwork_and_waveform_are_fetched_only_when_present() {
    let mut t = track(1, None);
    assert!(!has_artwork(&t));
    assert!(!has_waveform(&t));
    t.artwork_url = "https://img.example/a.png".to_string();
    t.waveform_url = "https://img.example/w.png".to_string();
    assert!(has_artwork(&t));
    assert!(has_waveform(&t));
}

#[test]
fn activity_feed_projects_to_origin_tracks() {
    let a = track(1, None);
    let b = track(2, None);
    let feed = SoundCloudActivityCollection {
        collection: vec![
            SoundCloudActivity { activity_type: "track".to_string(), origin: a.clone() },
            SoundCloudActivity { activity_type: "track-repost".to_string(), origin: b.clone() },
        ],
    };
    assert_eq!(get_activity_feed_tracks(feed), vec![a, b]);
}

#[test]
fn pagination_urls_keep_their_own_query() {
    assert!(needs_default_query("https://api.example/me/likes/tracks"));
    assert!(!needs_default_query("https://api.example/me/likes/tracks?offset=50"));
}
