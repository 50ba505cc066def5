use rustlrc::lyrics::{is_success, query_url, select_lyrics, LyricsResponse};
use rustlrc::tags::TrackTags;

fn record(synced: Option<&str>, plain: Option<&str>) -> LyricsResponse {
    LyricsResponse {
        id: 7,
        name: "Gees".to_string(),
        track_name: "Gees".to_string(),
        artist_name: "Bee".to_string(),
        album_name: String::new(),
        duration: "120.5".to_string(),
        instrumental: false,
        plain_lyrics: plain.map(|s| s.to_string()),
        synced_lyrics: synced.map(|s| s.to_string()),
    }
}

#[test]
fn query_url_of_empty_tags_has_all_parameters() {
    let tags = TrackTags {
        artist: String::new(),
        title: String::new(),
        album: String::new(),
        duration: String::new(),
    };
    assert_eq!(
        query_url(&tags),
        "https://lrclib.net/api/get?artist_name=&track_name=&album_name=&duration="
    );
}

#[test]
fn query_url_holds_fields_in_order() {
    let tags = TrackTags {
        artist: "Bee+Gees".to_string(),
        title: "Stayin'+Alive".to_string(),
        album: "Saturday+Night+Fever".to_string(),
        duration: "285.5".to_string(),
    };
    assert_eq!(
        query_url(&tags),
        "https://lrclib.net/api/get?artist_name=Bee+Gees&track_name=Stayin'+Alive&album_name=Saturday+Night+Fever&duration=285.5"
    );
}

#[test]
fn success_is_200_to_299() {
    assert!(!is_success(0));
    assert!(!is_success(100));
    assert!(!is_success(199));
    assert!(is_success(200));
    assert!(is_success(204));
    assert!(is_success(299));
    assert!(!is_success(300));
    assert!(!is_success(404));
    assert!(!is_success(500));
    assert!(!is_success(u16::MAX));
}

#[test]
fn synced_lyrics_are_preferred() {
    assert_eq!(select_lyrics(record(Some("A"), Some("B"))), "A");
    assert_eq!(select_lyrics(record(Some("A"), None)), "A");
}

#[test]
fn plain_lyrics_stand_in_for_missing_synced() {
    assert_eq!(select_lyrics(record(None, Some("B"))), "B");
}

#[test]
fn no_lyrics_select_nothing() {
    assert_eq!(select_lyrics(record(None, None)), "");
}

#[test]
fn empty_synced_lyrics_count_as_present() {
    assert_eq!(select_lyrics(record(Some(""), Some("B"))), "");
    assert_eq!(select_lyrics(record(None, Some(""))), "");
}
