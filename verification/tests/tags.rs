use rustlrc::tags::{decode_name, encode_name, get_track_tags, RawTags, TrackTags};

fn text(s: &str) -> Option<String> {
    Some(s.to_string())
}

#[test]
fn names_are_encoded_with_plus_for_space() {
    assert_eq!(encode_name(&text("Bee Gees")), "Bee+Gees");
    assert_eq!(encode_name(&text("How Deep Is Your Love")), "How+Deep+Is+Your+Love");
    assert_eq!(encode_name(&text("")), "");
    assert_eq!(encode_name(&None), "");
}

#[test]
fn decoded_names_show_spaces() {
    assert_eq!(decode_name("How+Deep+Is+Your+Love"), "How Deep Is Your Love");
    assert_eq!(decode_name("1+1"), "1 1");
    assert_eq!(decode_name(""), "");
}

#[test]
fn decoding_undoes_encoding_without_plus() {
    for name in ["Bee Gees", "", "  ", "Stayin' Alive", "a"] {
        assert_eq!(decode_name(&encode_name(&text(name))), name);
    }
    assert_eq!(decode_name(&encode_name(&text("1+1 = 2"))), "1 1 = 2");
}

#[test]
fn track_tags_of_full_block() {
    let raw = RawTags {
        title: text("Stayin' Alive"),
        artist: text("Bee Gees"),
        album: text("Saturday Night Fever"),
        duration: text("285.5"),
    };
    assert_eq!(
        get_track_tags(&raw),
        TrackTags {
            artist: "Bee+Gees".to_string(),
            title: "Stayin'+Alive".to_string(),
            album: "Saturday+Night+Fever".to_string(),
            duration: "285.5".to_string(),
        }
    );
}

#[test]
fn track_tags_of_empty_block_are_empty() {
    let raw = RawTags { title: None, artist: None, album: None, duration: None };
    assert_eq!(
        get_track_tags(&raw),
        TrackTags {
            artist: String::new(),
            title: String::new(),
            album: String::new(),
            duration: String::new(),
        }
    );
}

#[test]
fn duration_is_kept_as_read() {
    let raw = RawTags { title: None, artist: None, album: None, duration: text("120 5") };
    assert_eq!(get_track_tags(&raw).duration, "120 5");
    let seconds: f64 = 120.5;
    let raw = RawTags { title: None, artist: None, album: None, duration: Some(seconds.to_string()) };
    assert_eq!(get_track_tags(&raw).duration, "120.5");
}

#[test]
fn track_without_title_keeps_other_fields() {
    let raw = RawTags {
        title: None,
        artist: text("Bee Gees"),
        album: text("Main Course"),
        duration: text("200"),
    };
    let tags = get_track_tags(&raw);
    assert_eq!(tags.title, "");
    assert_eq!(tags.artist, "Bee+Gees");
    assert_eq!(tags.album, "Main+Course");
    assert_eq!(tags.duration, "200");
}
