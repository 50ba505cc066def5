use rustlrc::tracks::{collect_tracks, is_track, output_path, Entry};

fn entry(s: &str) -> Entry {
    Entry { path: Some(s.to_string()), directory: false }
}

fn directory(s: &str) -> Entry {
    Entry { path: Some(s.to_string()), directory: true }
}

fn nameless(directory: bool) -> Entry {
    Entry { path: None, directory }
}

#[test]
fn tracks_end_with_the_audio_extension() {
    assert!(is_track("/music/a.flac"));
    assert!(is_track(".flac"));
    assert!(!is_track("/music/a.mp3"));
    assert!(!is_track("/music/a.flac.bak"));
    assert!(!is_track("/music/a.FLAC"));
    assert!(!is_track("/music/aflac"));
    assert!(!is_track(""));
}

#[test]
fn collect_keeps_tracks_in_walk_order() {
    let entries = vec![
        directory("/music"),
        entry("/music/b.flac"),
        entry("/music/cover.jpg"),
        nameless(false),
        entry("/music/a.flac"),
        entry("/music/a.lrc"),
        entry("/music/sub.flac"),
    ];
    assert_eq!(
        collect_tracks(&entries),
        vec!["/music/b.flac".to_string(), "/music/a.flac".to_string(), "/music/sub.flac".to_string()]
    );
}

#[test]
fn collect_of_no_audio_is_empty() {
    let entries =
        vec![directory("/music"), entry("/music/a.mp3"), nameless(false), entry("/music/notes.txt")];
    assert_eq!(collect_tracks(&entries), Vec::<String>::new());
    assert_eq!(collect_tracks(&Vec::new()), Vec::<String>::new());
}

#[test]
fn paths_that_are_no_text_are_dropped() {
    let entries = vec![nameless(false), nameless(true)];
    assert_eq!(collect_tracks(&entries), Vec::<String>::new());
}

#[test]
fn directory_named_like_a_track_is_no_track() {
    let entries =
        vec![directory("/music"), directory("/music/live.flac"), entry("/music/live.flac/x.flac")];
    assert_eq!(collect_tracks(&entries), vec!["/music/live.flac/x.flac".to_string()]);
    assert_eq!(collect_tracks(&vec![directory("/music/live.flac")]), Vec::<String>::new());
    assert_eq!(collect_tracks(&vec![directory(".flac"), directory("a.flac")]), Vec::<String>::new());
}

#[test]
fn a_path_met_twice_is_collected_twice() {
    let entries = vec![entry("/music/a.flac"), entry("/music/a.flac")];
    assert_eq!(
        collect_tracks(&entries),
        vec!["/music/a.flac".to_string(), "/music/a.flac".to_string()]
    );
}

#[test]
fn different_plain_tracks_have_different_outputs() {
    let tracks = ["/m/a.flac", "/m/b.flac", "/m/a b.flac", "/n/a.flac", ".flac"];
    for one in tracks {
        for other in tracks {
            if one != other {
                assert_ne!(output_path(one), output_path(other));
            }
        }
    }
    assert_eq!(output_path("x.flac.flac"), output_path("x.lrc.flac"));
}

#[test]
fn output_path_swaps_the_extension() {
    assert_eq!(output_path("/music/a.flac"), "/music/a.lrc");
    assert_eq!(output_path("a.flac"), "a.lrc");
    assert_eq!(output_path("/music/Bee Gees/01 - Stayin' Alive.flac"), "/music/Bee Gees/01 - Stayin' Alive.lrc");
}

#[test]
fn output_path_replaces_every_occurrence() {
    assert_eq!(output_path("/rips.flac/a.flac"), "/rips.lrc/a.lrc");
    assert_eq!(output_path("a.flac.flac"), "a.lrc.lrc");
}

#[test]
fn output_path_of_a_track_is_not_the_track() {
    for path in ["a.flac", ".flac", "/rips.flac/a.flac", "x.fl.flac", "/m/.flac.flac", "a.lrc.flac"] {
        assert!(is_track(path));
        let output = output_path(path);
        assert_ne!(output, path);
        assert!(output.ends_with(".lrc"), "{}", output);
        assert_eq!(output, path.replace(".flac", ".lrc"));
    }
}
