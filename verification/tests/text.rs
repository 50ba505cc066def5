use rustlrc::text::{chars_of, ends_with, matches_at, push_decimal, replace, substitute, text_of};

#[test]
fn chars_and_text_round_trip() {
    let chars = chars_of("héllo wörld");
    assert_eq!(chars, "héllo wörld".chars().collect::<Vec<char>>());
    assert_eq!(text_of(&chars), "héllo wörld");
    assert_eq!(text_of(&chars_of("")), "");
}

#[test]
fn substitute_turns_each_space_into_plus() {
    assert_eq!(substitute("Bee Gees", ' ', '+'), "Bee+Gees");
    assert_eq!(substitute("  a  b ", ' ', '+'), "++a++b+");
    assert_eq!(substitute("", ' ', '+'), "");
    assert_eq!(substitute("none", ' ', '+'), "none");
    assert_eq!(substitute("a+b c", ' ', '+'), "a+b+c");
}

#[test]
fn substitute_agrees_with_std_on_one_character() {
    for s in ["", " ", "a b", "Stayin' Alive", "  ", "+ +", "ö ü"] {
        assert_eq!(substitute(s, ' ', '+'), s.replace(" ", "+"));
        assert_eq!(substitute(s, '+', ' '), s.replace("+", " "));
    }
}

#[test]
fn matches_at_finds_pattern_in_place() {
    let text = chars_of("a.flac");
    let pattern = chars_of(".flac");
    assert!(matches_at(&text, &pattern, 1));
    assert!(!matches_at(&text, &pattern, 0));
    assert!(!matches_at(&text, &pattern, 2));
    assert!(!matches_at(&text, &pattern, 6));
    assert!(!matches_at(&text, &pattern, usize::MAX));
    assert!(matches_at(&text, &Vec::new(), 6));
    assert!(!matches_at(&text, &Vec::new(), 7));
    assert!(!matches_at(&pattern, &text, 0));
}

#[test]
fn ends_with_tells_suffixes() {
    assert!(ends_with("a.flac", ".flac"));
    assert!(ends_with(".flac", ".flac"));
    assert!(!ends_with("flac", ".flac"));
    assert!(!ends_with("a.flac ", ".flac"));
    assert!(!ends_with("a.FLAC", ".flac"));
    assert!(!ends_with("", ".flac"));
    assert!(ends_with("", ""));
    assert!(ends_with("abc", ""));
}

#[test]
fn ends_with_agrees_with_std() {
    let texts = ["", "a", ".flac", "a.flac", "a.flac.lrc", "x.flacc", "é.flac", "flac."];
    let suffixes = ["", ".flac", "c", "a.flac", "é.flac"];
    for t in texts {
        for s in suffixes {
            assert_eq!(ends_with(t, s), t.ends_with(s), "{:?} {:?}", t, s);
        }
    }
}

#[test]
fn replace_swaps_every_occurrence() {
    assert_eq!(replace("a.flac", ".flac", ".lrc"), "a.lrc");
    assert_eq!(replace("/m.flac/a.flac", ".flac", ".lrc"), "/m.lrc/a.lrc");
    assert_eq!(replace("abc", ".flac", ".lrc"), "abc");
    assert_eq!(replace("", ".flac", ".lrc"), "");
    assert_eq!(replace(".fla", ".flac", ".lrc"), ".fla");
}

#[test]
fn replace_takes_occurrences_from_the_left_without_overlap() {
    assert_eq!(replace("aaa", "aa", "b"), "ba");
    assert_eq!(replace("aaaa", "aa", "b"), "bb");
    assert_eq!(replace("ababa", "aba", "x"), "xba");
}

#[test]
fn replace_with_empty_pattern_puts_fill_around_each_character() {
    assert_eq!(replace("abc", "", "-"), "-a-b-c-");
    assert_eq!(replace("", "", "-"), "-");
}

#[test]
fn replace_agrees_with_std() {
    let texts = ["", "a", "aaa", "abcabc", ".flac.flac", "a.flac", "x.fl.flac", "ééé", "a b c"];
    let patterns = ["", "a", "aa", "abc", ".flac", "é", " ", "bc"];
    let fills = ["", "+", ".lrc", "aa"];
    for t in texts {
        for p in patterns {
            for f in fills {
                assert_eq!(replace(t, p, f), t.replace(p, f), "{:?} {:?} {:?}", t, p, f);
            }
        }
    }
}

#[test]
fn push_decimal_writes_numbers_as_std_does() {
    for n in [0usize, 1, 9, 10, 11, 99, 100, 101, 120, 1000, 65535, 4294967295, usize::MAX] {
        let mut out = String::from("n=");
        push_decimal(&mut out, n);
        assert_eq!(out, format!("n={}", n));
    }
}

#[test]
fn push_decimal_exact_values() {
    let mut out = String::new();
    push_decimal(&mut out, 0);
    assert_eq!(out, "0");
    push_decimal(&mut out, 907);
    assert_eq!(out, "0907");
}
