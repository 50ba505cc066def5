//! Which files of a collection are tracks, and where the lyrics of a track
//! are written.

use vstd::prelude::*;
use crate::text::{ends_with, has_suffix, occurs_at, replace, replaced, replaced_from};

verus! {

/// The ending of a track's path.
pub open spec fn audio_extension() -> Seq<char> {
    ".flac"@
}

/// The ending that stands for it in the path of the lyrics.
pub open spec fn lyrics_extension() -> Seq<char> {
    ".lrc"@
}

/// Whether a path is that of a track.
pub open spec fn track_path(path: Seq<char>) -> bool {
    has_suffix(path, audio_extension())
}

/// What a walk met at one place: a file or a directory.
#[derive(Clone, Debug, PartialEq, Eq)]
pub struct Entry {
    /// The path of what was met, `None` where the path is no text.
    pub path: Option<String>,
    /// Whether it is a directory.
    pub directory: bool,
}

pub ghost struct EntryView {
    pub path: Option<Seq<char>>,
    pub directory: bool,
}

impl DeepView for Entry {
    type V = EntryView;

    open spec fn deep_view(&self) -> EntryView {
        EntryView { path: self.path.deep_view(), directory: self.directory }
    }
}

/// Whether a walked entry is a track: it is no directory, and its path ends
/// as a track's does. An entry whose path is no text is none.
pub open spec fn track_entry(entry: EntryView) -> bool {
    &&& !entry.directory
    &&& entry.path is Some
    &&& track_path(entry.path->0)
}

/// The paths of the tracks among the entries of a walk, in the order of the
/// walk.
pub open spec fn collected(entries: Seq<EntryView>) -> Seq<Seq<char>>
    decreases entries.len(),
{
    if entries.len() == 0 {
        Seq::empty()
    } else if track_entry(entries.last()) {
        collected(entries.drop_last()).push(entries.last().path->0)
    } else {
        collected(entries.drop_last())
    }
}

/// Where the lyrics of the track at `path` are written: the path with each
/// occurrence of the audio ending replaced.
pub open spec fn output_path_of(path: Seq<char>) -> Seq<char> {
    replaced(path, audio_extension(), lyrics_extension())
}

/// Whether `path` is that of a track.
pub fn is_track(path: &str) -> (yes: bool)
    ensures
        yes == track_path(path@),
{
    ends_with(path, ".flac")
}

/// The tracks among the entries of a walk: the files whose path ends as a
/// track's does. A directory is never a track, whatever its name. The tracks
/// come out in the order in which they were met.
pub fn collect_tracks(entries: &Vec<Entry>) -> (tracks: Vec<String>)
    ensures
        tracks.deep_view() == collected(entries.deep_view()),
{
    let mut tracks: Vec<String> = Vec::new();
    let mut i: usize = 0;
    while i < entries.len()
        invariant
            i <= entries.len(),
            tracks.deep_view() == collected(entries.deep_view().take(i as int)),
        decreases entries.len() - i,
    {
        let ghost seen = entries.deep_view().take(i as int);
        let ghost next = entries.deep_view().take(i + 1);
        assert(next.drop_last() == seen);
        let entry = &entries[i];
        assert(next.last() == entry.deep_view());
        if !entry.directory {
            match &entry.path {
                Some(path) => {
                    if is_track(path.as_str()) {
                        tracks.push(path.clone());
                    }
                },
                None => {},
            }
        }
        i += 1;
    }
    assert(entries.deep_view().take(entries.len() as int) == entries.deep_view());
    tracks
}

/// Where the lyrics of the track at `path` are written.
pub fn output_path(path: &str) -> (output: String)
    ensures
        output@ == output_path_of(path@),
{
    replace(path, ".flac", ".lrc")
}

/// A walk that met no track collects nothing.
pub proof fn law_no_track_collects_nothing(entries: Seq<EntryView>)
    requires
        forall|i: int| 0 <= i < entries.len() ==> !track_entry(#[trigger] entries[i]),
    ensures
        collected(entries) == Seq::<Seq<char>>::empty(),
    decreases entries.len(),
{
    if entries.len() > 0 {
        law_no_track_collects_nothing(entries.drop_last());
    }
}

/// The entry of a file with the path `path`.
pub open spec fn file_at(path: Seq<char>) -> EntryView {
    EntryView { path: Some(path), directory: false }
}

/// What is collected are tracks, each of them the path of a file that the
/// walk met, and no more of them than the walk has entries.
pub proof fn law_collected_are_tracks(entries: Seq<EntryView>)
    ensures
        collected(entries).len() <= entries.len(),
        forall|k: int|
            0 <= k < collected(entries).len() ==> track_path(#[trigger] collected(entries)[k])
                && entries.contains(file_at(collected(entries)[k])),
    decreases entries.len(),
{
    if entries.len() > 0 {
        let front = entries.drop_last();
        law_collected_are_tracks(front);
        assert forall|k: int| 0 <= k < collected(entries).len() implies track_path(
            #[trigger] collected(entries)[k],
        ) && entries.contains(file_at(collected(entries)[k])) by {
            if k < collected(front).len() {
                let i = choose|i: int| 0 <= i < front.len() && front[i] == file_at(collected(front)[k]);
                assert(entries[i] == front[i]);
            } else {
                assert(entries[entries.len() - 1] == entries.last());
            }
        }
    }
}

/// A directory is never collected, whatever its name: the tracks are the same
/// with and without it.
pub proof fn law_directory_is_no_track(entries: Seq<EntryView>, directory: EntryView)
    requires
        directory.directory,
    ensures
        collected(entries.push(directory)) == collected(entries),
{
    assert(entries.push(directory).drop_last() == entries);
}

/// Where the walk met no track's path twice, no track is collected twice.
pub proof fn law_no_track_twice(entries: Seq<EntryView>)
    requires
        forall|i: int, j: int|
            0 <= i < j < entries.len() && track_entry(entries[i]) && track_entry(entries[j])
                ==> entries[i].path != entries[j].path,
    ensures
        collected(entries).no_duplicates(),
    decreases entries.len(),
{
    if entries.len() > 0 {
        let front = entries.drop_last();
        let last = entries.last();
        law_no_track_twice(front);
        if track_entry(last) {
            law_collected_are_tracks(front);
            assert forall|k: int| 0 <= k < collected(front).len() implies collected(front)[k]
                != last.path->0 by {
                let i = choose|i: int| 0 <= i < front.len() && front[i] == file_at(collected(front)[k]);
                assert(entries[i] == front[i]);
                assert(track_entry(entries[i]));
                assert(entries[entries.len() - 1] == last);
            }
        }
    }
}

/// The ending stays an ending when text is put in front.
proof fn lemma_suffix_of_joined(front: Seq<char>, back: Seq<char>, suffix: Seq<char>)
    requires
        has_suffix(back, suffix),
    ensures
        has_suffix(front + back, suffix),
{
    let whole = front + back;
    assert(whole.subrange(whole.len() - suffix.len(), whole.len() as int) =~= back.subrange(
        back.len() - suffix.len(),
        back.len() as int,
    ));
}

/// From any place before its ending on, a track's path is replaced into a
/// text that ends as lyrics do.
proof fn lemma_replaced_ends_as_lyrics(path: Seq<char>, at: int)
    requires
        track_path(path),
        0 <= at <= path.len() - audio_extension().len(),
    ensures
        has_suffix(
            replaced_from(path, audio_extension(), lyrics_extension(), at),
            lyrics_extension(),
        ),
    decreases path.len() - at,
{
    reveal_strlit(".flac");
    reveal_strlit(".lrc");
    let from = audio_extension();
    let to = lyrics_extension();
    let last = path.len() - 5;
    assert(path.subrange(last, last + 5)[0] == '.');
    if occurs_at(path, from, at) {
        let rest = replaced_from(path, from, to, at + 5);
        if at == last {
            assert(to + rest == to);
            assert(to.subrange(0, 4) == to);
        } else {
            if at + 5 > last {
                let d = last - at;
                assert(path.subrange(at, at + 5)[d] == path[last]);
            }
            lemma_replaced_ends_as_lyrics(path, at + 5);
            lemma_suffix_of_joined(to, rest, to);
        }
    } else {
        lemma_replaced_ends_as_lyrics(path, at + 1);
        lemma_suffix_of_joined(seq![path[at]], replaced_from(path, from, to, at + 1), to);
    }
}

/// The lyrics of a track are written to a path that ends as lyrics do, and so
/// never to the track itself.
pub proof fn law_output_path_ends_as_lyrics(path: Seq<char>)
    requires
        track_path(path),
    ensures
        has_suffix(output_path_of(path), lyrics_extension()),
        output_path_of(path) != path,
{
    reveal_strlit(".flac");
    reveal_strlit(".lrc");
    lemma_replaced_ends_as_lyrics(path, 0);
    let output = output_path_of(path);
    assert(output.subrange(output.len() - 4, output.len() as int)[2] == 'r');
    assert(path.subrange(path.len() - 5, path.len() as int)[3] == 'a');
}

/// Where nothing is replaced before the place `until`, the text before it
/// stays as it is.
proof fn lemma_replaced_keeps_front(path: Seq<char>, at: int, until: int)
    requires
        0 <= at <= until <= path.len(),
        audio_extension().len() > 0,
        forall|i: int| at <= i < until ==> !occurs_at(path, audio_extension(), i),
    ensures
        replaced_from(path, audio_extension(), lyrics_extension(), at) == path.subrange(at, until)
            + replaced_from(path, audio_extension(), lyrics_extension(), until),
    decreases until - at,
{
    if at < until {
        lemma_replaced_keeps_front(path, at + 1, until);
    }
}

/// For a track whose path holds the audio ending at its end only, the lyrics
/// are written to the same path with the lyrics ending in its place.
pub proof fn law_output_path_swaps_ending(path: Seq<char>)
    requires
        track_path(path),
        forall|i: int|
            0 <= i < path.len() - audio_extension().len() ==> !occurs_at(
                path,
                audio_extension(),
                i,
            ),
    ensures
        output_path_of(path) == path.take(path.len() - audio_extension().len())
            + lyrics_extension(),
{
    reveal_strlit(".flac");
    let from = audio_extension();
    let to = lyrics_extension();
    let last = path.len() - 5;
    lemma_replaced_keeps_front(path, 0, last);
    assert(replaced_from(path, from, to, last + 5) == Seq::<char>::empty());
}

/// Whether `path` holds the audio ending at its end and nowhere before.
pub open spec fn plain_track_path(path: Seq<char>) -> bool {
    &&& track_path(path)
    &&& forall|i: int|
        0 <= i < path.len() - audio_extension().len() ==> !occurs_at(path, audio_extension(), i)
}

/// Two different tracks whose paths hold the audio ending at their end only
/// have their lyrics written to different paths.
pub proof fn law_plain_tracks_keep_apart(one: Seq<char>, other: Seq<char>)
    requires
        plain_track_path(one),
        plain_track_path(other),
        one != other,
    ensures
        output_path_of(one) != output_path_of(other),
{
    reveal_strlit(".flac");
    reveal_strlit(".lrc");
    law_output_path_swaps_ending(one);
    law_output_path_swaps_ending(other);
    if output_path_of(one) == output_path_of(other) {
        let last = one.len() - 5;
        let stem = one.take(last);
        let other_stem = other.take(other.len() - 5);
        assert((stem + lyrics_extension()).len() == stem.len() + 4);
        assert((other_stem + lyrics_extension()).len() == other_stem.len() + 4);
        assert forall|i: int| 0 <= i < one.len() implies one[i] == other[i] by {
            if i < last {
                assert((stem + lyrics_extension())[i] == (other_stem + lyrics_extension())[i]);
            } else {
                assert(one[i] == one.subrange(last, last + 5)[i - last]);
                assert(other[i] == other.subrange(last, last + 5)[i - last]);
            }
        }
        assert(one =~= other);
    }
}

} // verus!
