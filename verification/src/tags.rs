//! The tags of a track: what a file's tag block holds, and the four fields
//! that a lyrics lookup is made with.

use vstd::prelude::*;
use crate::text::{substitute, substituted};

verus! {

/// What was read from a file's tag block. A field that the file does not
/// carry is `None`. The duration is in seconds, written in decimal.
#[derive(Clone, Debug, PartialEq, Eq)]
pub struct RawTags {
    pub title: Option<String>,
    pub artist: Option<String>,
    pub album: Option<String>,
    pub duration: Option<String>,
}

pub ghost struct RawTagsView {
    pub title: Option<Seq<char>>,
    pub artist: Option<Seq<char>>,
    pub album: Option<Seq<char>>,
    pub duration: Option<Seq<char>>,
}

impl View for RawTags {
    type V = RawTagsView;

    open spec fn view(&self) -> RawTagsView {
        RawTagsView {
            title: self.title.deep_view(),
            artist: self.artist.deep_view(),
            album: self.album.deep_view(),
            duration: self.duration.deep_view(),
        }
    }
}

/// The fields of a track as they stand in a lookup: the three names with `+`
/// for each space, the duration as it was read, and an empty text for a field
/// that the file does not carry.
#[derive(Clone, Debug, PartialEq, Eq)]
pub struct TrackTags {
    pub artist: String,
    pub title: String,
    pub album: String,
    pub duration: String,
}

pub ghost struct TrackTagsView {
    pub artist: Seq<char>,
    pub title: Seq<char>,
    pub album: Seq<char>,
    pub duration: Seq<char>,
}

impl View for TrackTags {
    type V = TrackTagsView;

    open spec fn view(&self) -> TrackTagsView {
        TrackTagsView {
            artist: self.artist@,
            title: self.title@,
            album: self.album@,
            duration: self.duration@,
        }
    }
}

/// A name as it stands in a lookup: `+` for each space.
pub open spec fn encoded(name: Seq<char>) -> Seq<char> {
    substituted(name, ' ', '+')
}

/// An encoded name as it is shown: a space for each `+`.
pub open spec fn decoded(name: Seq<char>) -> Seq<char> {
    substituted(name, '+', ' ')
}

/// A name field of a lookup: the encoded name, or nothing where there is none.
pub open spec fn name_field(name: Option<Seq<char>>) -> Seq<char> {
    match name {
        Some(n) => encoded(n),
        None => Seq::empty(),
    }
}

/// The duration field of a lookup: the duration as read, or nothing.
pub open spec fn duration_field(duration: Option<Seq<char>>) -> Seq<char> {
    match duration {
        Some(d) => d,
        None => Seq::empty(),
    }
}

/// The lookup fields that `raw` gives.
pub open spec fn track_tags(raw: RawTagsView) -> TrackTagsView {
    TrackTagsView {
        artist: name_field(raw.artist),
        title: name_field(raw.title),
        album: name_field(raw.album),
        duration: duration_field(raw.duration),
    }
}

/// Encodes one name field.
pub fn encode_name(name: &Option<String>) -> (field: String)
    ensures
        field@ == name_field(name.deep_view()),
{
    match name {
        Some(n) => substitute(n.as_str(), ' ', '+'),
        None => String::new(),
    }
}

/// Shows an encoded name with its spaces.
pub fn decode_name(name: &str) -> (shown: String)
    ensures
        shown@ == decoded(name@),
{
    substitute(name, '+', ' ')
}

/// The lookup fields of a track, from what its tag block holds.
pub fn get_track_tags(raw: &RawTags) -> (tags: TrackTags)
    ensures
        tags@ == track_tags(raw@),
{
    let duration = match &raw.duration {
        Some(d) => d.clone(),
        None => String::new(),
    };
    TrackTags {
        artist: encode_name(&raw.artist),
        title: encode_name(&raw.title),
        album: encode_name(&raw.album),
        duration,
    }
}

/// Decoding undoes encoding for a name without `+`; with one, the `+` comes
/// back as a space.
pub proof fn law_decoding_shows_the_name(name: Seq<char>)
    ensures
        decoded(encoded(name)) == substituted(name, '+', ' '),
        !name.contains('+') ==> decoded(encoded(name)) == name,
{
    if !name.contains('+') {
        assert forall|i: int| 0 <= i < name.len() implies name[i] != '+' by {
            assert(name[i] == '+' ==> name.contains('+'));
        }
    }
}

} // verus!
