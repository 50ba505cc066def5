//! The lyrics service: the address a lookup is sent to, which answers count,
//! and which of the lyrics in an answer are kept.

use vstd::prelude::*;
use vstd::string::StringExecFns;
use crate::tags::{TrackTags, TrackTagsView};

verus! {

/// A record of the lyrics service, as it answers a lookup. The duration is in
/// seconds, written in decimal.
#[derive(Clone, Debug, PartialEq, Eq)]
pub struct LyricsResponse {
    pub id: i32,
    pub name: String,
    pub track_name: String,
    pub artist_name: String,
    pub album_name: String,
    pub duration: String,
    pub instrumental: bool,
    pub plain_lyrics: Option<String>,
    pub synced_lyrics: Option<String>,
}

pub ghost struct LyricsResponseView {
    pub id: i32,
    pub name: Seq<char>,
    pub track_name: Seq<char>,
    pub artist_name: Seq<char>,
    pub album_name: Seq<char>,
    pub duration: Seq<char>,
    pub instrumental: bool,
    pub plain_lyrics: Option<Seq<char>>,
    pub synced_lyrics: Option<Seq<char>>,
}

impl View for LyricsResponse {
    type V = LyricsResponseView;

    open spec fn view(&self) -> LyricsResponseView {
        LyricsResponseView {
            id: self.id,
            name: self.name@,
            track_name: self.track_name@,
            artist_name: self.artist_name@,
            album_name: self.album_name@,
            duration: self.duration@,
            instrumental: self.instrumental,
            plain_lyrics: self.plain_lyrics.deep_view(),
            synced_lyrics: self.synced_lyrics.deep_view(),
        }
    }
}

/// The address of a lookup with the fields `tags`.
pub open spec fn query_url_of(tags: TrackTagsView) -> Seq<char> {
    "https://lrclib.net/api/get?artist_name="@ + tags.artist + "&track_name="@ + tags.title
        + "&album_name="@ + tags.album + "&duration="@ + tags.duration
}

/// Whether a status is one of success: 200 to 299.
pub open spec fn success(status: u16) -> bool {
    200 <= status < 300
}

/// The lyrics kept from a record: the synced ones where the record has them,
/// else the plain ones, else nothing. A field that is there and empty counts
/// as there.
pub open spec fn selected(response: LyricsResponseView) -> Seq<char> {
    match response.synced_lyrics {
        Some(synced) => synced,
        None => match response.plain_lyrics {
            Some(plain) => plain,
            None => Seq::empty(),
        },
    }
}

/// The address that a lookup of `tags` is sent to. The fields stand in it as
/// they are, empty ones too.
pub fn query_url(tags: &TrackTags) -> (url: String)
    ensures
        url@ == query_url_of(tags@),
{
    let mut url = String::from_str("https://lrclib.net/api/get?artist_name=");
    url.append(tags.artist.as_str());
    url.append("&track_name=");
    url.append(tags.title.as_str());
    url.append("&album_name=");
    url.append(tags.album.as_str());
    url.append("&duration=");
    url.append(tags.duration.as_str());
    url
}

/// Whether the service answered a lookup with a record.
pub fn is_success(status: u16) -> (ok: bool)
    ensures
        ok == success(status),
{
    200 <= status && status < 300
}

/// The lyrics kept from a record.
pub fn select_lyrics(response: LyricsResponse) -> (lyrics: String)
    ensures
        lyrics@ == selected(response@),
{
    match response.synced_lyrics {
        Some(synced) => synced,
        None => match response.plain_lyrics {
            Some(plain) => plain,
            None => String::new(),
        },
    }
}

} // verus!
