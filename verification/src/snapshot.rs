//! Snapshots of the host's media state and their wire format.

use crate::codec::{base64_standard, base64_standard_text, json_string, json_string_text};
use crate::text::{append_decimal, decimal_text};
use vstd::prelude::*;
use vstd::string::*;

verus! {

/// What a media session reports about its playback.
#[derive(Debug, Clone, Copy, PartialEq, Eq, Structural)]
pub enum PlaybackStatus {
    Closed,
    Opened,
    Changing,
    Stopped,
    Playing,
    Paused,
}

/// The properties of one media session, as the host hands them out.
#[derive(Debug, Clone, PartialEq, Eq)]
pub struct SessionDetails {
    pub title: String,
    pub subtitle: String,
    pub artist: String,
    pub album_title: String,
    pub start_time_ms: u128,
    pub end_time_ms: u128,
    pub position_ms: u128,
    pub status: PlaybackStatus,
    pub thumbnail: Option<Vec<u8>>,
}

/// The mathematical value of a [`SessionDetails`].
pub ghost struct SessionDetailsView {
    pub title: Seq<char>,
    pub subtitle: Seq<char>,
    pub artist: Seq<char>,
    pub album_title: Seq<char>,
    pub start_time_ms: nat,
    pub end_time_ms: nat,
    pub position_ms: nat,
    pub status: PlaybackStatus,
    pub thumbnail: Option<Seq<u8>>,
}

impl View for SessionDetails {
    type V = SessionDetailsView;

    open spec fn view(&self) -> SessionDetailsView {
        SessionDetailsView {
            title: self.title@,
            subtitle: self.subtitle@,
            artist: self.artist@,
            album_title: self.album_title@,
            start_time_ms: self.start_time_ms as nat,
            end_time_ms: self.end_time_ms as nat,
            position_ms: self.position_ms as nat,
            status: self.status,
            thumbnail: match self.thumbnail {
                Some(bytes) => Some(bytes@),
                None => None,
            },
        }
    }
}

impl SessionDetailsView {
    /// The playback position lies within the track.
    pub open spec fn timeline_in_order(self) -> bool {
        self.start_time_ms <= self.position_ms <= self.end_time_ms
    }
}

/// One capture of what is playing, or of the fact that nothing is.
#[derive(Debug, Clone, PartialEq, Eq)]
pub struct MusicInfo {
    pub song_name: String,
    pub song_subtitle: String,
    pub artist: String,
    pub album: String,
    pub start_time_ms: u128,
    pub end_time_ms: u128,
    pub position_ms: u128,
    pub playing: bool,
    /// Base64 text of the cover image; empty when there is none.
    pub album_artwork: String,
}

/// The mathematical value of a [`MusicInfo`].
pub ghost struct MusicInfoView {
    pub song_name: Seq<char>,
    pub song_subtitle: Seq<char>,
    pub artist: Seq<char>,
    pub album: Seq<char>,
    pub start_time_ms: nat,
    pub end_time_ms: nat,
    pub position_ms: nat,
    pub playing: bool,
    pub album_artwork: Seq<char>,
}

impl View for MusicInfo {
    type V = MusicInfoView;

    open spec fn view(&self) -> MusicInfoView {
        MusicInfoView {
            song_name: self.song_name@,
            song_subtitle: self.song_subtitle@,
            artist: self.artist@,
            album: self.album@,
            start_time_ms: self.start_time_ms as nat,
            end_time_ms: self.end_time_ms as nat,
            position_ms: self.position_ms as nat,
            playing: self.playing,
            album_artwork: self.album_artwork@,
        }
    }
}

/// The snapshot that stands for "no active session".
pub open spec fn empty_snapshot() -> MusicInfoView {
    MusicInfoView {
        song_name: "No media currently!"@,
        song_subtitle: Seq::empty(),
        artist: Seq::empty(),
        album: Seq::empty(),
        start_time_ms: 0,
        end_time_ms: 0,
        position_ms: 0,
        playing: false,
        album_artwork: Seq::empty(),
    }
}

/// The snapshot that a session with the given properties produces.
pub open spec fn snapshot_of(d: SessionDetailsView) -> MusicInfoView {
    MusicInfoView {
        song_name: d.title,
        song_subtitle: d.subtitle,
        artist: d.artist,
        album: d.album_title,
        start_time_ms: d.start_time_ms,
        end_time_ms: d.end_time_ms,
        position_ms: d.position_ms,
        playing: d.status == PlaybackStatus::Playing,
        album_artwork: match d.thumbnail {
            Some(bytes) => base64_standard_text(bytes),
            None => Seq::empty(),
        },
    }
}

/// The text of a JSON boolean.
pub open spec fn bool_text(b: bool) -> Seq<char> {
    if b {
        "true"@
    } else {
        "false"@
    }
}

/// The outbound frame with the given members: one JSON object, its members
/// in the order of the fields. The text members come as JSON string
/// literals.
pub open spec fn frame_of(
    song_name: Seq<char>,
    song_subtitle: Seq<char>,
    artist: Seq<char>,
    album: Seq<char>,
    start_time_ms: nat,
    end_time_ms: nat,
    position_ms: nat,
    playing: bool,
    album_artwork: Seq<char>,
) -> Seq<char> {
    "{\"song_name\":"@ + song_name + ",\"song_subtitle\":"@ + song_subtitle + ",\"artist\":"@
        + artist + ",\"album\":"@ + album + ",\"start_time_ms\":"@ + decimal_text(start_time_ms)
        + ",\"end_time_ms\":"@ + decimal_text(end_time_ms) + ",\"position_ms\":"@ + decimal_text(
        position_ms,
    ) + ",\"playing\":"@ + bool_text(playing) + ",\"album_artwork\":"@ + album_artwork + "}"@
}

/// The outbound frame of a snapshot.
pub open spec fn frame_text(m: MusicInfoView) -> Seq<char> {
    frame_of(
        json_string_text(m.song_name),
        json_string_text(m.song_subtitle),
        json_string_text(m.artist),
        json_string_text(m.album),
        m.start_time_ms,
        m.end_time_ms,
        m.position_ms,
        m.playing,
        json_string_text(m.album_artwork),
    )
}

/// Puts an outbound frame together from its members. The text members are
/// taken as they are, so they must already be JSON string literals.
pub fn assemble_frame(
    song_name: &str,
    song_subtitle: &str,
    artist: &str,
    album: &str,
    start_time_ms: u128,
    end_time_ms: u128,
    position_ms: u128,
    playing: bool,
    album_artwork: &str,
) -> (r: String)
    ensures
        r@ == frame_of(
            song_name@,
            song_subtitle@,
            artist@,
            album@,
            start_time_ms as nat,
            end_time_ms as nat,
            position_ms as nat,
            playing,
            album_artwork@,
        ),
{
    let mut out = String::from_str("{\"song_name\":");
    out.append(song_name);
    out.append(",\"song_subtitle\":");
    out.append(song_subtitle);
    out.append(",\"artist\":");
    out.append(artist);
    out.append(",\"album\":");
    out.append(album);
    out.append(",\"start_time_ms\":");
    append_decimal(&mut out, start_time_ms);
    out.append(",\"end_time_ms\":");
    append_decimal(&mut out, end_time_ms);
    out.append(",\"position_ms\":");
    append_decimal(&mut out, position_ms);
    out.append(",\"playing\":");
    out.append(if playing { "true" } else { "false" });
    out.append(",\"album_artwork\":");
    out.append(album_artwork);
    out.append("}");
    out
}

impl MusicInfoView {
    /// The playback position lies within the track.
    pub open spec fn well_formed(self) -> bool {
        self.start_time_ms <= self.position_ms <= self.end_time_ms
    }
}

impl MusicInfo {
    /// The snapshot sent while no media session is active.
    pub fn none() -> (r: MusicInfo)
        ensures
            r@ == empty_snapshot(),
            r@.well_formed(),
    {
        MusicInfo {
            song_name: String::from_str("No media currently!"),
            song_subtitle: String::new(),
            artist: String::new(),
            album: String::new(),
            start_time_ms: 0,
            end_time_ms: 0,
            position_ms: 0,
            playing: false,
            album_artwork: String::new(),
        }
    }

    /// The snapshot of a session with the given properties, with
    /// `album_artwork` as the text that stands for its cover image.
    pub fn with_artwork(details: SessionDetails, album_artwork: String) -> (r: MusicInfo)
        ensures
            r@ == (MusicInfoView { album_artwork: album_artwork@, ..snapshot_of(details@) }),
            details@.timeline_in_order() ==> r@.well_formed(),
    {
        let playing = match details.status {
            PlaybackStatus::Playing => true,
            _ => false,
        };
        MusicInfo {
            song_name: details.title,
            song_subtitle: details.subtitle,
            artist: details.artist,
            album: details.album_title,
            start_time_ms: details.start_time_ms,
            end_time_ms: details.end_time_ms,
            position_ms: details.position_ms,
            playing,
            album_artwork,
        }
    }

    /// The snapshot of a session with the given properties. The cover image,
    /// where there is one, is carried as base64 text.
    pub fn from_details(details: SessionDetails) -> (r: MusicInfo)
        ensures
            r@ == snapshot_of(details@),
            details@.timeline_in_order() ==> r@.well_formed(),
    {
        let album_artwork = match &details.thumbnail {
            Some(bytes) => base64_standard(bytes),
            None => String::new(),
        };
        MusicInfo::with_artwork(details, album_artwork)
    }

    /// The outbound frame for this snapshot.
    pub fn to_json(&self) -> (r: String)
        ensures
            r@ == frame_text(self@),
    {
        let song_name = json_string(self.song_name.as_str()).unwrap();
        let song_subtitle = json_string(self.song_subtitle.as_str()).unwrap();
        let artist = json_string(self.artist.as_str()).unwrap();
        let album = json_string(self.album.as_str()).unwrap();
        let album_artwork = json_string(self.album_artwork.as_str()).unwrap();
        assemble_frame(
            song_name.as_str(),
            song_subtitle.as_str(),
            artist.as_str(),
            album.as_str(),
            self.start_time_ms,
            self.end_time_ms,
            self.position_ms,
            self.playing,
            album_artwork.as_str(),
        )
    }
}

} // verus!
