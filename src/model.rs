//! The player's data as the adapter sees it: playables, engine events and modes.
use vstd::prelude::*;

verus! {

/// A music track, as held by the play queue or returned by the catalog.
#[derive(Clone, Debug)]
pub struct Track {
    pub id: Option<String>,
    pub title: String,
    /// Length in milliseconds.
    pub duration: u32,
    pub cover_url: Option<String>,
    pub url: Option<String>,
    pub album: Option<String>,
    pub album_artists: Vec<String>,
    pub artists: Vec<String>,
    pub disc_number: u32,
    pub track_number: u32,
}

/// A podcast episode.
#[derive(Clone, Debug)]
pub struct Episode {
    pub id: Option<String>,
    pub name: String,
    /// Length in milliseconds.
    pub duration: u32,
    pub cover_url: Option<String>,
    pub url: Option<String>,
}

/// What the queue can hold.
#[derive(Clone, Debug)]
pub enum Playable {
    Track(Track),
    Episode(Episode),
}

/// The state that the playback engine last reported.
#[derive(Clone, Copy, Debug, PartialEq, Eq, Structural)]
pub enum PlayerEvent {
    Playing,
    Paused,
    Stopped,
    FinishedTrack,
}

/// Transport status as the control interface reports it.
#[derive(Clone, Copy, Debug, PartialEq, Eq, Structural)]
pub enum PlaybackStatus {
    Playing,
    Paused,
    Stopped,
}

/// The queue's repeat setting.
#[derive(Clone, Copy, Debug, PartialEq, Eq, Structural)]
pub enum LoopMode {
    Off,
    Track,
    Playlist,
}

impl Playable {
    pub open spec fn spec_id(&self) -> Option<String> {
        match self {
            Playable::Track(t) => t.id,
            Playable::Episode(e) => e.id,
        }
    }

    pub open spec fn spec_duration(&self) -> u32 {
        match self {
            Playable::Track(t) => t.duration,
            Playable::Episode(e) => e.duration,
        }
    }

    /// The kind word of the playable's canonical URI.
    pub open spec fn kind_word(&self) -> Seq<char> {
        match self {
            Playable::Track(_) => seq!['t', 'r', 'a', 'c', 'k'],
            Playable::Episode(_) => seq!['e', 'p', 'i', 's', 'o', 'd', 'e'],
        }
    }

    /// Length in milliseconds.
    pub fn duration(&self) -> (r: u32)
        ensures
            r == self.spec_duration(),
    {
        match self {
            Playable::Track(t) => t.duration,
            Playable::Episode(e) => e.duration,
        }
    }
}

} // verus!
