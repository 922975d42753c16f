//! The mapping of the player's state onto the control interface's values.
use vstd::prelude::*;
use crate::model::{LoopMode, Playable, PlaybackStatus, PlayerEvent, Track};
use crate::text::{
    check_path_element, colons_to_slashes, is_path_element, lemma_element_has_no_colon,
    lemma_extend_path, lemma_root_element, replace_colons, same_text, valid_object_path,
};

verus! {

/// The characters of an optional text, empty when absent.
pub open spec fn text_or_empty(o: Option<String>) -> Seq<char> {
    match o {
        Some(s) => s@,
        None => Seq::empty(),
    }
}

/// The status reported for an engine event; a finished track counts as playing.
pub open spec fn status_of(ev: PlayerEvent) -> PlaybackStatus {
    match ev {
        PlayerEvent::Playing | PlayerEvent::FinishedTrack => PlaybackStatus::Playing,
        PlayerEvent::Paused => PlaybackStatus::Paused,
        PlayerEvent::Stopped => PlaybackStatus::Stopped,
    }
}

/// The external token of a status.
pub open spec fn status_word(s: PlaybackStatus) -> Seq<char> {
    match s {
        PlaybackStatus::Playing => "Playing"@,
        PlaybackStatus::Paused => "Paused"@,
        PlaybackStatus::Stopped => "Stopped"@,
    }
}

/// The external token of a repeat setting.
pub open spec fn loop_word(m: LoopMode) -> Seq<char> {
    match m {
        LoopMode::Off => "None"@,
        LoopMode::Track => "Track"@,
        LoopMode::Playlist => "Playlist"@,
    }
}

/// The repeat setting that an inbound token asks for; unknown tokens mean none.
pub open spec fn loop_mode_of(t: Seq<char>) -> LoopMode {
    if t == "Track"@ {
        LoopMode::Track
    } else if t == "Playlist"@ {
        LoopMode::Playlist
    } else {
        LoopMode::Off
    }
}

/// Canonical URI of a playable that has an id: `spotify:<kind>:<id>`.
pub open spec fn uri_of(p: Playable) -> Seq<char> {
    "spotify:"@ + p.kind_word() + ":"@ + text_or_empty(p.spec_id())
}

/// The playable has an id that can stand as an element of an object path.
pub open spec fn has_path_id(x: Playable) -> bool {
    x.spec_id() is Some && is_path_element(x.spec_id()->0@)
}

/// The track-identifier path: the URI with colons turned into slashes under a
/// fixed prefix, or the prefix followed by `0` when there is no id, or when the
/// id is not one that an object path can hold.
pub open spec fn track_path(p: Option<Playable>) -> Seq<char> {
    match p {
        Some(x) => if has_path_id(x) {
            "/org/ncspot/"@ + colons_to_slashes(uri_of(x))
        } else {
            "/org/ncspot/"@ + "0"@
        },
        None => "/org/ncspot/"@ + "0"@,
    }
}

/// The status reported for an engine event.
pub fn playback_status(ev: PlayerEvent) -> (r: PlaybackStatus)
    ensures
        r == status_of(ev),
{
    match ev {
        PlayerEvent::Playing | PlayerEvent::FinishedTrack => PlaybackStatus::Playing,
        PlayerEvent::Paused => PlaybackStatus::Paused,
        PlayerEvent::Stopped => PlaybackStatus::Stopped,
    }
}

/// The external token of a status.
pub fn status_name(s: PlaybackStatus) -> (r: String)
    ensures
        r@ == status_word(s),
{
    match s {
        PlaybackStatus::Playing => String::from_str("Playing"),
        PlaybackStatus::Paused => String::from_str("Paused"),
        PlaybackStatus::Stopped => String::from_str("Stopped"),
    }
}

/// The `PlaybackStatus` property for an engine event.
pub fn get_playbackstatus(ev: PlayerEvent) -> (r: String)
    ensures
        r@ == status_word(status_of(ev)),
{
    status_name(playback_status(ev))
}

/// The `LoopStatus` property for a repeat setting.
pub fn loop_status(m: LoopMode) -> (r: String)
    ensures
        r@ == loop_word(m),
{
    match m {
        LoopMode::Off => String::from_str("None"),
        LoopMode::Track => String::from_str("Track"),
        LoopMode::Playlist => String::from_str("Playlist"),
    }
}

/// The repeat setting that a written `LoopStatus` token asks for.
pub fn parse_loop_status(t: &str) -> (r: LoopMode)
    ensures
        r == loop_mode_of(t@),
{
    if same_text(t, "Track") {
        LoopMode::Track
    } else if same_text(t, "Playlist") {
        LoopMode::Playlist
    } else {
        LoopMode::Off
    }
}

/// Writing a `LoopStatus` token and reading it back gives the token when it is
/// one of `None`, `Track` and `Playlist`, and `None` for any other token.
pub proof fn loop_status_round_trip(t: Seq<char>)
    ensures
        loop_word(loop_mode_of(t)) == (if t == "Track"@ || t == "Playlist"@ || t == "None"@ {
            t
        } else {
            "None"@
        }),
{
    reveal_strlit("Track");
    reveal_strlit("Playlist");
    reveal_strlit("None");
    assert("Track"@[0] != "None"@[0]);
    assert("Playlist"@[0] != "None"@[0]);
}

/// The `Position` property, in microseconds, for an elapsed position in
/// milliseconds; the largest `int64` where the product does not fit.
pub fn position_micros(progress_ms: u64) -> (r: i64)
    ensures
        r == (if progress_ms * 1000 <= i64::MAX {
            progress_ms * 1000
        } else {
            i64::MAX as int
        }),
{
    if progress_ms <= (i64::MAX as u64) / 1000 {
        (progress_ms * 1000) as i64
    } else {
        i64::MAX
    }
}

/// The track-identifier path of the current item.
pub fn track_id_path(p: &Option<Playable>) -> (r: String)
    ensures
        r@ == track_path(*p),
        valid_object_path(r@),
{
    proof {
        lemma_track_path_valid(*p);
    }
    let mut out = String::from_str("/org/ncspot/");
    match p {
        Some(x) => {
            let (kind, id) = match x {
                Playable::Track(t) => ("track", &t.id),
                Playable::Episode(e) => ("episode", &e.id),
            };
            match id {
                Some(id) if check_path_element(id.as_str()) => {
                    proof {
                        reveal_strlit("track");
                        reveal_strlit("episode");
                    }
                    let mut uri = String::from_str("spotify:");
                    uri.append(kind);
                    uri.append(":");
                    uri.append(id.as_str());
                    assert(uri@ == uri_of(*x));
                    let tail = replace_colons(uri.as_str());
                    out.append(tail.as_str());
                },
                _ => {
                    out.append("0");
                },
            }
        },
        None => {
            out.append("0");
        },
    }
    out
}

/// The `Metadata` property: one field per key of the schema, each present
/// whether or not the player knows its value.
pub struct Metadata {
    /// `mpris:trackid`
    pub track_id: String,
    /// `mpris:length`, in microseconds.
    pub length: i64,
    /// `mpris:artUrl`
    pub art_url: String,
    /// `xesam:album`
    pub album: String,
    /// `xesam:albumArtist`
    pub album_artists: Vec<String>,
    /// `xesam:artist`
    pub artists: Vec<String>,
    /// `xesam:discNumber`
    pub disc_number: i32,
    /// `xesam:title`
    pub title: String,
    /// `xesam:trackNumber`
    pub track_number: i32,
    /// `xesam:url`
    pub url: String,
    /// `xesam:userRating` is 1.0 when set, 0.0 when not.
    pub saved: bool,
}

/// The track of a playable, if it is one.
pub open spec fn track_of(p: Option<Playable>) -> Option<Track> {
    match p {
        Some(Playable::Track(t)) => Some(t),
        _ => None,
    }
}

/// Whether the metadata for `p` must first fetch the full track record: it is a
/// track without a cover-art URL.
pub open spec fn needs_full_track(p: Option<Playable>) -> bool {
    match track_of(p) {
        Some(t) => t.cover_url is None,
        None => false,
    }
}

/// The playable that the metadata describes once a fetched full record, if any,
/// has taken the place of a cover-less track.
pub open spec fn completed(p: Option<Playable>, full: Option<Track>) -> Option<Playable> {
    if needs_full_track(p) && full is Some {
        Some(Playable::Track(full->0))
    } else {
        p
    }
}

/// `m` describes the playable `p`, `saved` being whether it is a saved track;
/// every key that `p` gives no value for holds its default (empty, zero, false).
pub open spec fn describes(m: Metadata, p: Option<Playable>, saved: bool) -> bool {
    &&& m.track_id@ == track_path(p)
    &&& m.length == (match p {
        Some(x) => x.spec_duration() as int * 1000,
        None => 0,
    })
    &&& m.art_url@ == (match p {
        Some(Playable::Track(t)) => text_or_empty(t.cover_url),
        Some(Playable::Episode(e)) => text_or_empty(e.cover_url),
        None => Seq::empty(),
    })
    &&& m.url@ == (match p {
        Some(Playable::Track(t)) => text_or_empty(t.url),
        Some(Playable::Episode(e)) => text_or_empty(e.url),
        None => Seq::empty(),
    })
    &&& m.title@ == (match p {
        Some(Playable::Track(t)) => t.title@,
        Some(Playable::Episode(e)) => e.name@,
        None => Seq::empty(),
    })
    &&& m.album@ == (match track_of(p) {
        Some(t) => text_or_empty(t.album),
        None => Seq::empty(),
    })
    &&& m.album_artists@ == (match track_of(p) {
        Some(t) => t.album_artists@,
        None => Seq::empty(),
    })
    &&& m.artists@ == (match track_of(p) {
        Some(t) => t.artists@,
        None => Seq::empty(),
    })
    &&& m.disc_number == (match track_of(p) {
        Some(t) => int32_of(t.disc_number),
        None => 0,
    })
    &&& m.track_number == (match track_of(p) {
        Some(t) => int32_of(t.track_number),
        None => 0,
    })
    &&& m.disc_number >= 0
    &&& m.track_number >= 0
    &&& m.saved == (track_of(p) is Some && saved)
}

/// A disc or track number as the schema's `int32`: the number itself, or the
/// largest `int32` where it does not fit.
pub open spec fn int32_of(n: u32) -> int {
    if n <= i32::MAX {
        n as int
    } else {
        i32::MAX as int
    }
}

fn to_int32(n: u32) -> (r: i32)
    ensures
        r == int32_of(n),
{
    if n <= i32::MAX as u32 {
        n as i32
    } else {
        i32::MAX
    }
}

fn text_or_default(o: Option<String>) -> (r: String)
    ensures
        r@ == text_or_empty(o),
{
    match o {
        Some(s) => s,
        None => String::new(),
    }
}

/// The id under which the full record of the current track must be fetched
/// before its metadata is built (an absent id is asked for as the empty id),
/// or `None` when no fetch is needed.
pub fn full_track_lookup(p: &Option<Playable>) -> (r: Option<String>)
    ensures
        r is Some <==> needs_full_track(*p),
        r matches Some(id) ==> id@ == text_or_empty(track_of(*p)->0.id),
{
    match p {
        Some(Playable::Track(t)) => {
            if t.cover_url.is_none() {
                match &t.id {
                    Some(id) => Some(id.clone()),
                    None => Some(String::new()),
                }
            } else {
                None
            }
        },
        _ => None,
    }
}

/// The playable to describe: the fetched full record where one was needed and
/// came back, else the current item unchanged.
pub fn complete_playable(p: Option<Playable>, full: Option<Track>) -> (r: Option<Playable>)
    ensures
        r == completed(p, full),
{
    let needs = match &p {
        Some(Playable::Track(t)) => t.cover_url.is_none(),
        _ => false,
    };
    if needs {
        match full {
            Some(t) => Some(Playable::Track(t)),
            None => p,
        }
    } else {
        p
    }
}

/// The `Metadata` property for the current item; `saved` tells whether it is a
/// saved track, and is ignored for anything else.
pub fn metadata(p: Option<Playable>, saved: bool) -> (r: Metadata)
    ensures
        describes(r, p, saved),
{
    let track_id = track_id_path(&p);
    match p {
        Some(Playable::Track(t)) => Metadata {
            track_id,
            length: t.duration as i64 * 1000,
            art_url: text_or_default(t.cover_url),
            album: text_or_default(t.album),
            album_artists: t.album_artists,
            artists: t.artists,
            disc_number: to_int32(t.disc_number),
            title: t.title,
            track_number: to_int32(t.track_number),
            url: text_or_default(t.url),
            saved,
        },
        Some(Playable::Episode(e)) => Metadata {
            track_id,
            length: e.duration as i64 * 1000,
            art_url: text_or_default(e.cover_url),
            album: String::new(),
            album_artists: Vec::new(),
            artists: Vec::new(),
            disc_number: 0,
            title: e.name,
            track_number: 0,
            url: text_or_default(e.url),
            saved: false,
        },
        None => Metadata {
            track_id,
            length: 0,
            art_url: String::new(),
            album: String::new(),
            album_artists: Vec::new(),
            artists: Vec::new(),
            disc_number: 0,
            title: String::new(),
            track_number: 0,
            url: String::new(),
            saved: false,
        },
    }
}

/// A missing current item yields every key with its default value: the
/// sentinel track path, zero length and numbers, empty texts and lists.
pub proof fn metadata_defaults_when_absent(m: Metadata, saved: bool)
    requires
        describes(m, None, saved),
    ensures
        m.track_id@ == "/org/ncspot/"@ + "0"@,
        m.length == 0,
        m.art_url@.len() == 0,
        m.album@.len() == 0,
        m.album_artists@.len() == 0,
        m.artists@.len() == 0,
        m.disc_number == 0,
        m.title@.len() == 0,
        m.track_number == 0,
        m.url@.len() == 0,
        !m.saved,
{
}

/// The track-identifier path of an item whose id is an object-path element is
/// the prefix followed by `spotify/<kind>/<id>`, its URI with colons turned into
/// slashes; an item with no such id, or no item, gives the prefix followed by `0`.
pub proof fn track_path_shape(p: Option<Playable>)
    ensures
        p is Some && has_path_id(p->0) ==> track_path(p) == "/org/ncspot/"@ + "spotify/"@
            + p->0.kind_word() + "/"@ + p->0.spec_id()->0@,
        (p is None || !has_path_id(p->0)) ==> track_path(p) == "/org/ncspot/"@ + "0"@,
{
    if p is Some && has_path_id(p->0) {
        let x = p->0;
        reveal_strlit("spotify:");
        reveal_strlit("spotify/");
        reveal_strlit(":");
        reveal_strlit("/");
        let a = "spotify:"@ + x.kind_word();
        let u = a + ":"@ + x.spec_id()->0@;
        assert(colons_to_slashes(u) =~= colons_to_slashes(a) + colons_to_slashes(":"@) + colons_to_slashes(x.spec_id()->0@));
        assert(colons_to_slashes(a) =~= "spotify/"@ + x.kind_word());
        assert(colons_to_slashes(":"@) =~= "/"@);
        lemma_element_has_no_colon(x.spec_id()->0@);
    }
}

/// Every track-identifier path is a valid object path.
pub proof fn lemma_track_path_valid(p: Option<Playable>)
    ensures
        valid_object_path(track_path(p)),
{
    track_path_shape(p);
    reveal_strlit("/org/ncspot/");
    reveal_strlit("spotify/");
    reveal_strlit("/");
    reveal_strlit("0");
    let org = seq!['o', 'r', 'g'];
    let ncspot = seq!['n', 'c', 's', 'p', 'o', 't'];
    assert(is_path_element(org));
    assert(is_path_element(ncspot));
    lemma_root_element(org);
    let base = seq!['/'] + org + seq!['/'] + ncspot;
    lemma_extend_path(seq!['/'] + org, ncspot);
    if p is Some && has_path_id(p->0) {
        let x = p->0;
        let sp = seq!['s', 'p', 'o', 't', 'i', 'f', 'y'];
        assert(is_path_element(sp));
        assert(is_path_element(x.kind_word()));
        lemma_extend_path(base, sp);
        lemma_extend_path(base + seq!['/'] + sp, x.kind_word());
        lemma_extend_path(base + seq!['/'] + sp + seq!['/'] + x.kind_word(), x.spec_id()->0@);
        assert(track_path(p) =~= base + seq!['/'] + sp + seq!['/'] + x.kind_word() + seq!['/'] + x.spec_id()->0@);
    } else {
        let zero = seq!['0'];
        assert(is_path_element(zero));
        lemma_extend_path(base, zero);
        assert(track_path(p) =~= base + seq!['/'] + zero);
    }
}

} // verus!
