//! Resolution of an inbound link or URI into a kind of content and its id.
use vstd::prelude::*;
use crate::text::{contains, has_infix, has_prefix, last_index_of, occurs_at, rfind_char, starts_with};

verus! {

/// The kinds of content that a URI can name.
#[derive(Clone, Copy, Debug, PartialEq, Eq, Structural)]
pub enum UriKind {
    Album,
    Artist,
    Track,
    Playlist,
    Show,
    Episode,
}

/// A URI resolved into the kind of its content and the content's id.
#[derive(Clone, Debug)]
pub struct ResolvedContent {
    pub kind: UriKind,
    pub id: String,
}

/// The capture groups, group 0 first, of the first match of the regular
/// expression `pattern` in `text`; `None` when the pattern does not compile or
/// does not match.
pub uninterp spec fn regex_captures_of(pattern: Seq<char>, text: Seq<char>) -> Option<Seq<Option<Seq<char>>>>;

/// The characters of an optional string.
pub open spec fn opt_view(o: Option<String>) -> Option<Seq<char>> {
    match o {
        Some(s) => Some(s@),
        None => None,
    }
}

/// The characters of each capture group.
pub open spec fn groups_view(g: Seq<Option<String>>) -> Seq<Option<Seq<char>>> {
    g.map_values(|o: Option<String>| opt_view(o))
}

/// Relies on `regex::Regex::new` to compile `pattern` and on
/// `regex::Regex::captures` for the groups of the first match in `text`, each
/// group's matched text copied out (or `None` where the group took no part).
#[verifier::external_body]
fn regex_captures(pattern: &str, text: &str) -> (r: Option<Vec<Option<String>>>)
    ensures
        match r {
            Some(g) => regex_captures_of(pattern@, text@) == Some(groups_view(g@)),
            None => regex_captures_of(pattern@, text@) is None,
        },
{
    let re = regex::Regex::new(pattern).ok()?;
    let caps = re.captures(text)?;
    Some(caps.iter().map(|m| m.map(|m| m.as_str().to_string())).collect())
}

/// The shape of a web share link: optional user path, kind, id, query.
pub open spec fn share_link_pattern() -> Seq<char> {
    r"https?://open\.spotify\.com(/user/\S+)?/(album|track|playlist|show|episode)/([^\s?]+)(\?\S*)?"@
}

/// The canonical URI `spotify:<kind>:<id>` built from the groups of a share
/// link's match, when the kind (group 2) and id (group 3) both matched.
pub open spec fn canonical_of_groups(g: Option<Seq<Option<Seq<char>>>>) -> Option<Seq<char>> {
    match g {
        Some(gs) => if gs.len() > 3 && gs[2] is Some && gs[3] is Some {
            Some("spotify:"@ + gs[2]->0 + ":"@ + gs[3]->0)
        } else {
            None
        },
        None => None,
    }
}

/// The canonical URI for an inbound string: a string naming the share-link
/// domain is rewritten from its match, any other is taken as it is.
pub open spec fn canonical_uri(raw: Seq<char>) -> Option<Seq<char>> {
    if has_infix(raw, "open.spotify.com"@) {
        canonical_of_groups(regex_captures_of(share_link_pattern(), raw))
    } else {
        Some(raw)
    }
}

/// The kind of content that a canonical URI names.
pub open spec fn kind_of_uri(u: Seq<char>) -> Option<UriKind> {
    if has_prefix(u, "spotify:album:"@) {
        Some(UriKind::Album)
    } else if has_prefix(u, "spotify:artist:"@) {
        Some(UriKind::Artist)
    } else if has_prefix(u, "spotify:track:"@) {
        Some(UriKind::Track)
    } else if has_prefix(u, "spotify:"@) && has_infix(u, ":playlist:"@) {
        Some(UriKind::Playlist)
    } else if has_prefix(u, "spotify:show:"@) {
        Some(UriKind::Show)
    } else if has_prefix(u, "spotify:episode:"@) {
        Some(UriKind::Episode)
    } else {
        None
    }
}

/// The id in a canonical URI: what follows its last colon.
pub open spec fn id_of_uri(u: Seq<char>) -> Seq<char> {
    match last_index_of(u, ':') {
        Some(i) => u.subrange(i + 1, u.len() as int),
        None => u,
    }
}

/// `r` is the resolution of the canonical URI `u`.
pub open spec fn resolves_canonical(r: Option<ResolvedContent>, u: Seq<char>) -> bool {
    match kind_of_uri(u) {
        Some(k) => r is Some && r->0.kind == k && r->0.id@ == id_of_uri(u),
        None => r is None,
    }
}

/// `r` is the resolution of the inbound string `raw`.
pub open spec fn resolves(r: Option<ResolvedContent>, raw: Seq<char>) -> bool {
    match canonical_uri(raw) {
        Some(u) => resolves_canonical(r, u),
        None => r is None,
    }
}

/// The canonical URI built from the capture groups of a share link's match.
pub fn canonical_from_groups(groups: Option<Vec<Option<String>>>) -> (r: Option<String>)
    ensures
        match groups {
            Some(g) => opt_view(r) == canonical_of_groups(Some(groups_view(g@))),
            None => r is None,
        },
{
    match groups {
        Some(g) => {
            if g.len() > 3 {
                match (&g[2], &g[3]) {
                    (Some(kind), Some(id)) => {
                        let mut u = String::from_str("spotify:");
                        u.append(kind.as_str());
                        u.append(":");
                        u.append(id.as_str());
                        Some(u)
                    },
                    _ => None,
                }
            } else {
                None
            }
        },
        None => None,
    }
}

/// The kind and id that a canonical `spotify:<kind>:<id>` URI names.
pub fn parse_canonical(u: &str) -> (r: Option<ResolvedContent>)
    ensures
        resolves_canonical(r, u@),
{
    let kind = if starts_with(u, "spotify:album:") {
        UriKind::Album
    } else if starts_with(u, "spotify:artist:") {
        UriKind::Artist
    } else if starts_with(u, "spotify:track:") {
        UriKind::Track
    } else if starts_with(u, "spotify:") && contains(u, ":playlist:") {
        UriKind::Playlist
    } else if starts_with(u, "spotify:show:") {
        UriKind::Show
    } else if starts_with(u, "spotify:episode:") {
        UriKind::Episode
    } else {
        return None;
    };
    let n = u.unicode_len();
    let id = match rfind_char(u, ':') {
        Some(i) => u.substring_char(i + 1, n),
        None => u,
    };
    Some(ResolvedContent { kind, id: String::from_str(id) })
}

/// Resolves an `OpenUri` argument, a share link or a canonical URI, into the
/// content it names; `None` for anything malformed.
pub fn resolve_uri(raw: &str) -> (r: Option<ResolvedContent>)
    ensures
        resolves(r, raw@),
{
    if contains(raw, "open.spotify.com") {
        let groups = regex_captures(
            r"https?://open\.spotify\.com(/user/\S+)?/(album|track|playlist|show|episode)/([^\s?]+)(\?\S*)?",
            raw,
        );
        match canonical_from_groups(groups) {
            Some(u) => parse_canonical(u.as_str()),
            None => None,
        }
    } else {
        parse_canonical(raw)
    }
}

/// The match of a playlist share link (kind group `playlist`, id group free of
/// colons) resolves to that playlist's id.
pub proof fn playlist_link_resolves(gs: Seq<Option<Seq<char>>>, id: Seq<char>, r: Option<ResolvedContent>)
    requires
        gs.len() > 3,
        gs[2] == Some("playlist"@),
        gs[3] == Some(id),
        forall|i: int| 0 <= i < id.len() ==> id[i] != ':',
        resolves_canonical(r, canonical_of_groups(Some(gs))->0),
    ensures
        r is Some,
        r->0.kind == UriKind::Playlist,
        r->0.id@ == id,
{
    reveal_strlit("spotify:");
    reveal_strlit("playlist");
    reveal_strlit(":");
    reveal_strlit("spotify:album:");
    reveal_strlit("spotify:artist:");
    reveal_strlit("spotify:track:");
    reveal_strlit(":playlist:");
    let u = "spotify:"@ + "playlist"@ + ":"@ + id;
    assert(canonical_of_groups(Some(gs)) == Some(u));
    assert(u.subrange(0, 14)[8] != "spotify:album:"@[8]);
    assert(u.subrange(0, 15)[8] != "spotify:artist:"@[8]);
    assert(u.subrange(0, 14)[8] != "spotify:track:"@[8]);
    assert(u.subrange(0, 8) =~= "spotify:"@);
    assert(u.subrange(7, 17) =~= ":playlist:"@);
    assert(occurs_at(u, ":playlist:"@, 7));
    assert(kind_of_uri(u) == Some(UriKind::Playlist));
    assert(u[16] == ':');
    assert forall|j: int| 16 < j < u.len() implies u[j] != ':' by {
        assert(u[j] == id[j - 17]);
    }
    let w = choose|w: int| 0 <= w < u.len() && u[w] == ':' && forall|j: int| w < j < u.len() ==> u[j] != ':';
    assert(0 <= w < u.len() && u[w] == ':' && forall|j: int| w < j < u.len() ==> u[j] != ':');
    if w < 16 {
        assert(u[16] != ':');
    } else if w > 16 {
        assert(u[w] == id[w - 17]);
    }
    assert(last_index_of(u, ':') == Some(16int));
    assert(u.subrange(17, u.len() as int) =~= id);
}

} // verus!
