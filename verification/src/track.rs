use vstd::prelude::*;

verus! {

/// What is known of the track that a source is playing.
#[derive(Clone, Debug)]
pub struct TrackInfo {
    pub title: Option<String>,
    pub artist: Option<String>,
    pub album: Option<String>,
    pub duration_ms: Option<u64>,
}

/// The text of an optional string.
pub open spec fn opt_text(o: Option<String>) -> Option<Seq<char>> {
    match o {
        Some(s) => Some(s@),
        None => None,
    }
}

/// A track, as text.
pub struct TrackView {
    pub title: Option<Seq<char>>,
    pub artist: Option<Seq<char>>,
    pub album: Option<Seq<char>>,
    pub duration_ms: Option<u64>,
}

impl View for TrackInfo {
    type V = TrackView;

    open spec fn view(&self) -> TrackView {
        TrackView {
            title: opt_text(self.title),
            artist: opt_text(self.artist),
            album: opt_text(self.album),
            duration_ms: self.duration_ms,
        }
    }
}

/// The track of which nothing is known.
pub open spec fn unknown_track() -> TrackView {
    TrackView { title: None, artist: None, album: None, duration_ms: None }
}

pub open spec fn opt_track_view(t: Option<TrackInfo>) -> Option<TrackView> {
    match t {
        Some(t) => Some(t@),
        None => None,
    }
}

impl Default for TrackInfo {
    fn default() -> (r: Self)
        ensures
            r@ == unknown_track(),
    {
        TrackInfo { title: None, artist: None, album: None, duration_ms: None }
    }
}

/// The track that a media player reports from its tags: `None` where it
/// reports neither title, nor artist, nor album.
pub open spec fn spec_track_from_tags(
    title: Option<Seq<char>>,
    artist: Option<Seq<char>>,
    album: Option<Seq<char>>,
    duration_ms: Option<u32>,
) -> Option<TrackView> {
    if title is None && artist is None && album is None {
        None
    } else {
        Some(
            TrackView {
                title,
                artist,
                album,
                duration_ms: match duration_ms {
                    Some(ms) => Some(ms as u64),
                    None => None,
                },
            },
        )
    }
}

/// Builds the track that a media player reports from its tags.
pub fn track_from_tags(
    title: Option<String>,
    artist: Option<String>,
    album: Option<String>,
    duration_ms: Option<u32>,
) -> (r: Option<TrackInfo>)
    ensures
        opt_track_view(r) == spec_track_from_tags(
            opt_text(title),
            opt_text(artist),
            opt_text(album),
            duration_ms,
        ),
{
    if title.is_none() && artist.is_none() && album.is_none() {
        return None;
    }
    let duration_ms = match duration_ms {
        Some(ms) => Some(ms as u64),
        None => None,
    };
    Some(TrackInfo { title, artist, album, duration_ms })
}

fn same_text(a: &Option<String>, b: &Option<String>) -> (r: bool)
    ensures
        r == (opt_text(*a) == opt_text(*b)),
{
    match (a, b) {
        (Some(x), Some(y)) => x.eq(y),
        (None, None) => true,
        _ => false,
    }
}

/// Whether two reports describe the same track (or both no track).
pub fn same_track(a: &Option<TrackInfo>, b: &Option<TrackInfo>) -> (r: bool)
    ensures
        r == (opt_track_view(*a) == opt_track_view(*b)),
{
    match (a, b) {
        (Some(x), Some(y)) => {
            let r = same_text(&x.title, &y.title) && same_text(&x.artist, &y.artist) && same_text(
                &x.album,
                &y.album,
            ) && x.duration_ms == y.duration_ms;
            proof {
                if x@ == y@ {
                    assert(x@.title == y@.title);
                }
            }
            r
        },
        (None, None) => true,
        _ => false,
    }
}


/// A media player's track exists exactly when it reports a title, an
/// artist or an album, and then carries each tag as given, independent of
/// the others, with the duration widened to 64 bits.
pub proof fn law_track_carries_each_tag(
    title: Option<Seq<char>>,
    artist: Option<Seq<char>>,
    album: Option<Seq<char>>,
    duration_ms: Option<u32>,
)
    ensures
        spec_track_from_tags(title, artist, album, duration_ms) is Some <==> (title is Some || artist is Some
            || album is Some),
        spec_track_from_tags(title, artist, album, duration_ms) matches Some(t) ==> {
            &&& t.title == title
            &&& t.artist == artist
            &&& t.album == album
            &&& (t.duration_ms is Some <==> duration_ms is Some)
            &&& (duration_ms matches Some(d) ==> t.duration_ms == Some(d as u64))
        },
{
}

} // verus!
