use vstd::prelude::*;

use crate::text::{chars_of, join, join_all, string_of};

verus! {

/// Whether a player plays, is paused or is stopped.
#[derive(Clone, Copy, Debug, PartialEq, Eq, Structural)]
pub enum PlaybackState {
    Stopped,
    Playing,
    Paused,
}

impl Default for PlaybackState {
    fn default() -> (r: Self)
        ensures
            r == PlaybackState::Stopped,
    {
        PlaybackState::Stopped
    }
}

impl PlaybackState {
    /// Playing or paused: a session in this state can be shown.
    pub open spec fn active(self) -> bool {
        self is Playing || self is Paused
    }

    pub fn is_active(self) -> (r: bool)
        ensures
            r == self.active(),
    {
        match self {
            PlaybackState::Playing | PlaybackState::Paused => true,
            PlaybackState::Stopped => false,
        }
    }
}

/// What a player lets its controller do.
#[derive(Clone, Copy, Debug, Default, PartialEq, Eq, Structural)]
pub struct Capabilities {
    pub can_play: bool,
    pub can_pause: bool,
    pub can_next: bool,
    pub can_previous: bool,
    pub can_seek: bool,
}

/// The track a session plays. Durations are in nanoseconds.
#[derive(Debug, Default)]
pub struct MediaTrack {
    pub title: String,
    pub artists: Vec<String>,
    pub album: Option<String>,
    pub duration: Option<u128>,
    pub artwork_url: Option<String>,
    pub source_url: Option<String>,
}

/// A track as values.
pub ghost struct TrackView {
    pub title: Seq<char>,
    pub artists: Seq<Seq<char>>,
    pub album: Option<Seq<char>>,
    pub duration: Option<u128>,
    pub artwork_url: Option<Seq<char>>,
    pub source_url: Option<Seq<char>>,
}

impl View for MediaTrack {
    type V = TrackView;

    open spec fn view(&self) -> TrackView {
        TrackView {
            title: self.title@,
            artists: self.artists.deep_view(),
            album: self.album.deep_view(),
            duration: self.duration,
            artwork_url: self.artwork_url.deep_view(),
            source_url: self.source_url.deep_view(),
        }
    }
}

/// A copy of a string.
pub fn copy_string(s: &String) -> (r: String)
    ensures
        r@ == s@,
{
    s.clone()
}

/// A copy of an optional string.
pub fn copy_opt(s: &Option<String>) -> (r: Option<String>)
    ensures
        r.deep_view() == s.deep_view(),
{
    match s {
        Some(x) => Some(x.clone()),
        None => None,
    }
}

/// A copy of a list of strings.
pub fn copy_strings(v: &Vec<String>) -> (r: Vec<String>)
    ensures
        r.deep_view() == v.deep_view(),
{
    let mut r: Vec<String> = Vec::new();
    let mut k: usize = 0;
    while k < v.len()
        invariant
            k <= v@.len(),
            r@.len() == k,
            r.deep_view() == v.deep_view().take(k as int),
        decreases v.len() - k,
    {
        let c = copy_string(&v[k]);
        let ghost before = r@;
        assert(before.len() == k);
        r.push(c);
        assert(r@ == before.push(c));
        assert(r.deep_view() =~= v.deep_view().take(k + 1)) by {
            assert(r.deep_view().len() == k + 1);
            assert forall|m: int| 0 <= m < k + 1 implies r.deep_view()[m] == v.deep_view().take(
                k + 1,
            )[m] by {
                if m < k {
                    assert(r@[m] == before[m]);
                    assert(before[m].deep_view() == r.deep_view()[m]);
                } else {
                    assert(r@[m] == c);
                }
            }
        }
        k = k + 1;
    }
    assert(v.deep_view().take(v@.len() as int) =~= v.deep_view());
    r
}

impl Clone for MediaTrack {
    fn clone(&self) -> (r: Self)
        ensures
            r@ == self@,
    {
        MediaTrack {
            title: copy_string(&self.title),
            artists: copy_strings(&self.artists),
            album: copy_opt(&self.album),
            duration: self.duration,
            artwork_url: copy_opt(&self.artwork_url),
            source_url: copy_opt(&self.source_url),
        }
    }
}

impl TrackView {
    /// The artists joined by ", ", or nothing where there is no artist.
    pub open spec fn display_artist(self) -> Option<Seq<char>> {
        if self.artists.len() == 0 {
            None
        } else {
            Some(join(self.artists, ", "@))
        }
    }
}

impl MediaTrack {
    pub fn display_artist(&self) -> (r: Option<String>)
        ensures
            r.deep_view() == self@.display_artist(),
    {
        if self.artists.len() == 0 {
            None
        } else {
            let sep = chars_of(", ");
            let joined = join_all(&self.artists, sep.as_slice());
            proof {
                assert(self.artists@.map_values(|s: String| s@) =~= self.artists.deep_view());
            }
            Some(string_of(joined.as_slice()))
        }
    }
}

} // verus!

verus! {

/// The track's title holds nothing but white space.
pub fn is_blank_title(track: &MediaTrack) -> (r: bool)
    ensures
        r == crate::text::is_blank(track.title@),
{
    let t = chars_of(track.title.as_str());
    crate::text::blank(t.as_slice())
}

} // verus!
