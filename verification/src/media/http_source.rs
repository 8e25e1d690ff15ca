use vstd::prelude::*;

use crate::media::session::{MediaSession, SessionView, SourceUpdate, UpdateView};
use crate::media::timeline::{Timeline, RATE_ONE_BITS};
use crate::media::track::{
    Capabilities, MediaTrack, PlaybackState, TrackView,
};
use crate::text::{
    blank, chars_of, concat, decimal, decimal_of, is_blank, owned, starts_with, string_of,
    strip_all_prefixes,
    trim_start_matches,
};
use crate::web::{parse_url, parsed_url, UrlParts, UrlPartsView};

verus! {

/// What the browser extension posts about a tab's media. Durations are in
/// nanoseconds (the extension sends seconds as floats; they are converted
/// where the request is received).
#[derive(Debug)]
pub struct ExtensionPayload {
    pub source_hint: Option<String>,
    pub title: String,
    pub artist: Option<String>,
    pub artwork: Option<String>,
    pub url: Option<String>,
    pub duration: Option<u128>,
    pub position: Option<u128>,
    pub state: Option<PlaybackState>,
    pub tab_id: Option<i64>,
}

/// A payload as values.
pub ghost struct PayloadView {
    pub source_hint: Option<Seq<char>>,
    pub title: Seq<char>,
    pub artist: Option<Seq<char>>,
    pub artwork: Option<Seq<char>>,
    pub url: Option<Seq<char>>,
    pub duration: Option<u128>,
    pub position: Option<u128>,
    pub state: Option<PlaybackState>,
    pub tab_id: Option<i64>,
}

impl View for ExtensionPayload {
    type V = PayloadView;

    open spec fn view(&self) -> PayloadView {
        PayloadView {
            source_hint: self.source_hint.deep_view(),
            title: self.title@,
            artist: self.artist.deep_view(),
            artwork: self.artwork.deep_view(),
            url: self.url.deep_view(),
            duration: self.duration,
            position: self.position,
            state: self.state,
            tab_id: self.tab_id,
        }
    }
}

/// The source that listens for the browser extension on a local port.
#[derive(Clone, Copy, Debug, PartialEq, Eq, Structural)]
pub struct HttpSource {
    port: u16,
}

impl HttpSource {
    pub closed spec fn spec_port(self) -> u16 {
        self.port
    }

    pub fn new(port: u16) -> (r: Self)
        ensures
            r.spec_port() == port,
    {
        HttpSource { port }
    }

    /// The port it listens on.
    pub fn port(&self) -> (r: u16)
        ensures
            r == self.spec_port(),
    {
        self.port
    }
}

/// The name shown for a page: its host without leading "www."; "Browser
/// Extension" where there is no URL, it does not parse, or has no host.
pub open spec fn host_label(parts: Option<UrlPartsView>) -> Seq<char> {
    match parts {
        Some(p) => match p.host {
            Some(h) => trim_start_matches(h, "www."@),
            None => "Browser Extension"@,
        },
        None => "Browser Extension"@,
    }
}

/// The name shown for a page with the given URL.
pub open spec fn friendly_name(url: Option<Seq<char>>) -> Seq<char> {
    match url {
        Some(u) => host_label(parsed_url(u)),
        None => "Browser Extension"@,
    }
}

/// The name shown for a page whose URL parsed into `parts` (nothing where
/// it did not parse).
pub fn friendly_name_from(parts: Option<&UrlParts>) -> (r: String)
    ensures
        r@ == host_label(
            match parts {
                Some(p) => Some(p@),
                None => None,
            },
        ),
{
    match parts {
        Some(p) => match &p.host {
            Some(h) => {
                let www = chars_of("www.");
                proof {
                    reveal_strlit("www.");
                }
                let stripped = strip_all_prefixes(chars_of(h.as_str()).as_slice(), www.as_slice());
                string_of(stripped.as_slice())
            },
            None => owned("Browser Extension"),
        },
        None => owned("Browser Extension"),
    }
}

/// The name shown for a page with the given URL.
pub fn extract_friendly_name(url: Option<&str>) -> (r: String)
    ensures
        r@ == friendly_name(
            match url {
                Some(u) => Some(u@),
                None => None,
            },
        ),
{
    match url {
        Some(u) => {
            let parts = parse_url(u);
            match &parts {
                Some(p) => friendly_name_from(Some(p)),
                None => friendly_name_from(None),
            }
        },
        None => owned("Browser Extension"),
    }
}

/// The session id of an extension tab: "extension:" with the source hint,
/// else "extension:tab:" with the tab id, else "extension:browser".
pub open spec fn extension_session_id(hint: Option<Seq<char>>, tab: Option<i64>) -> Seq<char> {
    match hint {
        Some(h) => "extension:"@ + h,
        None => match tab {
            Some(id) => "extension:tab:"@ + decimal(id as int),
            None => "extension:browser"@,
        },
    }
}

/// The update a payload asks for: the tab's session goes away when it is
/// stopped or has a blank title (a missing state counts as playing);
/// otherwise the session is stored with every control allowed, a rate of
/// one, and `now` as its observation and interaction time.
pub open spec fn payload_update(p: PayloadView, now: u128) -> UpdateView {
    let id = extension_session_id(p.source_hint, p.tab_id);
    let state = match p.state {
        Some(s) => s,
        None => PlaybackState::Playing,
    };
    if state == PlaybackState::Stopped || is_blank(p.title) {
        UpdateView::Remove(id)
    } else {
        UpdateView::Upsert(
            SessionView {
                id,
                source_name: friendly_name(p.url),
                track: TrackView {
                    title: p.title,
                    artists: match p.artist {
                        Some(a) => seq![a],
                        None => Seq::empty(),
                    },
                    album: None,
                    duration: p.duration,
                    artwork_url: p.artwork,
                    source_url: p.url,
                },
                state,
                timeline: Timeline {
                    position: match p.position {
                        Some(x) => x,
                        None => 0,
                    },
                    duration: p.duration,
                    rate_bits: RATE_ONE_BITS,
                    updated_at: now,
                    is_playing: state == PlaybackState::Playing,
                },
                capabilities: Capabilities {
                    can_play: true,
                    can_pause: true,
                    can_next: true,
                    can_previous: true,
                    can_seek: true,
                },
                last_interaction: now,
            },
        )
    }
}

fn session_id(hint: &Option<String>, tab: Option<i64>) -> (r: String)
    ensures
        r@ == extension_session_id(hint.deep_view(), tab),
{
    match hint {
        Some(h) => {
            let v = concat(chars_of("extension:").as_slice(), chars_of(h.as_str()).as_slice());
            string_of(v.as_slice())
        },
        None => match tab {
            Some(id) => {
                let v = concat(chars_of("extension:tab:").as_slice(), decimal_of(id).as_slice());
                string_of(v.as_slice())
            },
            None => owned("extension:browser"),
        },
    }
}

/// The update for a payload posted at `now` (the request handler's logic).
pub fn update_from_payload(payload: ExtensionPayload, now: u128) -> (r: SourceUpdate)
    ensures
        r@ == payload_update(payload@, now),
        r matches SourceUpdate::Upsert(s) ==> s.timeline.position == (match payload.position {
            Some(x) => x,
            None => 0,
        }) && s.timeline.updated_at == now && s.track.duration == payload.duration,
{
    let id = session_id(&payload.source_hint, payload.tab_id);
    let state = match payload.state {
        Some(s) => s,
        None => PlaybackState::Playing,
    };
    if state == PlaybackState::Stopped || blank(chars_of(payload.title.as_str()).as_slice()) {
        return SourceUpdate::Remove(id);
    }
    let source_name = match &payload.url {
        Some(u) => extract_friendly_name(Some(u.as_str())),
        None => extract_friendly_name(None),
    };
    let is_playing = state == PlaybackState::Playing;
    let mut artists: Vec<String> = Vec::new();
    match payload.artist {
        Some(a) => {
            artists.push(a);
        },
        None => {},
    }
    let position = match payload.position {
        Some(x) => x,
        None => 0,
    };
    let track = MediaTrack {
        title: payload.title,
        artists,
        album: None,
        duration: payload.duration,
        artwork_url: payload.artwork,
        source_url: payload.url,
    };
    proof {
        assert(track.artists.deep_view() =~= (match payload@.artist {
            Some(a) => seq![a],
            None => Seq::<Seq<char>>::empty(),
        }));
    }
    SourceUpdate::Upsert(
        MediaSession {
            id,
            source_name,
            track,
            state,
            timeline: Timeline::new(position, payload.duration, RATE_ONE_BITS, is_playing, now),
            capabilities: Capabilities {
                can_play: true,
                can_pause: true,
                can_next: true,
                can_previous: true,
                can_seek: true,
            },
            last_interaction: now,
        },
    )
}


/// Every session id the extension source uses starts with "extension:".
pub proof fn law_extension_ids(hint: Option<Seq<char>>, tab: Option<i64>)
    ensures
        starts_with(extension_session_id(hint, tab), "extension:"@),
{
    reveal_strlit("extension:");
    reveal_strlit("extension:tab:");
    reveal_strlit("extension:browser");
    let id = extension_session_id(hint, tab);
    match hint {
        Some(h) => {
            assert(id.take(10) =~= "extension:"@);
        },
        None => match tab {
            Some(t) => {
                assert(id.take(10) =~= "extension:"@);
            },
            None => {
                assert(id.take(10) =~= "extension:"@);
            },
        },
    }
}

/// The session an accepted payload stores is an extension session, and
/// the session a refused one removes is too.
pub proof fn law_payload_ids(p: PayloadView, now: u128)
    ensures
        match payload_update(p, now) {
            UpdateView::Upsert(s) => starts_with(s.id, "extension:"@),
            UpdateView::Remove(id) => starts_with(id, "extension:"@),
        },
{
    law_extension_ids(p.source_hint, p.tab_id);
}

/// A stored tab session carries on from where the tab reported it was:
/// its clock starts at the payload's position (at zero only where none was
/// given), observed at the time of the post, with the payload's title and
/// length, so the presence shows the tab's real progress.
pub proof fn law_payload_keeps_progress(p: PayloadView, now: u128)
    ensures
        payload_update(p, now) matches UpdateView::Upsert(s) ==> {
            &&& p.position matches Some(x) ==> s.timeline.position == x
            &&& p.position is None ==> s.timeline.position == 0
            &&& s.timeline.updated_at == now
            &&& s.timeline.duration == p.duration
            &&& s.track.duration == p.duration
            &&& s.track.title == p.title
            &&& s.timeline.is_playing == (s.state == PlaybackState::Playing)
        },
        payload_update(p, now) is Upsert <==> (p.state != Some(PlaybackState::Stopped) && !is_blank(
            p.title,
        )),
{
}

} // verus!
