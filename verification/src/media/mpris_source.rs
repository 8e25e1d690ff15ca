use vstd::prelude::*;

use crate::keyed::KeyedList;
use crate::media::session::{MediaSession, SessionView, SourceUpdate, UpdateView};
use crate::media::timeline::Timeline;
use crate::media::track::{copy_string, Capabilities, MediaTrack, PlaybackState, TrackView};
use crate::mpris::metadata::{metadata_fields, Metadata, MprisMetadata, MprisMetadataView};
use crate::mpris::types::{PlaybackStatus, MPRIS_PREFIX};
use crate::text::{
    begins, blank, chars_of, is_blank, owned, slice_of, starts_with, string_of,
    strip_all_prefixes, trim_start_matches,
};
use crate::web::{parse_url, parsed_url, UrlParts};

verus! {

/// The bus name prefix of MPRIS players, as characters.
pub open spec fn mpris_prefix() -> Seq<char> {
    "org.mpris.MediaPlayer2."@
}

/// A position in microseconds as nanoseconds; negative positions count as
/// zero.
pub fn micros_to_duration(micros: i64) -> (r: Option<u128>)
    ensures
        r == Some(if micros < 0 {
            0u128
        } else {
            (micros * 1000) as u128
        }),
{
    if micros < 0 {
        Some(0)
    } else {
        Some((micros as u128) * 1000)
    }
}

/// The text before the first '.' (all of it where there is none).
pub open spec fn before_dot(s: Seq<char>) -> Seq<char>
    decreases s.len(),
{
    if s.len() == 0 {
        s
    } else if s[0] == '.' {
        Seq::empty()
    } else {
        seq![s[0]] + before_dot(s.drop_first())
    }
}

fn first_segment(s: &[char]) -> (r: Vec<char>)
    ensures
        r@ == before_dot(s@),
{
    let mut i: usize = 0;
    assert(s@.skip(0) =~= s@);
    while i < s.len() && s[i] != '.'
        invariant
            i <= s@.len(),
            before_dot(s@) == s@.take(i as int) + before_dot(s@.skip(i as int)),
        decreases s.len() - i,
    {
        assert(s@.skip(i as int).drop_first() =~= s@.skip(i + 1));
        assert(s@.take(i as int) + seq![s@[i as int]] =~= s@.take(i + 1));
        i = i + 1;
    }
    if i == s.len() {
        assert(s@.skip(i as int) =~= Seq::<char>::empty());
    }
    let r = slice_of(s, 0, i);
    assert(r@ =~= s@.take(i as int));
    r
}

/// The name shown for a player: the host of its URL (without leading
/// "www.") where its URL is not blank and has one; else the first part of
/// its bus name after the MPRIS prefix; else the whole bus name.
pub open spec fn player_source_name(destination: Seq<char>, url: Seq<char>) -> Seq<char> {
    let parts = if is_blank(url) {
        None
    } else {
        parsed_url(url)
    };
    match parts {
        Some(p) if p.host is Some => trim_start_matches(p.host->0, "www."@),
        _ => if starts_with(destination, mpris_prefix()) {
            before_dot(destination.skip(mpris_prefix().len() as int))
        } else {
            destination
        },
    }
}

/// The name shown for a player, given what its URL parsed into (nothing
/// where the URL is blank or does not parse).
pub fn source_name_from(destination: &str, parts: Option<&UrlParts>) -> (r: String)
    ensures
        r@ == (match parts {
            Some(p) if p@.host is Some => trim_start_matches(p@.host->0, "www."@),
            _ => if starts_with(destination@, mpris_prefix()) {
                before_dot(destination@.skip(mpris_prefix().len() as int))
            } else {
                destination@
            },
        }),
{
    match parts {
        Some(p) => match &p.host {
            Some(h) => {
                let www = chars_of("www.");
                proof {
                    reveal_strlit("www.");
                }
                let stripped = strip_all_prefixes(chars_of(h.as_str()).as_slice(), www.as_slice());
                return string_of(stripped.as_slice());
            },
            None => {},
        },
        None => {},
    }
    let d = chars_of(destination);
    let prefix = chars_of(MPRIS_PREFIX);
    if begins(d.as_slice(), prefix.as_slice()) {
        let rest = slice_of(d.as_slice(), prefix.len(), d.len());
        assert(rest@ =~= d@.skip(mpris_prefix().len() as int));
        let first = first_segment(rest.as_slice());
        string_of(first.as_slice())
    } else {
        owned(destination)
    }
}

/// The name shown for the player `destination` playing `url`.
pub fn extract_mpris_source_name(destination: &str, url: &str) -> (r: String)
    ensures
        r@ == player_source_name(destination@, url@),
{
    if !blank(chars_of(url).as_slice()) {
        let parts = parse_url(url);
        match &parts {
            Some(p) => source_name_from(destination, Some(p)),
            None => source_name_from(destination, None),
        }
    } else {
        source_name_from(destination, None)
    }
}

/// What a player reported about its controls; a property that could not be
/// read is missing.
#[derive(Clone, Copy, Debug, Default, PartialEq, Eq, Structural)]
pub struct ControlReadings {
    pub can_play: Option<bool>,
    pub can_pause: Option<bool>,
    pub can_go_next: Option<bool>,
    pub can_go_previous: Option<bool>,
    pub can_seek: Option<bool>,
}

/// The value read, or `default` where it could not be read.
pub open spec fn or_default(b: Option<bool>, default: bool) -> bool {
    match b {
        Some(x) => x,
        None => default,
    }
}

/// A player's controls: play and pause unless denied, the others only if
/// granted.
pub open spec fn controls(c: ControlReadings) -> Capabilities {
    Capabilities {
        can_play: or_default(c.can_play, true),
        can_pause: or_default(c.can_pause, true),
        can_next: or_default(c.can_go_next, false),
        can_previous: or_default(c.can_go_previous, false),
        can_seek: or_default(c.can_seek, false),
    }
}

/// The playback state a `PlaybackStatus` property reading stands for: an
/// unreadable or unknown status counts as stopped.
pub open spec fn state_of_status(status: Option<Seq<char>>) -> PlaybackState {
    match status {
        Some(s) => if s == "Playing"@ {
            PlaybackState::Playing
        } else if s == "Paused"@ {
            PlaybackState::Paused
        } else {
            PlaybackState::Stopped
        },
        None => PlaybackState::Stopped,
    }
}

/// A string, or nothing where it is blank.
pub open spec fn unless_blank(s: Seq<char>) -> Option<Seq<char>> {
    if is_blank(s) {
        None
    } else {
        Some(s)
    }
}

/// The update for a player, from its bus name, metadata map, status,
/// position (microseconds), rate (as IEEE bits, already made positive) and
/// controls read at `now`: a stopped player or one with empty metadata goes
/// away; otherwise its session is stored.
pub open spec fn player_update(
    destination: Seq<char>,
    meta: MprisMetadataView,
    status: Option<Seq<char>>,
    position: Option<i64>,
    rate_bits: u64,
    c: ControlReadings,
    now: u128,
) -> UpdateView {
    let state = state_of_status(status);
    if state == PlaybackState::Stopped || meta.is_empty() {
        UpdateView::Remove(destination)
    } else {
        UpdateView::Upsert(
            SessionView {
                id: destination,
                source_name: player_source_name(destination, meta.url),
                track: TrackView {
                    title: meta.title,
                    artists: meta.artist,
                    album: unless_blank(meta.album),
                    duration: meta.length,
                    artwork_url: unless_blank(meta.art_url),
                    source_url: unless_blank(meta.url),
                },
                state,
                timeline: Timeline {
                    position: match position {
                        Some(m) => if m < 0 {
                            0
                        } else {
                            (m * 1000) as u128
                        },
                        None => 0,
                    },
                    duration: meta.length,
                    rate_bits,
                    updated_at: now,
                    is_playing: state == PlaybackState::Playing,
                },
                capabilities: controls(c),
                last_interaction: now,
            },
        )
    }
}

fn keep_unless_blank(s: String) -> (r: Option<String>)
    ensures
        r.deep_view() == unless_blank(s@),
{
    if blank(chars_of(s.as_str()).as_slice()) {
        None
    } else {
        Some(s)
    }
}

/// A player that is stopped, or whose metadata is empty, goes away.
pub open spec fn player_gone(meta: MprisMetadataView, status: Option<Seq<char>>) -> bool {
    state_of_status(status) == PlaybackState::Stopped || meta.is_empty()
}

/// The first half of a snapshot, from the metadata and status alone: the
/// removal of a player that is gone, whatever its position, rate and
/// controls would read; nothing where the player stays and the rest must
/// be read.
pub fn removal_if_gone(destination: &str, raw: &Metadata, status: &Option<String>) -> (r: Option<
    SourceUpdate,
>)
    ensures
        r is Some <==> player_gone(metadata_fields(raw@), status.deep_view()),
        r matches Some(u) ==> u@ == UpdateView::Remove(destination@) && forall|
            position: Option<i64>,
            rate_bits: u64,
            c: ControlReadings,
            now: u128,
        |
            u@ == #[trigger] player_update(
                destination@,
                metadata_fields(raw@),
                status.deep_view(),
                position,
                rate_bits,
                c,
                now,
            ),
{
    let metadata = MprisMetadata::from_metadata(raw);
    let stopped = match status {
        Some(s) => match PlaybackStatus::from_name(s.as_str()) {
            PlaybackStatus::Stopped => true,
            _ => false,
        },
        None => true,
    };
    if stopped || metadata.is_empty() {
        Some(SourceUpdate::Remove(owned(destination)))
    } else {
        None
    }
}

/// The update for a player from what was read of it (the snapshot logic of
/// the player monitor).
pub fn player_session_update(
    destination: String,
    raw: &Metadata,
    status: Option<String>,
    position: Option<i64>,
    rate_bits: u64,
    readings: ControlReadings,
    now: u128,
) -> (r: SourceUpdate)
    ensures
        r@ == player_update(
            destination@,
            metadata_fields(raw@),
            status.deep_view(),
            position,
            rate_bits,
            readings,
            now,
        ),
{
    let metadata = MprisMetadata::from_metadata(raw);
    let state = match &status {
        Some(s) => match PlaybackStatus::from_name(s.as_str()) {
            PlaybackStatus::Playing => PlaybackState::Playing,
            PlaybackStatus::Paused => PlaybackState::Paused,
            PlaybackStatus::Stopped => PlaybackState::Stopped,
        },
        None => PlaybackState::Stopped,
    };
    if state == PlaybackState::Stopped || metadata.is_empty() {
        return SourceUpdate::Remove(destination);
    }
    let pos = match position {
        Some(m) => match micros_to_duration(m) {
            Some(d) => d,
            None => 0,
        },
        None => 0,
    };
    let is_playing = state == PlaybackState::Playing;
    let source_name = extract_mpris_source_name(destination.as_str(), metadata.url.as_str());
    let length = metadata.length;
    let track = MediaTrack {
        title: metadata.title,
        artists: metadata.artist,
        album: keep_unless_blank(metadata.album),
        duration: length,
        artwork_url: keep_unless_blank(metadata.art_url),
        source_url: keep_unless_blank(metadata.url),
    };
    let capabilities = Capabilities {
        can_play: match readings.can_play {
            Some(b) => b,
            None => true,
        },
        can_pause: match readings.can_pause {
            Some(b) => b,
            None => true,
        },
        can_next: match readings.can_go_next {
            Some(b) => b,
            None => false,
        },
        can_previous: match readings.can_go_previous {
            Some(b) => b,
            None => false,
        },
        can_seek: match readings.can_seek {
            Some(b) => b,
            None => false,
        },
    };
    SourceUpdate::Upsert(
        MediaSession {
            id: destination,
            source_name,
            track,
            state,
            timeline: Timeline::new(pos, length, rate_bits, is_playing, now),
            capabilities,
            last_interaction: now,
        },
    )
}

/// After a `Seeked` signal to `position` (microseconds) at `now`: a fresh
/// snapshot that stores the session is sent with the new position, observed
/// and interacted with now; a snapshot that removes it sends nothing.
pub open spec fn seek_update(snapshot: UpdateView, position: i64, now: u128) -> Option<UpdateView> {
    match snapshot {
        UpdateView::Upsert(s) => Some(
            UpdateView::Upsert(
                SessionView {
                    timeline: Timeline {
                        position: if position < 0 {
                            0
                        } else {
                            (position * 1000) as u128
                        },
                        updated_at: now,
                        ..s.timeline
                    },
                    last_interaction: now,
                    ..s
                },
            ),
        ),
        UpdateView::Remove(_) => None,
    }
}

/// The update to send after a seek, from a fresh snapshot.
pub fn seeked_update(snapshot: SourceUpdate, position: i64, now: u128) -> (r: Option<SourceUpdate>)
    ensures
        (match r {
            Some(u) => Some(u@),
            None => None,
        }) == seek_update(snapshot@, position, now),
{
    let pos = match micros_to_duration(position) {
        Some(p) => p,
        None => return None,
    };
    match snapshot {
        SourceUpdate::Upsert(mut session) => {
            session.timeline.position = pos;
            session.timeline.updated_at = now;
            session.last_interaction = now;
            Some(SourceUpdate::Upsert(session))
        },
        SourceUpdate::Remove(_) => None,
    }
}

/// The MPRIS names among `names`, in order.
pub open spec fn mpris_names(names: Seq<Seq<char>>) -> Seq<Seq<char>>
    decreases names.len(),
{
    if names.len() == 0 {
        Seq::empty()
    } else {
        let rest = mpris_names(names.drop_last());
        if starts_with(names.last(), mpris_prefix()) {
            rest.push(names.last())
        } else {
            rest
        }
    }
}

/// What to do about a change of a bus name's owner.
#[derive(Clone, Copy, Debug, PartialEq, Eq, Structural)]
pub enum OwnerChange {
    /// Not a player, or nothing new.
    Ignore,
    /// The player left the bus: its session goes away, and its monitor is
    /// told to stop where there is one.
    Vanished { stop_monitor: bool },
    /// A new player joined the bus: a monitor is to be started.
    Appeared,
}

/// The players that have a monitor, by bus name.
pub struct MonitorRegistry {
    monitors: KeyedList<()>,
}

impl MonitorRegistry {
    /// The bus names with a monitor.
    pub closed spec fn names(&self) -> Set<Seq<char>> {
        self.monitors@.dom()
    }

    /// Only MPRIS players have monitors.
    pub closed spec fn wf(&self) -> bool {
        &&& self.monitors.wf()
        &&& forall|n: Seq<char>| #[trigger] self.monitors@.contains_key(n) ==> starts_with(
            n,
            mpris_prefix(),
        )
    }

    /// A registry with no monitor.
    pub fn new() -> (r: Self)
        ensures
            r.wf(),
            r.names() == Set::<Seq<char>>::empty(),
    {
        let r = MonitorRegistry { monitors: KeyedList::new() };
        assert(r.names() =~= Set::<Seq<char>>::empty());
        r
    }

    /// The players found on the bus at start-up: each MPRIS name gets a
    /// monitor. Returns those names, in order.
    pub fn discover(&mut self, names: &Vec<String>) -> (r: Vec<String>)
        requires
            old(self).wf(),
        ensures
            final(self).wf(),
            r.deep_view() == mpris_names(names.deep_view()),
            final(self).names() == old(self).names() + mpris_names(names.deep_view()).to_set(),
    {
        let prefix = chars_of(MPRIS_PREFIX);
        let mut r: Vec<String> = Vec::new();
        let mut k: usize = 0;
        let ghost start = self.names();
        while k < names.len()
            invariant
                self.wf(),
                prefix@ == mpris_prefix(),
                k <= names@.len(),
                r.deep_view() == mpris_names(names.deep_view().take(k as int)),
                self.names() == start + mpris_names(names.deep_view().take(k as int)).to_set(),
            decreases names.len() - k,
        {
            let ghost before = r.deep_view();
            let ghost names_before = self.names();
            assert(names.deep_view().take(k + 1).drop_last() =~= names.deep_view().take(k as int));
            assert(names.deep_view().take(k + 1).last() == names@[k as int]@);
            let name = &names[k];
            if begins(chars_of(name.as_str()).as_slice(), prefix.as_slice()) {
                self.monitors.insert(copy_string(name), ());
                r.push(copy_string(name));
                proof {
                    assert(r.deep_view() =~= before.push(name@));
                    assert(self.names() =~= names_before.insert(name@));
                    assert(before.push(name@).to_set() =~= before.to_set().insert(name@)) by {
                        before.lemma_push_to_set_commute(name@);
                    }
                    assert(self.names() =~= start + before.push(name@).to_set());
                }
            }
            k = k + 1;
        }
        assert(names.deep_view().take(names@.len() as int) =~= names.deep_view());
        r
    }

    /// Decides what a change of owner of the bus name `name` means: a
    /// player without a new owner vanished; one without an old owner and no
    /// monitor yet appeared; anything else is ignored.
    pub fn on_owner_changed(&mut self, name: &str, had_owner: bool, has_owner: bool) -> (r:
        OwnerChange)
        requires
            old(self).wf(),
        ensures
            final(self).wf(),
            !starts_with(name@, mpris_prefix()) ==> r == OwnerChange::Ignore && final(self).names()
                == old(self).names(),
            starts_with(name@, mpris_prefix()) && !has_owner ==> r == (OwnerChange::Vanished {
                stop_monitor: old(self).names().contains(name@),
            }) && final(self).names() == old(self).names().remove(name@),
            starts_with(name@, mpris_prefix()) && has_owner && !had_owner && !old(
                self,
            ).names().contains(name@) ==> r == OwnerChange::Appeared && final(self).names() == old(
                self,
            ).names().insert(name@),
            starts_with(name@, mpris_prefix()) && has_owner && (had_owner || old(
                self,
            ).names().contains(name@)) ==> r == OwnerChange::Ignore && final(self).names() == old(
                self,
            ).names(),
    {
        let n = chars_of(name);
        let prefix = chars_of(MPRIS_PREFIX);
        if !begins(n.as_slice(), prefix.as_slice()) {
            return OwnerChange::Ignore;
        }
        let known = self.monitors.get(n.as_slice()).is_some();
        if !has_owner {
            self.monitors.remove(n.as_slice());
            assert(self.names() =~= old(self).names().remove(name@));
            return OwnerChange::Vanished { stop_monitor: known };
        }
        if !had_owner && !known {
            self.monitors.insert(owned(name), ());
            assert(self.names() =~= old(self).names().insert(name@));
            return OwnerChange::Appeared;
        }
        OwnerChange::Ignore
    }
}


impl MonitorRegistry {
    /// Only MPRIS players ever have a monitor.
    pub proof fn law_only_players(&self)
        requires
            self.wf(),
        ensures
            forall|n: Seq<char>| #[trigger] self.names().contains(n) ==> starts_with(
                n,
                mpris_prefix(),
            ),
    {
    }
}

/// A kept player's session carries on from the position the player
/// reported, in microseconds, kept as nanoseconds (zero where none or a
/// negative one came), with the track's length from its metadata and the
/// snapshot time as its observation time.
pub proof fn law_player_keeps_progress(
    destination: Seq<char>,
    meta: MprisMetadataView,
    status: Option<Seq<char>>,
    position: Option<i64>,
    rate_bits: u64,
    c: ControlReadings,
    now: u128,
)
    ensures
        player_update(destination, meta, status, position, rate_bits, c, now) matches UpdateView::Upsert(
            s,
        ) ==> {
            &&& position matches Some(m) ==> s.timeline.position == (if m >= 0 {
                m * 1000
            } else {
                0
            })
            &&& position is None ==> s.timeline.position == 0
            &&& s.timeline.duration == meta.length
            &&& s.track.duration == meta.length
            &&& s.timeline.updated_at == now
            &&& s.timeline.rate_bits == rate_bits
            &&& s.id == destination
        },
        player_update(destination, meta, status, position, rate_bits, c, now) is Remove <==> player_gone(
            meta,
            status,
        ),
{
}

} // verus!
