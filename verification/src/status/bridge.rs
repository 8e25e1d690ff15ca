use vstd::prelude::*;

use crate::ipc::model::{Activity, ActivityAssets, ActivityTimestamps, ActivityType, ActivityView, AssetsView};
use crate::media::session::{MediaSession, SessionView};
use crate::media::track::{copy_string, PlaybackState};
use crate::status::classifier::MediaKind;
use crate::text::{chars_of, concat, owned, slice_of, string_of, trim, trimmed};

verus! {

/// `s`, trimmed and held to Discord's 2 to 128 character limits: blank
/// text becomes `default`, a single character gets a trailing space, and
/// text of more than 128 characters is cut to its first 128.
pub open spec fn sanitized(s: Seq<char>, default: Seq<char>) -> Seq<char> {
    let t = trim(s);
    if t.len() == 0 {
        default
    } else if t.len() < 2 {
        t.push(' ')
    } else if t.len() > 128 {
        t.take(128)
    } else {
        t
    }
}

/// Holds a text to Discord's length limits.
pub fn sanitize_string(s: &str, default: &str) -> (r: String)
    ensures
        r@ == sanitized(s@, default@),
{
    let t = trimmed(chars_of(s).as_slice());
    if t.len() == 0 {
        return owned(default);
    }
    if t.len() < 2 {
        let mut v = t;
        v.push(' ');
        return string_of(v.as_slice());
    }
    if t.len() > 128 {
        let cut = slice_of(t.as_slice(), 0, 128);
        assert(cut@ =~= t@.take(128));
        return string_of(cut.as_slice());
    }
    string_of(t.as_slice())
}

/// The picture shown where no artwork is found.
pub open spec fn default_artwork() -> Seq<char> {
    "https://placehold.co/512x512/1a1b26/ffffff.png?text=Media"@
}

/// The picture to show: the artwork found, else the default one.
pub open spec fn image_of(artwork: Option<String>) -> Seq<char> {
    match artwork {
        Some(a) => a@,
        None => default_artwork(),
    }
}

/// The end time of a presence that starts at `start` and lasts `duration`
/// nanoseconds fits in epoch milliseconds.
pub open spec fn end_fits(start: Option<u64>, duration: Option<u128>) -> bool {
    match (start, duration) {
        (Some(s), Some(d)) => s + (d / 1000000) as u64 <= u64::MAX,
        _ => true,
    }
}

fn default_artwork_string() -> (r: String)
    ensures
        r@ == default_artwork(),
{
    owned("https://placehold.co/512x512/1a1b26/ffffff.png?text=Media")
}

fn start_of(paused: bool, now_ms: u64, position: u128) -> (r: Option<u64>)
    ensures
        r == start_ms(paused, now_ms, position),
{
    if paused {
        None
    } else {
        let pos = (position / 1000000) as u64;
        Some(if now_ms >= pos {
            now_ms - pos
        } else {
            0
        })
    }
}

/// The texts of a presence.
#[derive(Debug)]
pub struct PresenceText {
    pub details: String,
    pub state_text: String,
    pub is_paused: bool,
}

/// Presence texts as values.
pub ghost struct TextView {
    pub details: Seq<char>,
    pub state_text: Seq<char>,
    pub is_paused: bool,
}

impl View for PresenceText {
    type V = TextView;

    open spec fn view(&self) -> TextView {
        TextView { details: self.details@, state_text: self.state_text@, is_paused: self.is_paused }
    }
}

/// What was last published, to leave out repeats.
#[derive(Debug)]
pub struct ActivityCache {
    pub title: String,
    pub state: String,
    pub artwork: String,
    pub is_paused: bool,
    pub anchor_start_ms: Option<u64>,
}

/// A cache entry as values.
pub ghost struct CacheView {
    pub title: Seq<char>,
    pub state: Seq<char>,
    pub artwork: Seq<char>,
    pub is_paused: bool,
    pub anchor_start_ms: Option<u64>,
}

impl View for ActivityCache {
    type V = CacheView;

    open spec fn view(&self) -> CacheView {
        CacheView {
            title: self.title@,
            state: self.state@,
            artwork: self.artwork@,
            is_paused: self.is_paused,
            anchor_start_ms: self.anchor_start_ms,
        }
    }
}

/// The second line of a presence: the artists (else where it plays from),
/// marked while paused.
pub open spec fn raw_state(s: SessionView) -> Seq<char> {
    let artist = match s.track.display_artist() {
        Some(a) => a,
        None => s.source_name,
    };
    if s.state == PlaybackState::Paused {
        "(paused) "@ + artist
    } else {
        artist
    }
}

/// The texts of the presence for a session, or nothing where the presence
/// is to be cleared: no session, a stopped one, or an empty one.
pub open spec fn presence_text(session: Option<SessionView>) -> Option<TextView> {
    match session {
        None => None,
        Some(s) => if s.state == PlaybackState::Stopped || s.is_empty() {
            None
        } else {
            Some(
                TextView {
                    details: sanitized(s.track.title, "Unknown Title"@),
                    state_text: sanitized(raw_state(s), "Unknown Artist"@),
                    is_paused: s.state == PlaybackState::Paused,
                },
            )
        },
    }
}

/// When the track started, in epoch milliseconds: now less the position;
/// nothing while paused.
pub open spec fn start_ms(paused: bool, now_ms: u64, position: u128) -> Option<u64> {
    if paused {
        None
    } else {
        let pos = (position / 1000000) as u64;
        Some(if now_ms >= pos {
            (now_ms - pos) as u64
        } else {
            0
        })
    }
}

/// Two start times within two seconds of each other, or both absent.
pub open spec fn same_timeline(a: Option<u64>, b: Option<u64>) -> bool {
    match (a, b) {
        (Some(x), Some(y)) => if x >= y {
            x - y < 2000
        } else {
            y - x < 2000
        },
        (None, None) => true,
        _ => false,
    }
}

/// The presence would show what `last` already shows.
pub open spec fn is_repeat(last: CacheView, text: TextView, image: Seq<char>, start: Option<u64>) -> bool {
    &&& last.title == text.details
    &&& last.state == text.state_text
    &&& last.artwork == image
    &&& last.is_paused == text.is_paused
    &&& same_timeline(last.anchor_start_ms, start)
}

/// The activity shown for a presence of kind `kind`.
pub open spec fn activity_for(
    kind: MediaKind,
    text: TextView,
    image: Seq<char>,
    start: Option<u64>,
    duration: Option<u128>,
) -> ActivityView {
    ActivityView {
        application_id: Some(kind.app_id()),
        platform: Some("desktop"@),
        details: Some(text.details),
        state: Some(text.state_text),
        activity_type: match kind {
            MediaKind::Music => ActivityType::Listening,
            MediaKind::Video => ActivityType::Watching,
        },
        status_display_type: Some(2),
        timestamps: match start {
            Some(s) => Some(
                ActivityTimestamps {
                    start: Some(s),
                    end: match duration {
                        Some(d) => Some((s + (d / 1000000) as u64) as u64),
                        None => None,
                    },
                },
            ),
            None => None,
        },
        assets: Some(
            AssetsView {
                large_image: Some(image),
                large_text: Some(text.details),
                small_image: None,
                small_text: None,
            },
        ),
    }
}

/// An activity ready to send, what to remember once it is sent, and
/// whether the connection must be opened first.
#[derive(Debug)]
pub struct Publish {
    pub activity: Activity,
    pub cache: ActivityCache,
    pub needs_connect: bool,
}

/// One Discord presence (music or video): whether its connection is open,
/// whether it shows something, and what it last published.
#[derive(Debug)]
pub struct PresenceSlot {
    pub kind: MediaKind,
    pub pid: u32,
    pub connected: bool,
    pub has_active_presence: bool,
    pub last_activity: Option<ActivityCache>,
}

/// The optional cache entry as values.
pub open spec fn opt_cache(c: Option<ActivityCache>) -> Option<CacheView> {
    match c {
        Some(x) => Some(x@),
        None => None,
    }
}

impl PresenceSlot {
    /// Something is shown only over an open connection, and something is
    /// remembered only while it is shown.
    pub open spec fn wf(&self) -> bool {
        &&& self.has_active_presence ==> self.connected
        &&& self.last_activity.is_some() ==> self.has_active_presence
    }

    /// The slot once the connection is open and the handshake accepted.
    pub open spec fn with_connection(self) -> PresenceSlot {
        PresenceSlot {
            kind: self.kind,
            pid: self.pid,
            connected: true,
            has_active_presence: self.has_active_presence,
            last_activity: self.last_activity,
        }
    }

    /// The slot once a planned activity was sent (`sent`) or failed: on
    /// success it is shown and `cache` remembered; on failure the
    /// connection is dropped and nothing is shown or remembered.
    pub open spec fn after_send(self, sent: bool, cache: ActivityCache) -> PresenceSlot {
        if sent {
            PresenceSlot {
                kind: self.kind,
                pid: self.pid,
                connected: self.connected,
                has_active_presence: true,
                last_activity: Some(cache),
            }
        } else {
            PresenceSlot {
                kind: self.kind,
                pid: self.pid,
                connected: false,
                has_active_presence: false,
                last_activity: None,
            }
        }
    }

    /// The slot once its presence was cleared.
    pub open spec fn after_clear(self) -> PresenceSlot {
        PresenceSlot {
            kind: self.kind,
            pid: self.pid,
            connected: self.connected,
            has_active_presence: false,
            last_activity: None,
        }
    }

    /// What the slot last published shows these texts, this picture and
    /// this start time already.
    pub open spec fn shows_already(&self, text: TextView, image: Seq<char>, start: Option<u64>) -> bool {
        match opt_cache(self.last_activity) {
            Some(last) => is_repeat(last, text, image, start),
            None => false,
        }
    }

    /// Whether a presence with these texts and artwork, at this time and
    /// playback position, would repeat what the slot already shows.
    pub fn repeats(&self, text: &PresenceText, artwork: &Option<String>, now_ms: u64, position: u128) -> (r: bool)
        ensures
            r == self.shows_already(
                text@,
                image_of(*artwork),
                start_ms(text.is_paused, now_ms, position),
            ),
    {
        let last = match &self.last_activity {
            Some(last) => last,
            None => return false,
        };
        let image = match artwork {
            Some(a) => copy_string(a),
            None => default_artwork_string(),
        };
        let start = start_of(text.is_paused, now_ms, position);
        let same_meta = last.title == text.details && last.state == text.state_text
            && last.artwork == image && last.is_paused == text.is_paused;
        let same_time = match (last.anchor_start_ms, start) {
            (Some(a), Some(b)) => if a >= b {
                a - b < 2000
            } else {
                b - a < 2000
            },
            (None, None) => true,
            _ => false,
        };
        same_meta && same_time
    }

    /// A slot with no connection that shows nothing.
    pub fn new(kind: MediaKind, pid: u32) -> (r: Self)
        ensures
            r.wf(),
            r.kind == kind,
            r.pid == pid,
            !r.connected,
            !r.has_active_presence,
            r.last_activity is None,
    {
        PresenceSlot { kind, pid, connected: false, has_active_presence: false, last_activity: None }
    }

    /// The first step of a sync: the texts to show for the session, or
    /// nothing where the presence is to be cleared.
    pub fn prepare(session: Option<&MediaSession>) -> (r: Option<PresenceText>)
        ensures
            (match r {
                Some(t) => Some(t@),
                None => None,
            }) == presence_text(
                match session {
                    Some(s) => Some(s@),
                    None => None,
                },
            ),
    {
        let session = match session {
            Some(s) => s,
            None => return None,
        };
        if session.state == PlaybackState::Stopped || session.is_empty() {
            return None;
        }
        let is_paused = session.state == PlaybackState::Paused;
        let artist = match session.track.display_artist() {
            Some(a) => a,
            None => copy_string(&session.source_name),
        };
        let raw = if is_paused {
            let marked = concat(chars_of("(paused) ").as_slice(), chars_of(artist.as_str()).as_slice());
            string_of(marked.as_slice())
        } else {
            artist
        };
        let details = sanitize_string(session.track.title.as_str(), "Unknown Title");
        let state_text = sanitize_string(raw.as_str(), "Unknown Artist");
        Some(PresenceText { details, state_text, is_paused })
    }

    /// The second step: with the artwork found (if any), the time now and
    /// the playback position, decide whether to publish. Nothing where the
    /// slot already shows the same texts, picture and start time (within
    /// two seconds).
    pub fn plan(
        &self,
        text: &PresenceText,
        artwork: Option<String>,
        now_ms: u64,
        position: u128,
        duration: Option<u128>,
    ) -> (r: Option<Publish>)
        requires
            self.shows_already(text@, image_of(artwork), start_ms(text.is_paused, now_ms, position))
                || end_fits(start_ms(text.is_paused, now_ms, position), duration),
        ensures
            ({
                let image = image_of(artwork);
                let start = start_ms(text.is_paused, now_ms, position);
                if self.shows_already(text@, image, start) {
                    r is None
                } else {
                    r matches Some(p) && p.activity@ == activity_for(
                        self.kind,
                        text@,
                        image,
                        start,
                        duration,
                    ) && p.cache@ == (CacheView {
                        title: text.details@,
                        state: text.state_text@,
                        artwork: image,
                        is_paused: text.is_paused,
                        anchor_start_ms: start,
                    }) && p.needs_connect == !self.connected
                }
            }),
            r matches Some(p) ==> p.activity@.details == Some(text.details@) && p.activity@.state == Some(
                text.state_text@,
            ),
    {
        if self.repeats(text, &artwork, now_ms, position) {
            return None;
        }
        let image = match artwork {
            Some(a) => a,
            None => default_artwork_string(),
        };
        let start = start_of(text.is_paused, now_ms, position);
        let timestamps = match start {
            Some(s) => Some(
                ActivityTimestamps {
                    start: Some(s),
                    end: match duration {
                        Some(d) => Some(s + (d / 1000000) as u64),
                        None => None,
                    },
                },
            ),
            None => None,
        };
        let activity = Activity {
            application_id: Some(self.kind.discord_app_id()),
            platform: Some(owned("desktop")),
            details: Some(copy_string(&text.details)),
            state: Some(copy_string(&text.state_text)),
            activity_type: match self.kind {
                MediaKind::Music => ActivityType::Listening,
                MediaKind::Video => ActivityType::Watching,
            },
            status_display_type: Some(2),
            timestamps,
            assets: Some(
                ActivityAssets {
                    large_image: Some(copy_string(&image)),
                    large_text: Some(copy_string(&text.details)),
                    small_image: None,
                    small_text: None,
                },
            ),
        };
        let cache = ActivityCache {
            title: copy_string(&text.details),
            state: copy_string(&text.state_text),
            artwork: image,
            is_paused: text.is_paused,
            anchor_start_ms: start,
        };
        Some(Publish { activity, cache, needs_connect: !self.connected })
    }

    /// The connection was opened and the handshake accepted.
    pub fn mark_connected(&mut self)
        requires
            old(self).wf(),
        ensures
            final(self).wf(),
            *final(self) == old(self).with_connection(),
    {
        self.connected = true;
    }

    /// The outcome of sending a planned activity: on success it is shown
    /// and remembered; on failure the connection is dropped and nothing is
    /// shown or remembered.
    pub fn finish(&mut self, sent: bool, cache: ActivityCache)
        requires
            old(self).wf(),
            old(self).connected,
        ensures
            final(self).wf(),
            *final(self) == old(self).after_send(sent, cache),
    {
        if sent {
            self.has_active_presence = true;
            self.last_activity = Some(cache);
        } else {
            self.connected = false;
            self.has_active_presence = false;
            self.last_activity = None;
        }
    }

    /// Whether clearing must tell Discord: only while something is shown
    /// over an open connection.
    pub fn clear_needed(&self) -> (r: bool)
        ensures
            r == (self.has_active_presence && self.connected),
    {
        self.has_active_presence && self.connected
    }

    /// The presence was cleared: nothing is shown or remembered.
    pub fn cleared(&mut self)
        requires
            old(self).wf(),
        ensures
            final(self).wf(),
            *final(self) == old(self).after_clear(),
    {
        self.has_active_presence = false;
        self.last_activity = None;
    }
}

/// The music and the video presence.
#[derive(Debug)]
pub struct DiscordBridge {
    pub music_slot: PresenceSlot,
    pub video_slot: PresenceSlot,
}

impl DiscordBridge {
    /// Two fresh slots for process `pid`.
    pub fn new(pid: u32) -> (r: Self)
        ensures
            r.music_slot.wf() && r.video_slot.wf(),
            r.music_slot.kind == MediaKind::Music,
            r.video_slot.kind == MediaKind::Video,
            r.music_slot.pid == pid && r.video_slot.pid == pid,
            !r.music_slot.connected && !r.video_slot.connected,
            !r.music_slot.has_active_presence && !r.video_slot.has_active_presence,
    {
        DiscordBridge {
            music_slot: PresenceSlot::new(MediaKind::Music, pid),
            video_slot: PresenceSlot::new(MediaKind::Video, pid),
        }
    }
}


/// One step of a sync or a clear on a slot: a step that changes nothing
/// (planning, a repeat, a failed connect), opening the connection, the
/// outcome of a send over an open connection, or clearing.
pub open spec fn sync_step(a: PresenceSlot, b: PresenceSlot) -> bool {
    ||| b == a
    ||| b == a.with_connection()
    ||| a.connected && exists|sent: bool, cache: ActivityCache| b == #[trigger] a.after_send(sent, cache)
    ||| b == a.after_clear()
}

/// Every step of a sync or a clear keeps a slot's invariant: something
/// is shown only over an open connection, and remembered only while shown.
pub proof fn law_step_keeps_wf(a: PresenceSlot, b: PresenceSlot)
    requires
        a.wf(),
        sync_step(a, b),
    ensures
        b.wf(),
{
}

/// However a run of syncs and clears went, whether each returned `Ok` or
/// an error part-way, a slot that kept its invariant at the start keeps it
/// in every state it passes through.
pub proof fn law_sync_keeps_wf(slots: Seq<PresenceSlot>)
    requires
        slots.len() > 0,
        slots[0].wf(),
        forall|i: int| 0 <= i < slots.len() - 1 ==> #[trigger] sync_step(slots[i], slots[i + 1]),
    ensures
        forall|i: int| 0 <= i < slots.len() ==> #[trigger] slots[i].wf(),
    decreases slots.len(),
{
    if slots.len() > 1 {
        let init = slots.drop_last();
        assert forall|i: int| 0 <= i < init.len() - 1 implies #[trigger] sync_step(init[i], init[i + 1]) by {
            assert(sync_step(slots[i], slots[i + 1]));
        }
        law_sync_keeps_wf(init);
        let n = slots.len() - 1;
        let k = n - 1;
        assert(init[k] == slots[k]);
        assert(sync_step(slots[k], slots[k + 1]));
        law_step_keeps_wf(slots[k], slots[k + 1]);
        assert forall|i: int| 0 <= i < slots.len() implies #[trigger] slots[i].wf() by {
            if i < n {
                assert(init[i] == slots[i]);
            }
        }
    }
}

/// A published activity shows the track's title on its first line and
/// the artist line on its second, with the title again as the picture's
/// caption, and the picture itself as its large image; only the timestamps
/// depend on when the track started.
pub proof fn law_activity_lines(
    kind: MediaKind,
    text: TextView,
    image: Seq<char>,
    start: Option<u64>,
    duration: Option<u128>,
)
    ensures
        activity_for(kind, text, image, start, duration).details == Some(text.details),
        activity_for(kind, text, image, start, duration).state == Some(text.state_text),
        activity_for(kind, text, image, start, duration).assets matches Some(a) && a.large_image
            == Some(image) && a.large_text == Some(text.details),
        start is None ==> activity_for(kind, text, image, start, duration).timestamps is None,
{
}

/// For every session with a presence, the activity's first line is the
/// session's title and its second line the session's artists, each held
/// to Discord's limits (the title falling back to "Unknown Title").
pub proof fn law_title_above_artist(
    s: SessionView,
    kind: MediaKind,
    image: Seq<char>,
    start: Option<u64>,
    duration: Option<u128>,
)
    requires
        presence_text(Some(s)) is Some,
    ensures
        activity_for(kind, presence_text(Some(s))->0, image, start, duration).details == Some(
            sanitized(s.track.title, "Unknown Title"@),
        ),
        activity_for(kind, presence_text(Some(s))->0, image, start, duration).state == Some(
            sanitized(raw_state(s), "Unknown Artist"@),
        ),
{
}

/// Discord's limits hold of every sanitized text whose source is not
/// blank, and of every one whose default already keeps them: it has at
/// least two and at most 128 characters.
pub proof fn law_sanitized_fits(s: Seq<char>, default: Seq<char>)
    ensures
        !crate::text::is_blank(s) ==> 2 <= sanitized(s, default).len() <= 128,
        2 <= default.len() <= 128 ==> 2 <= sanitized(s, default).len() <= 128,
{
}

/// A presence planned again with the same texts, picture and start time
/// repeats what was last published, so it is left out.
pub proof fn law_same_presence_is_repeat(text: TextView, image: Seq<char>, start: Option<u64>)
    ensures
        is_repeat(
            CacheView {
                title: text.details,
                state: text.state_text,
                artwork: image,
                is_paused: text.is_paused,
                anchor_start_ms: start,
            },
            text,
            image,
            start,
        ),
{
}

} // verus!
