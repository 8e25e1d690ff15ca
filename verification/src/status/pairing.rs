use vstd::prelude::*;

use crate::media::hub::{shown, MediaHub};
use crate::media::session::{opt_session, MediaSession, SessionView};
use crate::mpris::metadata::or_empty;
use crate::status::classifier::MediaKind;
use crate::text::{chars_of, contains, has, lower, lowercase, same, trim, trimmed};

verus! {

/// One text contains the other (or they are equal).
pub open spec fn overlap(a: Seq<char>, b: Seq<char>) -> bool {
    a == b || contains(a, b) || contains(b, a)
}

/// Two sessions show the same media: the same id, or overlapping titles
/// (trimmed, ASCII case ignored) and, where both name artists, overlapping
/// artists too.
pub open spec fn same_track(a: SessionView, b: SessionView) -> bool {
    if a.id == b.id {
        true
    } else {
        let ta = lower(trim(a.track.title));
        let tb = lower(trim(b.track.title));
        if ta.len() == 0 || tb.len() == 0 {
            false
        } else {
            let aa = lower(or_empty(a.track.display_artist()));
            let ab = lower(or_empty(b.track.display_artist()));
            if aa.len() > 0 && ab.len() > 0 {
                overlap(ta, tb) && overlap(aa, ab)
            } else {
                overlap(ta, tb)
            }
        }
    }
}

fn overlaps(a: &[char], b: &[char]) -> (r: bool)
    ensures
        r == overlap(a@, b@),
{
    same(a, b) || has(a, b) || has(b, a)
}

fn artist_lower(s: &MediaSession) -> (r: Vec<char>)
    ensures
        r@ == lower(or_empty(s@.track.display_artist())),
{
    match s.track.display_artist() {
        Some(a) => lowercase(chars_of(a.as_str()).as_slice()),
        None => Vec::new(),
    }
}

/// Whether two sessions show the same media.
pub fn is_same_track(a: &MediaSession, b: &MediaSession) -> (r: bool)
    ensures
        r == same_track(a@, b@),
{
    if a.id == b.id {
        return true;
    }
    let ta = lowercase(trimmed(chars_of(a.track.title.as_str()).as_slice()).as_slice());
    let tb = lowercase(trimmed(chars_of(b.track.title.as_str()).as_slice()).as_slice());
    if ta.len() == 0 || tb.len() == 0 {
        return false;
    }
    let title_matches = overlaps(ta.as_slice(), tb.as_slice());
    let aa = artist_lower(a);
    let ab = artist_lower(b);
    if aa.len() > 0 && ab.len() > 0 {
        return title_matches && overlaps(aa.as_slice(), ab.as_slice());
    }
    title_matches
}

/// The sessions the two presences show: the best music session and the
/// best video session, where the video one is dropped when it shows the
/// same media as the music one.
pub open spec fn targets(all: Seq<SessionView>) -> (Option<SessionView>, Option<SessionView>) {
    let music = shown(all, Some(MediaKind::Music));
    let video = shown(all, Some(MediaKind::Video));
    match (music, video) {
        (Some(m), Some(v)) => if same_track(m, v) {
            (music, None)
        } else {
            (music, video)
        },
        _ => (music, video),
    }
}

/// What the two presences show (the daemon's loop body).
pub fn presence_targets(hub: &MediaHub) -> (r: (Option<MediaSession>, Option<MediaSession>))
    requires
        hub.wf(),
    ensures
        (opt_session(r.0), opt_session(r.1)) == targets(hub.order()),
{
    let music = hub.active_by_kind(MediaKind::Music);
    let video = hub.active_by_kind(MediaKind::Video);
    let drop_video = match (&music, &video) {
        (Some(m), Some(v)) => is_same_track(m, v),
        _ => false,
    };
    if drop_video {
        (music, None)
    } else {
        (music, video)
    }
}


/// Whether two sessions show the same media does not depend on their
/// order.
pub proof fn law_same_track_symmetric(a: SessionView, b: SessionView)
    ensures
        same_track(a, b) == same_track(b, a),
{
}

/// A session shows the same media as itself.
pub proof fn law_same_track_reflexive(a: SessionView)
    ensures
        same_track(a, a),
{
}

/// The two presences never show the same media.
pub proof fn law_targets_differ(all: Seq<SessionView>)
    ensures
        targets(all) matches (Some(m), Some(v)) ==> !same_track(m, v),
{
}

} // verus!
