use vstd::prelude::*;

use crate::media::timeline::Timeline;
use crate::media::track::{
    copy_string, is_blank_title, Capabilities, MediaTrack, PlaybackState, TrackView,
};

verus! {

/// One player's or one browser tab's media, as the hub keeps it.
/// `last_interaction` is a monotonic instant in nanoseconds.
#[derive(Debug)]
pub struct MediaSession {
    pub id: String,
    pub source_name: String,
    pub track: MediaTrack,
    pub state: PlaybackState,
    pub timeline: Timeline,
    pub capabilities: Capabilities,
    pub last_interaction: u128,
}

/// A session as values.
pub ghost struct SessionView {
    pub id: Seq<char>,
    pub source_name: Seq<char>,
    pub track: TrackView,
    pub state: PlaybackState,
    pub timeline: Timeline,
    pub capabilities: Capabilities,
    pub last_interaction: u128,
}

impl View for MediaSession {
    type V = SessionView;

    open spec fn view(&self) -> SessionView {
        SessionView {
            id: self.id@,
            source_name: self.source_name@,
            track: self.track@,
            state: self.state,
            timeline: self.timeline,
            capabilities: self.capabilities,
            last_interaction: self.last_interaction,
        }
    }
}

impl Clone for MediaSession {
    fn clone(&self) -> (r: Self)
        ensures
            r@ == self@,
    {
        MediaSession {
            id: copy_string(&self.id),
            source_name: copy_string(&self.source_name),
            track: self.track.clone(),
            state: self.state,
            timeline: self.timeline,
            capabilities: self.capabilities,
            last_interaction: self.last_interaction,
        }
    }
}

impl SessionView {
    /// Stopped with a blank title: nothing to show.
    pub open spec fn is_empty(self) -> bool {
        crate::text::is_blank(self.track.title) && self.state == PlaybackState::Stopped
    }
}

impl MediaSession {
    pub fn is_empty(&self) -> (r: bool)
        ensures
            r == self@.is_empty(),
    {
        is_blank_title(&self.track) && self.state == PlaybackState::Stopped
    }
}

/// What the hub tells its subscribers.
#[derive(Debug)]
pub enum MediaEvent {
    SessionChanged(Option<MediaSession>),
    MetadataChanged(MediaSession),
    Seeked { session: MediaSession },
}

/// An event as values.
pub ghost enum EventView {
    SessionChanged(Option<SessionView>),
    MetadataChanged(SessionView),
    Seeked(SessionView),
}

impl View for MediaEvent {
    type V = EventView;

    open spec fn view(&self) -> EventView {
        match self {
            MediaEvent::SessionChanged(s) => EventView::SessionChanged(
                match s {
                    Some(x) => Some(x@),
                    None => None,
                },
            ),
            MediaEvent::MetadataChanged(s) => EventView::MetadataChanged(s@),
            MediaEvent::Seeked { session } => EventView::Seeked(session@),
        }
    }
}

impl Clone for MediaEvent {
    fn clone(&self) -> (r: Self)
        ensures
            r@ == self@,
    {
        match self {
            MediaEvent::SessionChanged(s) => MediaEvent::SessionChanged(
                match s {
                    Some(x) => Some(x.clone()),
                    None => None,
                },
            ),
            MediaEvent::MetadataChanged(s) => MediaEvent::MetadataChanged(s.clone()),
            MediaEvent::Seeked { session } => MediaEvent::Seeked { session: session.clone() },
        }
    }
}

/// What a source reports: a session came or changed, or it went away.
#[derive(Debug)]
pub enum SourceUpdate {
    Upsert(MediaSession),
    Remove(String),
}

/// An update as values.
pub ghost enum UpdateView {
    Upsert(SessionView),
    Remove(Seq<char>),
}

impl View for SourceUpdate {
    type V = UpdateView;

    open spec fn view(&self) -> UpdateView {
        match self {
            SourceUpdate::Upsert(s) => UpdateView::Upsert(s@),
            SourceUpdate::Remove(id) => UpdateView::Remove(id@),
        }
    }
}

impl Clone for SourceUpdate {
    fn clone(&self) -> (r: Self)
        ensures
            r@ == self@,
    {
        match self {
            SourceUpdate::Upsert(s) => SourceUpdate::Upsert(s.clone()),
            SourceUpdate::Remove(id) => SourceUpdate::Remove(copy_string(id)),
        }
    }
}

/// The view of an optional session.
pub open spec fn opt_session(s: Option<MediaSession>) -> Option<SessionView> {
    match s {
        Some(x) => Some(x@),
        None => None,
    }
}

} // verus!
