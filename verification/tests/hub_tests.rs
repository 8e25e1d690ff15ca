use rain_status::media::hub::MediaHub;
use rain_status::media::session::{MediaEvent, MediaSession, SourceUpdate};
use rain_status::media::timeline::{Timeline, RATE_ONE_BITS};
use rain_status::media::track::{Capabilities, MediaTrack, PlaybackState};
use rain_status::status::classifier::MediaKind;
use rain_status::status::pairing::{is_same_track, presence_targets};

fn session(id: &str, title: &str, state: PlaybackState, at: u128) -> MediaSession {
    MediaSession {
        id: id.to_string(),
        source_name: "test".to_string(),
        track: MediaTrack {
            title: title.to_string(),
            artists: vec!["Artist".to_string()],
            album: None,
            duration: Some(200_000_000_000),
            artwork_url: None,
            source_url: None,
        },
        state,
        timeline: Timeline::new(0, Some(200_000_000_000), RATE_ONE_BITS, state == PlaybackState::Playing, at),
        capabilities: Capabilities::default(),
        last_interaction: at,
    }
}

fn shown_id(event: &Option<MediaEvent>) -> Option<Option<String>> {
    match event {
        Some(MediaEvent::SessionChanged(s)) => Some(s.as_ref().map(|s| s.id.clone())),
        _ => None,
    }
}

#[test]
fn first_session_is_announced_as_change() {
    let mut hub = MediaHub::new();
    let e = hub.apply_update(SourceUpdate::Upsert(session("org.mpris.MediaPlayer2.vlc", "Film", PlaybackState::Playing, 10)));
    assert_eq!(shown_id(&e), Some(Some("org.mpris.MediaPlayer2.vlc".to_string())));
}

#[test]
fn same_session_again_is_metadata_change() {
    let mut hub = MediaHub::new();
    hub.apply_update(SourceUpdate::Upsert(session("a", "One", PlaybackState::Playing, 10)));
    let e = hub.apply_update(SourceUpdate::Upsert(session("a", "Two", PlaybackState::Playing, 11)));
    match e {
        Some(MediaEvent::MetadataChanged(s)) => assert_eq!(s.track.title, "Two"),
        other => panic!("unexpected {:?}", other),
    }
}

#[test]
fn removing_last_session_announces_none() {
    let mut hub = MediaHub::new();
    hub.apply_update(SourceUpdate::Upsert(session("a", "One", PlaybackState::Playing, 10)));
    let e = hub.apply_update(SourceUpdate::Remove("a".to_string()));
    assert_eq!(shown_id(&e), Some(None));
    let again = hub.apply_update(SourceUpdate::Remove("a".to_string()));
    assert!(again.is_none());
}

#[test]
fn stopped_session_is_not_shown() {
    let mut hub = MediaHub::new();
    let e = hub.apply_update(SourceUpdate::Upsert(session("a", "", PlaybackState::Stopped, 10)));
    assert!(e.is_none());
    assert!(hub.active_session().is_none());
}

#[test]
fn playing_beats_paused_and_later_beats_earlier() {
    let mut hub = MediaHub::new();
    hub.apply_update(SourceUpdate::Upsert(session("paused", "P", PlaybackState::Paused, 100)));
    hub.apply_update(SourceUpdate::Upsert(session("old", "O", PlaybackState::Playing, 5)));
    hub.apply_update(SourceUpdate::Upsert(session("new", "N", PlaybackState::Playing, 50)));
    assert_eq!(hub.active_session().unwrap().id, "new");
    hub.apply_update(SourceUpdate::Remove("new".to_string()));
    assert_eq!(hub.active_session().unwrap().id, "old");
    hub.apply_update(SourceUpdate::Remove("old".to_string()));
    assert_eq!(hub.active_session().unwrap().id, "paused");
}

#[test]
fn run_of_updates_keeps_the_fold() {
    let mut hub = MediaHub::new();
    let run = vec![
        SourceUpdate::Upsert(session("a", "One", PlaybackState::Playing, 10)),
        SourceUpdate::Upsert(session("b", "Two", PlaybackState::Paused, 20)),
        SourceUpdate::Remove("zzz".to_string()),
        SourceUpdate::Upsert(session("a", "Three", PlaybackState::Paused, 30)),
        SourceUpdate::Remove("a".to_string()),
        SourceUpdate::Upsert(session("c", "Four", PlaybackState::Paused, 5)),
    ];
    for u in run {
        hub.apply_update(u);
    }
    assert_eq!(hub.active_session().unwrap().id, "b");
    hub.apply_update(SourceUpdate::Remove("b".to_string()));
    let c = hub.active_session().unwrap();
    assert_eq!(c.id, "c");
    assert_eq!(c.track.title, "Four");
    hub.apply_update(SourceUpdate::Remove("c".to_string()));
    assert!(hub.active_session().is_none());
}

#[test]
fn equal_rank_picks_later_entry() {
    let mut hub = MediaHub::new();
    hub.apply_update(SourceUpdate::Upsert(session("first", "A", PlaybackState::Playing, 7)));
    hub.apply_update(SourceUpdate::Upsert(session("second", "B", PlaybackState::Playing, 7)));
    assert_eq!(hub.active_session().unwrap().id, "second");
}

#[test]
fn extension_hides_browser_player() {
    let mut hub = MediaHub::new();
    hub.apply_update(SourceUpdate::Upsert(session("org.mpris.MediaPlayer2.firefox.instance_1_2", "Song", PlaybackState::Playing, 100)));
    assert_eq!(hub.active_session().unwrap().id, "org.mpris.MediaPlayer2.firefox.instance_1_2");
    hub.apply_update(SourceUpdate::Upsert(session("extension:tab:4", "Song", PlaybackState::Paused, 1)));
    assert_eq!(hub.active_session().unwrap().id, "extension:tab:4");
}

#[test]
fn active_by_kind_filters() {
    let mut hub = MediaHub::new();
    hub.apply_update(SourceUpdate::Upsert(session("org.mpris.MediaPlayer2.spotify", "Song", PlaybackState::Playing, 1)));
    hub.apply_update(SourceUpdate::Upsert(session("org.mpris.MediaPlayer2.mpv", "Clip", PlaybackState::Playing, 2)));
    assert_eq!(hub.active_by_kind(MediaKind::Music).unwrap().id, "org.mpris.MediaPlayer2.spotify");
    assert_eq!(hub.active_by_kind(MediaKind::Video).unwrap().id, "org.mpris.MediaPlayer2.mpv");
}

#[test]
fn duplicate_video_presence_is_dropped() {
    let mut hub = MediaHub::new();
    hub.apply_update(SourceUpdate::Upsert(session("org.mpris.MediaPlayer2.spotify", "Song Title", PlaybackState::Playing, 1)));
    hub.apply_update(SourceUpdate::Upsert(session("org.mpris.MediaPlayer2.mpv", "song title (live)", PlaybackState::Playing, 2)));
    let (music, video) = presence_targets(&hub);
    assert!(music.is_some());
    assert!(video.is_none());
}

#[test]
fn same_track_rules() {
    let a = session("a", "  Hello World ", PlaybackState::Playing, 1);
    let mut b = session("b", "hello", PlaybackState::Playing, 1);
    assert!(is_same_track(&a, &b));
    assert!(is_same_track(&b, &a));
    b.track.artists = vec!["Someone Else".to_string()];
    assert!(!is_same_track(&a, &b));
    b.track.artists = vec![];
    assert!(is_same_track(&a, &b));
    let c = session("c", "   ", PlaybackState::Playing, 1);
    assert!(!is_same_track(&a, &c));
    assert!(is_same_track(&c, &c));
}
