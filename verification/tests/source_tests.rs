use rain_status::keyed::KeyedList;
use rain_status::media::http_source::{extract_friendly_name, update_from_payload, ExtensionPayload, HttpSource};
use rain_status::media::mpris_source::{
    extract_mpris_source_name, micros_to_duration, player_session_update, removal_if_gone, seeked_update, ControlReadings,
    MonitorRegistry, OwnerChange,
};
use rain_status::media::session::SourceUpdate;
use rain_status::media::timeline::RATE_ONE_BITS;
use rain_status::media::track::PlaybackState;
use rain_status::mpris::metadata::{MetaValue, Metadata};

fn payload(title: &str) -> ExtensionPayload {
    ExtensionPayload {
        source_hint: None,
        title: title.to_string(),
        artist: Some("Band".to_string()),
        artwork: None,
        url: Some("https://www.youtube.com/watch?v=abc".to_string()),
        duration: Some(5_000_000_000),
        position: None,
        state: None,
        tab_id: Some(-12),
    }
}

#[test]
fn http_source_keeps_port() {
    assert_eq!(HttpSource::new(6767).port(), 6767);
}

#[test]
fn payload_becomes_session() {
    match update_from_payload(payload("Video"), 99) {
        SourceUpdate::Upsert(s) => {
            assert_eq!(s.id, "extension:tab:-12");
            assert_eq!(s.source_name, "youtube.com");
            assert_eq!(s.state, PlaybackState::Playing);
            assert_eq!(s.track.artists, vec!["Band".to_string()]);
            assert_eq!(s.timeline.position, 0);
            assert_eq!(s.timeline.rate_bits, RATE_ONE_BITS);
            assert_eq!(s.timeline.rate_bits, 1.0f64.to_bits());
            assert!(s.timeline.is_playing);
            assert!(s.capabilities.can_seek);
            assert_eq!(s.last_interaction, 99);
        }
        other => panic!("unexpected {:?}", other),
    }
}

#[test]
fn blank_or_stopped_payload_removes() {
    let mut p = payload("  ");
    p.source_hint = Some("spotify".to_string());
    match update_from_payload(p, 0) {
        SourceUpdate::Remove(id) => assert_eq!(id, "extension:spotify"),
        other => panic!("unexpected {:?}", other),
    }
    let mut q = payload("Song");
    q.tab_id = None;
    q.state = Some(PlaybackState::Stopped);
    match update_from_payload(q, 0) {
        SourceUpdate::Remove(id) => assert_eq!(id, "extension:browser"),
        other => panic!("unexpected {:?}", other),
    }
}

#[test]
fn friendly_names() {
    assert_eq!(extract_friendly_name(Some("https://www.www.example.org/a")), "example.org");
    assert_eq!(extract_friendly_name(Some("not a url")), "Browser Extension");
    assert_eq!(extract_friendly_name(Some("data:text/plain,x")), "Browser Extension");
    assert_eq!(extract_friendly_name(None), "Browser Extension");
}

#[test]
fn mpris_source_names() {
    assert_eq!(extract_mpris_source_name("org.mpris.MediaPlayer2.spotify.instance7", ""), "spotify");
    assert_eq!(extract_mpris_source_name("org.mpris.MediaPlayer2.vlc", "  "), "vlc");
    assert_eq!(extract_mpris_source_name("org.mpris.MediaPlayer2.firefox.x", "https://www.netflix.com/title/1"), "netflix.com");
    assert_eq!(extract_mpris_source_name("com.example.Player", "file:///music/a.mp3"), "com.example.Player");
}

#[test]
fn micros_convert() {
    assert_eq!(micros_to_duration(-5), Some(0));
    assert_eq!(micros_to_duration(1_500_000), Some(1_500_000_000));
}

fn meta() -> Metadata {
    let mut m: Metadata = KeyedList::new();
    m.insert("xesam:title".to_string(), MetaValue::Value(Box::new(MetaValue::Str("Song".to_string()))));
    m.insert("xesam:artist".to_string(), MetaValue::Array(vec![MetaValue::Str("A".to_string()), MetaValue::I32(3)]));
    m.insert("xesam:album".to_string(), MetaValue::Str("  ".to_string()));
    m.insert("mpris:length".to_string(), MetaValue::I64(2_000_000));
    m
}

#[test]
fn player_snapshot() {
    let readings = ControlReadings { can_play: None, can_pause: Some(false), can_go_next: None, can_go_previous: Some(true), can_seek: None };
    let u = player_session_update(
        "org.mpris.MediaPlayer2.cmus".to_string(),
        &meta(),
        Some("Paused".to_string()),
        Some(1_000),
        RATE_ONE_BITS,
        readings,
        7,
    );
    match u {
        SourceUpdate::Upsert(s) => {
            assert_eq!(s.source_name, "cmus");
            assert_eq!(s.state, PlaybackState::Paused);
            assert_eq!(s.track.title, "Song");
            assert_eq!(s.track.artists, vec!["A".to_string()]);
            assert_eq!(s.track.album, None);
            assert_eq!(s.track.duration, Some(2_000_000_000));
            assert_eq!(s.timeline.position, 1_000_000);
            assert!(!s.timeline.is_playing);
            assert!(s.capabilities.can_play);
            assert!(!s.capabilities.can_pause);
            assert!(!s.capabilities.can_next);
            assert!(s.capabilities.can_previous);
        }
        other => panic!("unexpected {:?}", other),
    }
    let stopped = player_session_update("p".to_string(), &meta(), Some("Stopped".to_string()), None, RATE_ONE_BITS, ControlReadings::default(), 0);
    assert!(matches!(stopped, SourceUpdate::Remove(ref id) if id == "p"));
    let unknown = player_session_update("p".to_string(), &meta(), None, None, RATE_ONE_BITS, ControlReadings::default(), 0);
    assert!(matches!(unknown, SourceUpdate::Remove(_)));
}

#[test]
fn seek_moves_position() {
    let snap = player_session_update("org.mpris.MediaPlayer2.cmus".to_string(), &meta(), Some("Playing".to_string()), Some(0), RATE_ONE_BITS, ControlReadings::default(), 1);
    match seeked_update(snap, 42, 9) {
        Some(SourceUpdate::Upsert(s)) => {
            assert_eq!(s.timeline.position, 42_000);
            assert_eq!(s.timeline.updated_at, 9);
            assert_eq!(s.last_interaction, 9);
        }
        other => panic!("unexpected {:?}", other),
    }
    assert!(seeked_update(SourceUpdate::Remove("x".to_string()), 1, 1).is_none());
}

#[test]
fn registry_follows_players() {
    let mut reg = MonitorRegistry::new();
    let found = reg.discover(&vec![
        "org.freedesktop.DBus".to_string(),
        "org.mpris.MediaPlayer2.vlc".to_string(),
        "org.mpris.MediaPlayer2.spotify".to_string(),
    ]);
    assert_eq!(found, vec!["org.mpris.MediaPlayer2.vlc".to_string(), "org.mpris.MediaPlayer2.spotify".to_string()]);
    assert_eq!(reg.on_owner_changed("org.gnome.Shell", false, true), OwnerChange::Ignore);
    assert_eq!(reg.on_owner_changed("org.mpris.MediaPlayer2.vlc", true, false), OwnerChange::Vanished { stop_monitor: true });
    assert_eq!(reg.on_owner_changed("org.mpris.MediaPlayer2.vlc", true, false), OwnerChange::Vanished { stop_monitor: false });
    assert_eq!(reg.on_owner_changed("org.mpris.MediaPlayer2.mpv", false, true), OwnerChange::Appeared);
    assert_eq!(reg.on_owner_changed("org.mpris.MediaPlayer2.mpv", false, true), OwnerChange::Ignore);
    assert_eq!(reg.on_owner_changed("org.mpris.MediaPlayer2.spotify", true, true), OwnerChange::Ignore);
}

#[test]
fn gone_player_is_removed_before_the_rest_is_read() {
    let stopped = removal_if_gone("p", &meta(), &Some("Stopped".to_string()));
    assert!(matches!(stopped, Some(SourceUpdate::Remove(ref id)) if id == "p"));
    let unknown = removal_if_gone("q", &meta(), &None);
    assert!(matches!(unknown, Some(SourceUpdate::Remove(ref id)) if id == "q"));
    let empty: Metadata = KeyedList::new();
    assert!(removal_if_gone("r", &empty, &Some("Playing".to_string())).is_some());
    assert!(removal_if_gone("s", &meta(), &Some("Playing".to_string())).is_none());
    assert!(removal_if_gone("s", &meta(), &Some("Paused".to_string())).is_none());
}
