use rain_status::media::session::MediaSession;
use rain_status::media::timeline::{Timeline, RATE_ONE_BITS};
use rain_status::media::track::{Capabilities, MediaTrack, PlaybackState};
use rain_status::ipc::model::ActivityType;
use rain_status::status::bridge::{sanitize_string, DiscordBridge, PresenceSlot};
use rain_status::status::classifier::MediaKind;

fn session(title: &str, artists: &[&str], state: PlaybackState) -> MediaSession {
    MediaSession {
        id: "org.mpris.MediaPlayer2.spotify".to_string(),
        source_name: "spotify".to_string(),
        track: MediaTrack {
            title: title.to_string(),
            artists: artists.iter().map(|a| a.to_string()).collect(),
            album: None,
            duration: Some(180_000_000_000),
            artwork_url: None,
            source_url: None,
        },
        state,
        timeline: Timeline::new(0, Some(180_000_000_000), RATE_ONE_BITS, state == PlaybackState::Playing, 0),
        capabilities: Capabilities::default(),
        last_interaction: 0,
    }
}

#[test]
fn sanitize_limits() {
    assert_eq!(sanitize_string("   ", "Unknown Title"), "Unknown Title");
    assert_eq!(sanitize_string(" a ", "d"), "a ");
    assert_eq!(sanitize_string("é", "d"), "é ");
    assert_eq!(sanitize_string(" 日 ", "d"), "日 ");
    assert_eq!(sanitize_string("ab", "d"), "ab");
    assert_eq!(sanitize_string("  ok  ", "d"), "ok");
    let long = "x".repeat(200);
    assert_eq!(sanitize_string(&long, "d"), "x".repeat(128));
    let wide = "é".repeat(100);
    assert_eq!(sanitize_string(&wide, "d"), wide);
    let wider = "é".repeat(130);
    assert_eq!(sanitize_string(&wider, "d"), "é".repeat(128));
}

#[test]
fn prepare_texts() {
    assert!(PresenceSlot::prepare(None).is_none());
    assert!(PresenceSlot::prepare(Some(&session("Song", &["A"], PlaybackState::Stopped))).is_none());
    let t = PresenceSlot::prepare(Some(&session("Song", &["A", "B"], PlaybackState::Paused))).unwrap();
    assert_eq!(t.details, "Song");
    assert_eq!(t.state_text, "(paused) A, B");
    assert!(t.is_paused);
    let u = PresenceSlot::prepare(Some(&session("", &[], PlaybackState::Playing))).unwrap();
    assert_eq!(u.details, "Unknown Title");
    assert_eq!(u.state_text, "spotify");
}

#[test]
fn publish_then_repeat_is_skipped() {
    let mut slot = PresenceSlot::new(MediaKind::Music, 42);
    let text = PresenceSlot::prepare(Some(&session("Song", &["A"], PlaybackState::Playing))).unwrap();
    let p = slot.plan(&text, None, 1_000_000, 30_000_000_000, Some(180_000_000_000)).unwrap();
    assert!(p.needs_connect);
    assert_eq!(p.activity.application_id, Some(1538463485157974026));
    assert_eq!(p.activity.activity_type, ActivityType::Listening);
    let ts = p.activity.timestamps.unwrap();
    assert_eq!(ts.start, Some(970_000));
    assert_eq!(ts.end, Some(1_150_000));
    assert_eq!(
        p.activity.assets.as_ref().unwrap().large_image.as_deref(),
        Some("https://placehold.co/512x512/1a1b26/ffffff.png?text=Media")
    );
    slot.mark_connected();
    slot.finish(true, p.cache);
    assert!(slot.has_active_presence);
    assert!(slot.plan(&text, None, 1_001_500, 30_000_000_000, Some(180_000_000_000)).is_none());
    let later = slot.plan(&text, None, 1_003_000, 30_000_000_000, Some(180_000_000_000)).unwrap();
    assert!(!later.needs_connect);
    assert!(slot.clear_needed());
    slot.cleared();
    assert!(!slot.clear_needed());
    assert!(slot.last_activity.is_none());
}

#[test]
fn repeat_needs_no_room_for_an_end_time() {
    let mut slot = PresenceSlot::new(MediaKind::Music, 7);
    let text = PresenceSlot::prepare(Some(&session("Song", &["A"], PlaybackState::Playing))).unwrap();
    assert!(!slot.repeats(&text, &None, u64::MAX, 0));
    let p = slot.plan(&text, None, 1_000, 0, None).unwrap();
    slot.mark_connected();
    slot.finish(true, p.cache);
    assert!(slot.repeats(&text, &None, 2_500, 0));
    assert!(!slot.repeats(&text, &None, 3_000, 0));
    assert!(!slot.repeats(&text, &Some("https://x/y.png".to_string()), 1_000, 0));
    let huge = Some(u128::MAX);
    assert!(slot.plan(&text, None, 1_000, 0, huge).is_none());
}

#[test]
fn failed_send_drops_connection() {
    let mut slot = PresenceSlot::new(MediaKind::Video, 1);
    let text = PresenceSlot::prepare(Some(&session("Clip", &[], PlaybackState::Paused))).unwrap();
    let p = slot.plan(&text, Some("https://x/y.png".to_string()), 5, 0, None).unwrap();
    assert!(p.activity.timestamps.is_none());
    assert_eq!(p.activity.activity_type, ActivityType::Watching);
    slot.mark_connected();
    slot.finish(false, p.cache);
    assert!(!slot.connected);
    assert!(!slot.has_active_presence);
}

#[test]
fn bridge_has_two_slots() {
    let b = DiscordBridge::new(9);
    assert_eq!(b.music_slot.kind, MediaKind::Music);
    assert_eq!(b.video_slot.kind, MediaKind::Video);
    assert_eq!(MediaKind::Video.discord_app_id(), 1538492070769987634);
}

#[test]
fn every_step_keeps_the_slot_invariant() {
    let mut slot = PresenceSlot::new(MediaKind::Music, 3);
    let text = PresenceSlot::prepare(Some(&session("Song", &["A"], PlaybackState::Playing))).unwrap();
    let p = slot.plan(&text, None, 10_000, 0, None).unwrap();
    slot.mark_connected();
    assert!(slot.connected && !slot.has_active_presence && slot.last_activity.is_none());
    slot.finish(true, p.cache);
    assert!(slot.connected && slot.has_active_presence && slot.last_activity.is_some());
    slot.cleared();
    assert!(slot.connected && !slot.has_active_presence && slot.last_activity.is_none());
    let q = slot.plan(&text, None, 20_000, 0, None).unwrap();
    assert!(!q.needs_connect);
    slot.finish(false, q.cache);
    assert!(!slot.connected && !slot.has_active_presence && slot.last_activity.is_none());
}
