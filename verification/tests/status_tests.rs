use rain_status::media::session::MediaSession;
use rain_status::media::timeline::{Timeline, RATE_ONE_BITS};
use rain_status::media::track::{Capabilities, MediaTrack, PlaybackState};
use rain_status::status::artwork::{
    after_deezer, after_itunes, artwork_query, deezer_artwork, deezer_search_url, extract_youtube_id,
    itunes_artwork, itunes_search_url, ArtworkResolver, ArtworkStep, Fallback,
};
use rain_status::status::classifier::MediaKind;

fn session(id: &str, source: &str, url: Option<&str>, album: Option<&str>) -> MediaSession {
    MediaSession {
        id: id.to_string(),
        source_name: source.to_string(),
        track: MediaTrack {
            title: "Track".to_string(),
            artists: vec!["Artist".to_string()],
            album: album.map(|a| a.to_string()),
            duration: None,
            artwork_url: None,
            source_url: url.map(|u| u.to_string()),
        },
        state: PlaybackState::Playing,
        timeline: Timeline::new(0, None, RATE_ONE_BITS, true, 0),
        capabilities: Capabilities::default(),
        last_interaction: 0,
    }
}

#[test]
fn classify_by_site_and_player() {
    let c = |s: &MediaSession| MediaKind::classify_session(s);
    assert_eq!(c(&session("extension:tab:1", "music.youtube.com", Some("https://music.youtube.com/watch?v=1"), None)), MediaKind::Music);
    assert_eq!(c(&session("extension:tab:1", "youtube.com", Some("https://www.youtube.com/watch?v=1"), None)), MediaKind::Video);
    assert_eq!(c(&session("org.mpris.MediaPlayer2.Spotify", "x", None, None)), MediaKind::Music);
    assert_eq!(c(&session("org.mpris.MediaPlayer2.mpv", "mpv", None, Some("Album"))), MediaKind::Video);
    assert_eq!(c(&session("org.mpris.MediaPlayer2.chromium", "chromium", None, Some("Album"))), MediaKind::Music);
    assert_eq!(c(&session("org.mpris.MediaPlayer2.chromium", "chromium", None, Some("  "))), MediaKind::Video);
    assert_eq!(c(&session("a", "TWITCH.TV", None, None)), MediaKind::Video);
    assert_eq!(c(&session("a", "b", Some("https://youtu.be/x"), None)), MediaKind::Video);
}

#[test]
fn youtube_ids() {
    assert_eq!(extract_youtube_id("https://www.youtube.com/watch?t=3&v=dQw4w9WgXcQ&v=zz").as_deref(), Some("dQw4w9WgXcQ"));
    assert_eq!(extract_youtube_id("https://youtu.be/abc123?t=1").as_deref(), Some("abc123"));
    assert_eq!(extract_youtube_id("https://vimeo.com/1"), None);
    assert_eq!(extract_youtube_id("https://www.youtube.com/feed"), None);
    assert_eq!(extract_youtube_id("nonsense"), None);
}

#[test]
fn resolver_steps() {
    let mut r = ArtworkResolver::new();
    let mut s = session("a", "b", None, None);
    s.track.artwork_url = Some("http://img/x.png".to_string());
    assert!(matches!(r.resolve(&s), ArtworkStep::Ready(Some(ref u)) if u == "http://img/x.png"));
    s.track.artwork_url = Some("file:///tmp/x.png".to_string());
    s.track.source_url = Some("https://youtu.be/vid".to_string());
    assert!(matches!(r.resolve(&s), ArtworkStep::Ready(Some(ref u)) if u == "https://i.ytimg.com/vi/vid/hqdefault.jpg"));
    s.track.source_url = None;
    s.track.title = "  Song ".to_string();
    let key = match r.resolve(&s) {
        ArtworkStep::Lookup { key, artist, title } => {
            assert_eq!(artist, "Artist");
            assert_eq!(title, "Song");
            key
        }
        other => panic!("unexpected {:?}", other),
    };
    assert_eq!(key, "Artist:Song");
    r.remember(key, None);
    assert!(matches!(r.resolve(&s), ArtworkStep::Ready(None)));
    s.track.title = " ".to_string();
    assert!(matches!(r.resolve(&s), ArtworkStep::Ready(None)));
}

#[test]
fn lookup_urls() {
    assert_eq!(artwork_query("", "  "), None);
    assert_eq!(artwork_query("", "Song").as_deref(), Some("Song"));
    let q = artwork_query("Sigur Rós", "Hoppípolla & more").unwrap();
    assert_eq!(
        itunes_search_url(&q),
        "https://itunes.apple.com/search?term=Sigur%20R%C3%B3s%20Hopp%C3%ADpolla%20%26%20more&entity=song&limit=1"
    );
    assert_eq!(deezer_search_url("a-b_c.d~e"), "https://api.deezer.com/search?q=a-b_c.d~e");
    assert_eq!(itunes_artwork("https://is1/100x100bb.jpg"), "https://is1/512x512bb.jpg");
    assert_eq!(deezer_artwork(None, Some("big".to_string())).as_deref(), Some("big"));
    assert_eq!(deezer_artwork(Some("xl".to_string()), Some("big".to_string())).as_deref(), Some("xl"));
}

#[test]
fn timeline_positions() {
    let t = Timeline::new(10, Some(100), RATE_ONE_BITS, true, 0);
    assert_eq!(t.current_position(30), 40);
    assert_eq!(t.current_position(500), 100);
    assert_eq!(t.remaining(30), Some(60));
    assert_eq!(t.remaining(500), Some(0));
    let p = Timeline::new(10, None, RATE_ONE_BITS, false, 0);
    assert_eq!(p.current_position(30), 10);
    assert_eq!(p.remaining(30), None);
}

#[test]
fn itunes_first_then_deezer() {
    match after_itunes(Some("https://is1.mzstatic.com/a/100x100bb.jpg".to_string())) {
        Fallback::Found(url) => assert_eq!(url, "https://is1.mzstatic.com/a/512x512bb.jpg"),
        other => panic!("unexpected {:?}", other),
    }
    assert!(matches!(after_itunes(None), Fallback::AskDeezer));
    assert_eq!(
        after_deezer(Some((Some("xl".to_string()), Some("big".to_string())))),
        Some("xl".to_string())
    );
    assert_eq!(after_deezer(Some((None, Some("big".to_string())))), Some("big".to_string()));
    assert_eq!(after_deezer(Some((None, None))), None);
    assert_eq!(after_deezer(None), None);
}
