use rain_status::keyed::KeyedList;
use rain_status::mpris::metadata::{unwrap_value, MetaValue, Metadata, MprisMetadata, Rating};
use rain_status::mpris::types::{LoopStatus, PlaybackStatus, MPRIS_PATH, MPRIS_PREFIX};

fn s(x: &str) -> MetaValue {
    MetaValue::Str(x.to_string())
}

#[test]
fn reads_fields() {
    let mut m: Metadata = KeyedList::new();
    m.insert("mpris:trackid".to_string(), MetaValue::ObjectPath("/org/track/1".to_string()));
    m.insert("xesam:title".to_string(), s("Title"));
    m.insert("xesam:artist".to_string(), s("Solo"));
    m.insert("xesam:albumArtist".to_string(), MetaValue::Array(vec![]));
    m.insert("xesam:genre".to_string(), MetaValue::Array(vec![MetaValue::Value(Box::new(s("Rock"))), s("Pop")]));
    m.insert("mpris:length".to_string(), MetaValue::F64 { bits: 2.5e6f64.to_bits(), whole: Some(2_500_000) });
    m.insert("xesam:trackNumber".to_string(), MetaValue::U64(7));
    m.insert("xesam:discNumber".to_string(), MetaValue::I64(1 << 40));
    m.insert("xesam:lyrics".to_string(), s("la la"));
    m.insert("xesam:userRating".to_string(), MetaValue::I32(4));
    m.insert("xesam:url".to_string(), s("https://x"));
    let md = MprisMetadata::from_metadata(&m);
    assert_eq!(md.track_id.as_deref(), Some("/org/track/1"));
    assert_eq!(md.title, "Title");
    assert_eq!(md.artist, vec!["Solo".to_string()]);
    assert!(md.album_artist.is_empty());
    assert_eq!(md.genre, vec!["Rock".to_string(), "Pop".to_string()]);
    assert_eq!(md.length, Some(2_500_000_000));
    assert_eq!(md.track_number, Some(7));
    assert_eq!(md.disc_number, None);
    assert_eq!(md.lyrics.as_deref(), Some("la la"));
    assert_eq!(md.user_rating, Some(Rating::Int(4)));
    assert_eq!(md.album, "");
    assert!(!md.is_empty());
}

#[test]
fn empty_metadata() {
    let m: Metadata = KeyedList::new();
    let md = MprisMetadata::from_metadata(&m);
    assert!(md.is_empty());
    assert_eq!(md.length, None);
    let mut n: Metadata = KeyedList::new();
    n.insert("xesam:artist".to_string(), s("   "));
    n.insert("mpris:length".to_string(), MetaValue::I64(-1));
    let mdn = MprisMetadata::from_metadata(&n);
    assert!(mdn.artist.is_empty());
    assert_eq!(mdn.length, None);
}

#[test]
fn later_insert_replaces() {
    let mut m: Metadata = KeyedList::new();
    m.insert("xesam:title".to_string(), s("A"));
    m.insert("xesam:title".to_string(), s("B"));
    assert_eq!(m.len(), 1);
    assert_eq!(MprisMetadata::from_metadata(&m).title, "B");
}

#[test]
fn nested_values_unwrap() {
    let v = MetaValue::Value(Box::new(MetaValue::Value(Box::new(MetaValue::U32(5)))));
    assert!(matches!(unwrap_value(&v), MetaValue::U32(5)));
}

#[test]
fn status_names() {
    assert_eq!(PlaybackStatus::Playing.as_str(), "Playing");
    assert_eq!(PlaybackStatus::from_name("Paused"), PlaybackStatus::Paused);
    assert_eq!(PlaybackStatus::from_name("playing"), PlaybackStatus::Stopped);
    assert_eq!("Playing".parse::<PlaybackStatus>().unwrap(), PlaybackStatus::Playing);
    assert_eq!(LoopStatus::NoLoop.as_str(), "None");
    assert_eq!(LoopStatus::from_name("Playlist"), LoopStatus::Playlist);
    assert_eq!("x".parse::<LoopStatus>().unwrap(), LoopStatus::NoLoop);
    assert_eq!(LoopStatus::default(), LoopStatus::NoLoop);
    assert_eq!(PlaybackStatus::default(), PlaybackStatus::Stopped);
    assert_eq!(MPRIS_PREFIX, "org.mpris.MediaPlayer2.");
    assert_eq!(MPRIS_PATH, "/org/mpris/MediaPlayer2");
}

#[test]
fn status_name_roundtrip() {
    for s in [PlaybackStatus::Playing, PlaybackStatus::Paused, PlaybackStatus::Stopped] {
        assert_eq!(PlaybackStatus::from_name(s.as_str()), s);
    }
    for s in [LoopStatus::NoLoop, LoopStatus::Track, LoopStatus::Playlist] {
        assert_eq!(LoopStatus::from_name(s.as_str()), s);
    }
}

#[test]
fn from_reads_the_same_fields() {
    let mut m: Metadata = KeyedList::new();
    m.insert("xesam:title".to_string(), s("Song"));
    m.insert("xesam:asText".to_string(), s("words"));
    m.insert("xesam:lyrics".to_string(), s("other"));
    m.insert("mpris:length".to_string(), MetaValue::U32(3));
    let md = MprisMetadata::from(&m);
    assert_eq!(md.title, "Song");
    assert_eq!(md.lyrics.as_deref(), Some("words"));
    assert_eq!(md.length, Some(3_000));
    let via_into: MprisMetadata = (&m).into();
    assert_eq!(via_into.title, md.title);
}
