use vstd::prelude::*;

use crate::media::session::{MediaSession, SessionView};
use crate::text::{blank, chars_of, contains, has, is_blank, lower, lowercase};

verus! {

/// Which of the two presences a session belongs to.
#[derive(Clone, Copy, Debug, PartialEq, Eq, Structural)]
pub enum MediaKind {
    Music,
    Video,
}

/// `hay` contains one of the strings of `list`.
pub open spec fn contains_any(hay: Seq<char>, list: Seq<Seq<char>>) -> bool {
    exists|i: int| 0 <= i < list.len() && contains(hay, #[trigger] list[i])
}

/// The strings that character vectors hold.
pub open spec fn views(list: Seq<Vec<char>>) -> Seq<Seq<char>> {
    list.map_values(|v: Vec<char>| v@)
}

/// Sites that serve music.
pub open spec fn music_domains() -> Seq<Seq<char>> {
    seq![
        "music.youtube.com"@,
        "soundcloud.com"@,
        "spotify.com"@,
        "music.apple.com"@,
        "tidal.com"@,
        "deezer.com"@,
        "bandcamp.com"@,
        "pandora.com"@,
        "qobuz.com"@,
    ]
}

/// Desktop players that play music.
pub open spec fn music_players() -> Seq<Seq<char>> {
    seq![
        "spotify"@,
        "cider"@,
        "rhythmbox"@,
        "feishin"@,
        "amberol"@,
        "cmus"@,
        "foobar2000"@,
        "audacious"@,
        "strawberry"@,
        "clementine"@,
        "mpd"@,
        "lollypop"@,
    ]
}

/// Sites that serve video.
pub open spec fn video_domains() -> Seq<Seq<char>> {
    seq![
        "twitch.tv"@,
        "netflix.com"@,
        "bilibili.com"@,
        "crunchyroll.com"@,
        "vimeo.com"@,
        "dailymotion.com"@,
        "disneyplus.com"@,
        "primevideo.com"@,
    ]
}

/// Desktop players that play video.
pub open spec fn video_players() -> Seq<Seq<char>> {
    seq!["mpv"@, "vlc"@, "celluloid"@, "totem"@, "freetube"@, "clapper"@, "haruna"@]
}

/// Where the session's media comes from, lower-cased ("" where unknown).
pub open spec fn url_of(s: SessionView) -> Seq<char> {
    match s.track.source_url {
        Some(u) => lower(u),
        None => Seq::empty(),
    }
}

/// The kind of a session: known music sites and players first, then known
/// video sites and players, then YouTube by its host, then a session with an
/// album counts as music; everything else is video.
pub open spec fn classify(s: SessionView) -> MediaKind {
    let url = url_of(s);
    let source = lower(s.source_name);
    let id = lower(s.id);
    if contains_any(url, music_domains()) || contains_any(source, music_domains())
        || contains_any(source, music_players()) || contains_any(id, music_players()) {
        MediaKind::Music
    } else if contains_any(url, video_domains()) || contains_any(source, video_domains())
        || contains_any(source, video_players()) || contains_any(id, video_players()) {
        MediaKind::Video
    } else if contains(url, "music.youtube.com"@) {
        MediaKind::Music
    } else if contains(url, "youtube.com"@) || contains(url, "youtu.be"@) {
        MediaKind::Video
    } else if (match s.track.album {
        Some(a) => !is_blank(a),
        None => false,
    }) {
        MediaKind::Music
    } else {
        MediaKind::Video
    }
}

fn list_music_domains() -> (r: Vec<Vec<char>>)
    ensures
        views(r@) == music_domains(),
{
    let r = vec![
        chars_of("music.youtube.com"),
        chars_of("soundcloud.com"),
        chars_of("spotify.com"),
        chars_of("music.apple.com"),
        chars_of("tidal.com"),
        chars_of("deezer.com"),
        chars_of("bandcamp.com"),
        chars_of("pandora.com"),
        chars_of("qobuz.com"),
    ];
    assert(views(r@) =~= music_domains());
    r
}

fn list_music_players() -> (r: Vec<Vec<char>>)
    ensures
        views(r@) == music_players(),
{
    let r = vec![
        chars_of("spotify"),
        chars_of("cider"),
        chars_of("rhythmbox"),
        chars_of("feishin"),
        chars_of("amberol"),
        chars_of("cmus"),
        chars_of("foobar2000"),
        chars_of("audacious"),
        chars_of("strawberry"),
        chars_of("clementine"),
        chars_of("mpd"),
        chars_of("lollypop"),
    ];
    assert(views(r@) =~= music_players());
    r
}

fn list_video_domains() -> (r: Vec<Vec<char>>)
    ensures
        views(r@) == video_domains(),
{
    let r = vec![
        chars_of("twitch.tv"),
        chars_of("netflix.com"),
        chars_of("bilibili.com"),
        chars_of("crunchyroll.com"),
        chars_of("vimeo.com"),
        chars_of("dailymotion.com"),
        chars_of("disneyplus.com"),
        chars_of("primevideo.com"),
    ];
    assert(views(r@) =~= video_domains());
    r
}

fn list_video_players() -> (r: Vec<Vec<char>>)
    ensures
        views(r@) == video_players(),
{
    let r = vec![
        chars_of("mpv"),
        chars_of("vlc"),
        chars_of("celluloid"),
        chars_of("totem"),
        chars_of("freetube"),
        chars_of("clapper"),
        chars_of("haruna"),
    ];
    assert(views(r@) =~= video_players());
    r
}

/// `hay` contains one of the strings of `list`.
pub fn has_any(hay: &[char], list: &Vec<Vec<char>>) -> (r: bool)
    ensures
        r == contains_any(hay@, views(list@)),
{
    let mut i: usize = 0;
    while i < list.len()
        invariant
            i <= list@.len(),
            forall|m: int| 0 <= m < i ==> !contains(hay@, #[trigger] views(list@)[m]),
        decreases list.len() - i,
    {
        assert(views(list@)[i as int] == list@[i as int]@);
        if has(hay, list[i].as_slice()) {
            assert(contains(hay@, views(list@)[i as int]));
            return true;
        }
        i = i + 1;
    }
    false
}

impl MediaKind {
    /// The Discord application that shows presences of this kind.
    pub open spec fn app_id(self) -> u64 {
        match self {
            MediaKind::Music => 1538463485157974026,
            MediaKind::Video => 1538492070769987634,
        }
    }

    pub fn discord_app_id(self) -> (r: u64)
        ensures
            r == self.app_id(),
    {
        match self {
            MediaKind::Music => 1538463485157974026,
            MediaKind::Video => 1538492070769987634,
        }
    }

    pub fn classify_session(session: &MediaSession) -> (r: Self)
        ensures
            r == classify(session@),
    {
        let url = match &session.track.source_url {
            Some(u) => lowercase(chars_of(u.as_str()).as_slice()),
            None => Vec::new(),
        };
        let source = lowercase(chars_of(session.source_name.as_str()).as_slice());
        let id = lowercase(chars_of(session.id.as_str()).as_slice());
        assert(url@ == url_of(session@));

        let music_domains = list_music_domains();
        let music_players = list_music_players();
        if has_any(url.as_slice(), &music_domains) || has_any(source.as_slice(), &music_domains)
            || has_any(source.as_slice(), &music_players) || has_any(
            id.as_slice(),
            &music_players,
        ) {
            return MediaKind::Music;
        }
        let video_domains = list_video_domains();
        let video_players = list_video_players();
        if has_any(url.as_slice(), &video_domains) || has_any(source.as_slice(), &video_domains)
            || has_any(source.as_slice(), &video_players) || has_any(
            id.as_slice(),
            &video_players,
        ) {
            return MediaKind::Video;
        }
        if has(url.as_slice(), chars_of("music.youtube.com").as_slice()) {
            return MediaKind::Music;
        }
        if has(url.as_slice(), chars_of("youtube.com").as_slice()) || has(
            url.as_slice(),
            chars_of("youtu.be").as_slice(),
        ) {
            return MediaKind::Video;
        }
        match &session.track.album {
            Some(a) => {
                if !blank(chars_of(a.as_str()).as_slice()) {
                    return MediaKind::Music;
                }
            },
            None => {},
        }
        MediaKind::Video
    }
}


/// Media from music.youtube.com is always music.
pub proof fn law_youtube_music_is_music(s: SessionView)
    requires
        contains(url_of(s), "music.youtube.com"@),
    ensures
        classify(s) == MediaKind::Music,
{
    assert(music_domains()[0] == "music.youtube.com"@);
}

/// A session is music only for a reason: a known music site or player in
/// its URL, source or id, or else a non-blank album. So a session with no
/// album (or a blank one) that names no music site or player is video,
/// whatever else it shows.
pub proof fn law_music_needs_a_reason(s: SessionView)
    requires
        !contains_any(url_of(s), music_domains()),
        !contains_any(lower(s.source_name), music_domains()),
        !contains_any(lower(s.source_name), music_players()),
        !contains_any(lower(s.id), music_players()),
        s.track.album matches Some(a) ==> is_blank(a),
    ensures
        classify(s) == MediaKind::Video,
{
    assert(music_domains()[0] == "music.youtube.com"@);
    if contains(url_of(s), "music.youtube.com"@) {
        assert(contains_any(url_of(s), music_domains()));
    }
}

} // verus!
