use vstd::prelude::*;
use vstd::utf8::encode_utf8;

use crate::keyed::KeyedList;
use crate::media::session::{MediaSession, SessionView};
use crate::media::track::{copy_opt, copy_string};
use crate::mpris::metadata::or_empty;
use crate::text::{
    begins, chars_of, concat, contains, has, replace, replace_all, same, starts_with,
    string_of, trim, trimmed,
};
use crate::web::{parse_url, parsed_url, UrlParts, UrlPartsView};

verus! {

/// A byte that percent-encoding keeps: ASCII letters and digits, `-`, `.`,
/// `_` and `~`.
pub open spec fn unreserved(b: u8) -> bool {
    (48 <= b <= 57) || (65 <= b <= 90) || (97 <= b <= 122) || b == 45 || b == 46 || b == 95
        || b == 126
}

/// The upper-case hex digit for `d < 16`.
pub open spec fn hex_digit(d: u8) -> char {
    if d < 10 {
        ((48 + d) as u8) as char
    } else {
        ((55 + d) as u8) as char
    }
}

/// Percent-encoding of bytes: kept bytes as they are, every other byte as
/// `%` and two upper-case hex digits.
pub open spec fn percent_bytes(bytes: Seq<u8>) -> Seq<char>
    decreases bytes.len(),
{
    if bytes.len() == 0 {
        Seq::empty()
    } else {
        let b = bytes[0];
        (if unreserved(b) {
            seq![b as char]
        } else {
            seq!['%', hex_digit(b >> 4u8), hex_digit(b & 15u8)]
        }) + percent_bytes(bytes.drop_first())
    }
}

/// Percent-encoding of a string's UTF-8 bytes.
pub open spec fn url_encoded(s: Seq<char>) -> Seq<char> {
    percent_bytes(encode_utf8(s))
}

/// `urlencoding::encode`: percent-encodes every byte of the UTF-8 text
/// except ASCII alphanumerics and `-`, `_`, `.`, `~`, with upper-case hex
/// digits, as its documentation and source state.
#[verifier::external_body]
fn url_encode(s: &str) -> (r: String)
    ensures
        r@ == url_encoded(s@),
{
    urlencoding::encode(s).into_owned()
}

/// The value of the first query pair named `key`.
pub open spec fn first_value(pairs: Seq<(Seq<char>, Seq<char>)>, key: Seq<char>) -> Option<
    Seq<char>,
>
    decreases pairs.len(),
{
    if pairs.len() == 0 {
        None
    } else if pairs[0].0 == key {
        Some(pairs[0].1)
    } else {
        first_value(pairs.drop_first(), key)
    }
}

/// The YouTube video id of a parsed URL: the `v` query value on a
/// youtube.com host, the first path segment on youtu.be.
pub open spec fn youtube_id_of(parts: Option<UrlPartsView>) -> Option<Seq<char>> {
    match parts {
        Some(p) => match p.host {
            Some(h) => if contains(h, "youtube.com"@) {
                first_value(p.query_pairs, "v"@)
            } else if h == "youtu.be"@ {
                match p.path_segments {
                    Some(segs) => if segs.len() > 0 {
                        Some(segs[0])
                    } else {
                        None
                    },
                    None => None,
                }
            } else {
                None
            },
            None => None,
        },
        None => None,
    }
}

/// The YouTube video id in a URL.
pub open spec fn youtube_id(url: Seq<char>) -> Option<Seq<char>> {
    youtube_id_of(parsed_url(url))
}

/// The video id, given what a URL parsed into (nothing where it did not).
pub fn youtube_id_from(parts: Option<&UrlParts>) -> (r: Option<String>)
    ensures
        r.deep_view() == youtube_id_of(
            match parts {
                Some(p) => Some(p@),
                None => None,
            },
        ),
{
    let p = match parts {
        Some(p) => p,
        None => return None,
    };
    let host = match &p.host {
        Some(h) => chars_of(h.as_str()),
        None => return None,
    };
    if has(host.as_slice(), chars_of("youtube.com").as_slice()) {
        let key = chars_of("v");
        let mut k: usize = 0;
        assert(p@.query_pairs.skip(0) =~= p@.query_pairs);
        while k < p.query_pairs.len()
            invariant
                k <= p.query_pairs@.len(),
                key@ == "v"@,
                youtube_id_of(
                    match parts {
                        Some(q) => Some(q@),
                        None => None,
                    },
                ) == first_value(p@.query_pairs, "v"@),
                first_value(p@.query_pairs, "v"@) == first_value(
                    p@.query_pairs.skip(k as int),
                    "v"@,
                ),
            decreases p.query_pairs.len() - k,
        {
            let pair = &p.query_pairs[k];
            assert(p@.query_pairs.skip(k as int)[0] == (pair.0@, pair.1@));
            if same(chars_of(pair.0.as_str()).as_slice(), key.as_slice()) {
                let found = copy_string(&pair.1);
                assert(first_value(p@.query_pairs.skip(k as int), "v"@) == Some(pair.1@));
                return Some(found);
            }
            assert(p@.query_pairs.skip(k as int).drop_first() =~= p@.query_pairs.skip(k + 1));
            k = k + 1;
        }
        assert(p@.query_pairs.skip(k as int) =~= Seq::<(Seq<char>, Seq<char>)>::empty());
        None
    } else if same(host.as_slice(), chars_of("youtu.be").as_slice()) {
        match &p.path_segments {
            Some(segs) => if segs.len() > 0 {
                Some(copy_string(&segs[0]))
            } else {
                None
            },
            None => None,
        }
    } else {
        None
    }
}

/// The YouTube video id in a URL.
pub fn extract_youtube_id(url: &str) -> (r: Option<String>)
    ensures
        r.deep_view() == youtube_id(url@),
{
    let parts = parse_url(url);
    match &parts {
        Some(p) => youtube_id_from(Some(p)),
        None => youtube_id_from(None),
    }
}

/// An artwork URL that can be shown as it is.
pub open spec fn is_web_url(a: Seq<char>) -> bool {
    starts_with(a, "https://"@) || starts_with(a, "http://"@)
}

/// The thumbnail of a YouTube video.
pub open spec fn youtube_thumbnail(id: Seq<char>) -> Seq<char> {
    "https://i.ytimg.com/vi/"@ + id + "/hqdefault.jpg"@
}

/// The next step of finding a session's artwork.
#[derive(Debug)]
pub enum ArtworkStep {
    /// The answer is known.
    Ready(Option<String>),
    /// The artwork has to be looked up online by artist and title; the
    /// answer is to be remembered under `key`.
    Lookup { key: String, artist: String, title: String },
}

/// A step as values.
pub ghost enum StepView {
    Ready(Option<Seq<char>>),
    Lookup { key: Seq<char>, artist: Seq<char>, title: Seq<char> },
}

impl View for ArtworkStep {
    type V = StepView;

    open spec fn view(&self) -> StepView {
        match self {
            ArtworkStep::Ready(a) => StepView::Ready(a.deep_view()),
            ArtworkStep::Lookup { key, artist, title } => StepView::Lookup {
                key: key@,
                artist: artist@,
                title: title@,
            },
        }
    }
}

/// How a session's artwork is found, with `cache` the answers of earlier
/// lookups: a web artwork URL as it is; a YouTube thumbnail for a YouTube
/// source; nothing for a blank title; a remembered answer for the same
/// artist and title; else an online lookup.
pub open spec fn artwork_step(cache: Map<Seq<char>, Option<Seq<char>>>, s: SessionView) -> StepView {
    if s.track.artwork_url is Some && is_web_url(s.track.artwork_url->0) {
        StepView::Ready(s.track.artwork_url)
    } else if s.track.source_url is Some && youtube_id(s.track.source_url->0) is Some {
        StepView::Ready(Some(youtube_thumbnail(youtube_id(s.track.source_url->0)->0)))
    } else {
        let title = trim(s.track.title);
        let artist = or_empty(s.track.display_artist());
        if title.len() == 0 {
            StepView::Ready(None)
        } else {
            let key = artist + ":"@ + title;
            if cache.contains_key(key) {
                StepView::Ready(cache[key])
            } else {
                StepView::Lookup { key, artist, title }
            }
        }
    }
}

/// The artwork answers found so far, by "artist:title"; failed lookups are
/// remembered too.
pub struct ArtworkResolver {
    cache: KeyedList<Option<String>>,
}

impl ArtworkResolver {
    /// The remembered answers.
    pub closed spec fn cache(&self) -> Map<Seq<char>, Option<Seq<char>>> {
        self.cache@.map_values(|o: Option<String>| o.deep_view())
    }

    pub closed spec fn wf(&self) -> bool {
        self.cache.wf()
    }

    /// A resolver that remembers nothing.
    pub fn new() -> (r: Self)
        ensures
            r.wf(),
            r.cache() == Map::<Seq<char>, Option<Seq<char>>>::empty(),
    {
        let r = ArtworkResolver { cache: KeyedList::new() };
        assert(r.cache() =~= Map::<Seq<char>, Option<Seq<char>>>::empty());
        r
    }

    /// The first step of resolving a session's artwork.
    pub fn resolve(&self, session: &MediaSession) -> (r: ArtworkStep)
        requires
            self.wf(),
        ensures
            r@ == artwork_step(self.cache(), session@),
            session.track.artwork_url matches Some(a) ==> (starts_with(a@, "https://"@) || starts_with(
                a@,
                "http://"@,
            ) ==> r@ == StepView::Ready(Some(a@))),
    {
        match &session.track.artwork_url {
            Some(art) => {
                let a = chars_of(art.as_str());
                if begins(a.as_slice(), chars_of("https://").as_slice()) || begins(
                    a.as_slice(),
                    chars_of("http://").as_slice(),
                ) {
                    return ArtworkStep::Ready(Some(copy_string(art)));
                }
            },
            None => {},
        }
        match &session.track.source_url {
            Some(url) => match extract_youtube_id(url.as_str()) {
                Some(id) => {
                    let v = concat(
                        concat(
                            chars_of("https://i.ytimg.com/vi/").as_slice(),
                            chars_of(id.as_str()).as_slice(),
                        ).as_slice(),
                        chars_of("/hqdefault.jpg").as_slice(),
                    );
                    return ArtworkStep::Ready(Some(string_of(v.as_slice())));
                },
                None => {},
            },
            None => {},
        }
        let title = trimmed(chars_of(session.track.title.as_str()).as_slice());
        let artist = match session.track.display_artist() {
            Some(a) => a,
            None => String::new(),
        };
        if title.len() == 0 {
            return ArtworkStep::Ready(None);
        }
        let key = concat(
            concat(chars_of(artist.as_str()).as_slice(), chars_of(":").as_slice()).as_slice(),
            title.as_slice(),
        );
        match self.cache.get(key.as_slice()) {
            Some(found) => ArtworkStep::Ready(copy_opt(found)),
            None => ArtworkStep::Lookup {
                key: string_of(key.as_slice()),
                artist,
                title: string_of(title.as_slice()),
            },
        }
    }

    /// Remembers the answer of a lookup, found or not.
    pub fn remember(&mut self, key: String, found: Option<String>)
        requires
            old(self).wf(),
        ensures
            final(self).wf(),
            final(self).cache() == old(self).cache().insert(key@, found.deep_view()),
    {
        let ghost k = key@;
        let ghost f = found.deep_view();
        self.cache.insert(key, found);
        assert(self.cache() =~= old(self).cache().insert(k, f));
    }
}

/// The search text of an online lookup: artist and title with a space
/// between, trimmed; nothing where that is empty.
pub open spec fn query_of(artist: Seq<char>, title: Seq<char>) -> Option<Seq<char>> {
    let q = trim(artist + " "@ + title);
    if q.len() == 0 {
        None
    } else {
        Some(q)
    }
}

/// The search text for an online lookup.
pub fn artwork_query(artist: &str, title: &str) -> (r: Option<String>)
    ensures
        r.deep_view() == query_of(artist@, title@),
{
    let joined = concat(
        concat(chars_of(artist).as_slice(), chars_of(" ").as_slice()).as_slice(),
        chars_of(title).as_slice(),
    );
    let q = trimmed(joined.as_slice());
    if q.len() == 0 {
        None
    } else {
        Some(string_of(q.as_slice()))
    }
}

/// The iTunes search for one song.
pub open spec fn itunes_url(query: Seq<char>) -> Seq<char> {
    "https://itunes.apple.com/search?term="@ + url_encoded(query) + "&entity=song&limit=1"@
}

/// The Deezer search.
pub open spec fn deezer_url(query: Seq<char>) -> Seq<char> {
    "https://api.deezer.com/search?q="@ + url_encoded(query)
}

/// The iTunes search URL for a query.
pub fn itunes_search_url(query: &str) -> (r: String)
    ensures
        r@ == itunes_url(query@),
{
    let enc = url_encode(query);
    let v = concat(
        concat(
            chars_of("https://itunes.apple.com/search?term=").as_slice(),
            chars_of(enc.as_str()).as_slice(),
        ).as_slice(),
        chars_of("&entity=song&limit=1").as_slice(),
    );
    string_of(v.as_slice())
}

/// The Deezer search URL for a query.
pub fn deezer_search_url(query: &str) -> (r: String)
    ensures
        r@ == deezer_url(query@),
{
    let enc = url_encode(query);
    let v = concat(
        chars_of("https://api.deezer.com/search?q=").as_slice(),
        chars_of(enc.as_str()).as_slice(),
    );
    string_of(v.as_slice())
}

/// An iTunes cover URL at 512x512 instead of 100x100.
pub open spec fn itunes_large(art: Seq<char>) -> Seq<char> {
    replace(art, "100x100bb.jpg"@, "512x512bb.jpg"@)
}

/// The large version of an iTunes cover.
pub fn itunes_artwork(art: &str) -> (r: String)
    ensures
        r@ == itunes_large(art@),
{
    let from = chars_of("100x100bb.jpg");
    proof {
        reveal_strlit("100x100bb.jpg");
    }
    let v = replace_all(chars_of(art).as_slice(), from.as_slice(), chars_of("512x512bb.jpg").as_slice());
    string_of(v.as_slice())
}

/// A Deezer album's cover: the extra large one, else the big one.
pub fn deezer_artwork(cover_xl: Option<String>, cover_big: Option<String>) -> (r: Option<String>)
    ensures
        r.deep_view() == (match cover_xl.deep_view() {
            Some(x) => Some(x),
            None => cover_big.deep_view(),
        }),
{
    match cover_xl {
        Some(x) => Some(x),
        None => cover_big,
    }
}

/// What the iTunes reply leaves to do: the artwork is found, or the Deezer
/// lookup follows.
#[derive(Debug)]
pub enum Fallback {
    Found(String),
    AskDeezer,
}

/// Decides on the iTunes reply, given the artwork of its first result
/// (nothing where the request or its decoding failed, no result came, or
/// the first has no artwork): a found cover is taken at 512x512, and only
/// where none was found is Deezer asked.
pub fn after_itunes(first_art: Option<String>) -> (r: Fallback)
    ensures
        match first_art {
            Some(a) => r matches Fallback::Found(u) && u@ == itunes_large(a@),
            None => r is AskDeezer,
        },
{
    match first_art {
        Some(a) => Fallback::Found(itunes_artwork(a.as_str())),
        None => Fallback::AskDeezer,
    }
}

/// Decides on the Deezer reply, given the covers of its first result's
/// album (nothing where the request or its decoding failed, no result
/// came, or the first has no album): the album's cover, else nothing.
pub fn after_deezer(first_album: Option<(Option<String>, Option<String>)>) -> (r: Option<String>)
    ensures
        r.deep_view() == (match first_album {
            Some((xl, big)) => match xl.deep_view() {
                Some(x) => Some(x),
                None => big.deep_view(),
            },
            None => None,
        }),
{
    match first_album {
        Some((xl, big)) => deezer_artwork(xl, big),
        None => None,
    }
}

/// An artwork URL on the web (`https://` or `http://`) is shown as it is,
/// whatever the answers remembered and wherever the media comes from.
pub proof fn law_web_artwork_used_as_is(
    cache: Map<Seq<char>, Option<Seq<char>>>,
    s: SessionView,
    a: Seq<char>,
)
    requires
        s.track.artwork_url == Some(a),
        starts_with(a, "https://"@) || starts_with(a, "http://"@),
    ensures
        artwork_step(cache, s) == StepView::Ready(Some(a)),
{
}

/// An online lookup is asked for only where no artwork is at hand: the
/// session has no web artwork URL, and it is for the session's trimmed
/// title, which is not blank.
pub proof fn law_lookup_only_without_artwork(cache: Map<Seq<char>, Option<Seq<char>>>, s: SessionView)
    requires
        artwork_step(cache, s) is Lookup,
    ensures
        !(s.track.artwork_url matches Some(a) && (starts_with(a, "https://"@) || starts_with(
            a,
            "http://"@,
        ))),
        artwork_step(cache, s)->Lookup_title == trim(s.track.title),
        trim(s.track.title).len() > 0,
        !cache.contains_key(artwork_step(cache, s)->Lookup_key),
{
}

/// Looked-up answers are remembered, failed ones included: once the answer
/// to a lookup is stored under its key, the same session resolves to it
/// without another lookup.
pub proof fn law_lookup_remembered(
    cache: Map<Seq<char>, Option<Seq<char>>>,
    s: SessionView,
    found: Option<Seq<char>>,
)
    requires
        artwork_step(cache, s) is Lookup,
    ensures
        artwork_step(cache.insert(artwork_step(cache, s)->key, found), s) == StepView::Ready(found),
{
}

} // verus!
