use vstd::prelude::*;

use crate::keyed::KeyedList;
use crate::media::track::copy_string;
use crate::text::{blank, chars_of, is_blank};

verus! {

/// A D-Bus variant value of a player's metadata, as far as the metadata
/// is read. A double carries its bits and, where it is not negative, its
/// whole part saturated to `u64` (the float conversion happens where the
/// value is received).
#[derive(Debug)]
pub enum MetaValue {
    Str(String),
    ObjectPath(String),
    Array(Vec<MetaValue>),
    I16(i16),
    U16(u16),
    I32(i32),
    U32(u32),
    I64(i64),
    U64(u64),
    F64 { bits: u64, whole: Option<u64> },
    Value(Box<MetaValue>),
    Other,
}

/// A user rating: a double (as its bits) or an integer.
#[derive(Clone, Copy, Debug, PartialEq, Eq, Structural)]
pub enum Rating {
    Float(u64),
    Int(i64),
}

/// A player's metadata map.
pub type Metadata = KeyedList<MetaValue>;

/// A value with every level of variant wrapping taken off.
pub open spec fn unwrapped(v: MetaValue) -> MetaValue
    decreases v,
{
    match v {
        MetaValue::Value(inner) => unwrapped(*inner),
        other => other,
    }
}

/// The text of a string or object path value.
pub open spec fn text_of(v: MetaValue) -> Option<Seq<char>> {
    match unwrapped(v) {
        MetaValue::Str(s) => Some(s@),
        MetaValue::ObjectPath(s) => Some(s@),
        _ => None,
    }
}

/// The texts of the string items of an array, in order.
pub open spec fn texts_of(items: Seq<MetaValue>) -> Seq<Seq<char>>
    decreases items.len(),
{
    if items.len() == 0 {
        Seq::empty()
    } else {
        let rest = texts_of(items.drop_last());
        match text_of(items.last()) {
            Some(t) => rest.push(t),
            None => rest,
        }
    }
}

/// A string value under `key`.
pub open spec fn get_string(m: Map<Seq<char>, MetaValue>, key: Seq<char>) -> Option<Seq<char>> {
    if m.contains_key(key) {
        text_of(m[key])
    } else {
        None
    }
}

/// A list of strings under `key`: the string items of an array (none if
/// it has none), or a single non-blank string.
pub open spec fn get_string_array(m: Map<Seq<char>, MetaValue>, key: Seq<char>) -> Option<
    Seq<Seq<char>>,
> {
    if m.contains_key(key) {
        match unwrapped(m[key]) {
            MetaValue::Array(items) => {
                let l = texts_of(items@);
                if l.len() == 0 {
                    None
                } else {
                    Some(l)
                }
            },
            MetaValue::Str(s) => if !is_blank(s@) {
                Some(seq![s@])
            } else {
                None
            },
            _ => None,
        }
    } else {
        None
    }
}

/// A length in microseconds under `key`, as nanoseconds.
pub open spec fn get_duration(m: Map<Seq<char>, MetaValue>, key: Seq<char>) -> Option<u128> {
    if m.contains_key(key) {
        match unwrapped(m[key]) {
            MetaValue::I64(x) => if x >= 0 {
                Some((x * 1000) as u128)
            } else {
                None
            },
            MetaValue::U64(x) => Some((x * 1000) as u128),
            MetaValue::I32(x) => if x >= 0 {
                Some((x * 1000) as u128)
            } else {
                None
            },
            MetaValue::U32(x) => Some((x * 1000) as u128),
            MetaValue::F64 { bits, whole } => match whole {
                Some(w) => Some((w * 1000) as u128),
                None => None,
            },
            _ => None,
        }
    } else {
        None
    }
}

/// A number under `key` that fits an `i32`.
pub open spec fn get_i32(m: Map<Seq<char>, MetaValue>, key: Seq<char>) -> Option<i32> {
    if m.contains_key(key) {
        match unwrapped(m[key]) {
            MetaValue::I32(x) => Some(x),
            MetaValue::U32(x) => if x <= i32::MAX {
                Some(x as i32)
            } else {
                None
            },
            MetaValue::I64(x) => if i32::MIN <= x <= i32::MAX {
                Some(x as i32)
            } else {
                None
            },
            MetaValue::U64(x) => if x <= i32::MAX {
                Some(x as i32)
            } else {
                None
            },
            MetaValue::I16(x) => Some(x as i32),
            MetaValue::U16(x) => Some(x as i32),
            _ => None,
        }
    } else {
        None
    }
}

/// A rating under `key`: a double, or a 32- or 64-bit integer.
pub open spec fn get_rating(m: Map<Seq<char>, MetaValue>, key: Seq<char>) -> Option<Rating> {
    if m.contains_key(key) {
        match unwrapped(m[key]) {
            MetaValue::F64 { bits, whole } => Some(Rating::Float(bits)),
            MetaValue::I32(x) => Some(Rating::Int(x as i64)),
            MetaValue::I64(x) => Some(Rating::Int(x)),
            _ => None,
        }
    } else {
        None
    }
}

/// The metadata fields the library reads. Lengths are in nanoseconds.
#[derive(Debug, Default)]
pub struct MprisMetadata {
    pub track_id: Option<String>,
    pub title: String,
    pub artist: Vec<String>,
    pub album: String,
    pub album_artist: Vec<String>,
    pub art_url: String,
    pub url: String,
    pub length: Option<u128>,
    pub track_number: Option<i32>,
    pub disc_number: Option<i32>,
    pub genre: Vec<String>,
    pub lyrics: Option<String>,
    pub user_rating: Option<Rating>,
}

/// Metadata fields as values.
pub ghost struct MprisMetadataView {
    pub track_id: Option<Seq<char>>,
    pub title: Seq<char>,
    pub artist: Seq<Seq<char>>,
    pub album: Seq<char>,
    pub album_artist: Seq<Seq<char>>,
    pub art_url: Seq<char>,
    pub url: Seq<char>,
    pub length: Option<u128>,
    pub track_number: Option<i32>,
    pub disc_number: Option<i32>,
    pub genre: Seq<Seq<char>>,
    pub lyrics: Option<Seq<char>>,
    pub user_rating: Option<Rating>,
}

impl View for MprisMetadata {
    type V = MprisMetadataView;

    open spec fn view(&self) -> MprisMetadataView {
        MprisMetadataView {
            track_id: self.track_id.deep_view(),
            title: self.title@,
            artist: self.artist.deep_view(),
            album: self.album@,
            album_artist: self.album_artist.deep_view(),
            art_url: self.art_url@,
            url: self.url@,
            length: self.length,
            track_number: self.track_number,
            disc_number: self.disc_number,
            genre: self.genre.deep_view(),
            lyrics: self.lyrics.deep_view(),
            user_rating: self.user_rating,
        }
    }
}

/// The value or, where there is none, the empty string.
pub open spec fn or_empty(s: Option<Seq<char>>) -> Seq<char> {
    match s {
        Some(x) => x,
        None => Seq::empty(),
    }
}

/// The list or, where there is none, the empty list.
pub open spec fn or_none(s: Option<Seq<Seq<char>>>) -> Seq<Seq<char>> {
    match s {
        Some(x) => x,
        None => Seq::empty(),
    }
}

/// The fields read from a metadata map; missing or ill-typed entries give
/// empty strings and lists, and no number.
pub open spec fn metadata_fields(m: Map<Seq<char>, MetaValue>) -> MprisMetadataView {
    MprisMetadataView {
        track_id: get_string(m, "mpris:trackid"@),
        title: or_empty(get_string(m, "xesam:title"@)),
        artist: or_none(get_string_array(m, "xesam:artist"@)),
        album: or_empty(get_string(m, "xesam:album"@)),
        album_artist: or_none(get_string_array(m, "xesam:albumArtist"@)),
        art_url: or_empty(get_string(m, "mpris:artUrl"@)),
        url: or_empty(get_string(m, "xesam:url"@)),
        length: get_duration(m, "mpris:length"@),
        track_number: get_i32(m, "xesam:trackNumber"@),
        disc_number: get_i32(m, "xesam:discNumber"@),
        genre: or_none(get_string_array(m, "xesam:genre"@)),
        lyrics: match get_string(m, "xesam:asText"@) {
            Some(t) => Some(t),
            None => get_string(m, "xesam:lyrics"@),
        },
        user_rating: get_rating(m, "xesam:userRating"@),
    }
}

impl MprisMetadataView {
    /// No title, no artist and no URL.
    pub open spec fn is_empty(self) -> bool {
        is_blank(self.title) && self.artist.len() == 0 && self.url.len() == 0
    }
}

/// The value inside all variant wrapping.
pub fn unwrap_value(v: &MetaValue) -> (r: &MetaValue)
    ensures
        *r == unwrapped(*v),
    decreases v,
{
    match v {
        MetaValue::Value(inner) => unwrap_value(inner),
        other => other,
    }
}

fn text_value(v: &MetaValue) -> (r: Option<String>)
    ensures
        r.deep_view() == text_of(*v),
{
    match unwrap_value(v) {
        MetaValue::Str(s) => Some(copy_string(s)),
        MetaValue::ObjectPath(s) => Some(copy_string(s)),
        _ => None,
    }
}

fn texts_value(items: &Vec<MetaValue>) -> (r: Vec<String>)
    ensures
        r.deep_view() == texts_of(items@),
{
    let mut r: Vec<String> = Vec::new();
    let mut k: usize = 0;
    while k < items.len()
        invariant
            k <= items@.len(),
            r.deep_view() == texts_of(items@.take(k as int)),
        decreases items.len() - k,
    {
        assert(items@.take(k + 1).drop_last() =~= items@.take(k as int));
        assert(items@.take(k + 1).last() == items@[k as int]);
        match text_value(&items[k]) {
            Some(t) => {
                let ghost before = r.deep_view();
                r.push(t);
                assert(r.deep_view() =~= before.push(t@));
            },
            None => {},
        }
        k = k + 1;
    }
    assert(items@.take(items@.len() as int) =~= items@);
    r
}

fn lookup<'a>(m: &'a Metadata, key: &str) -> (r: Option<&'a MetaValue>)
    ensures
        r is None <==> !m@.contains_key(key@),
        r matches Some(v) ==> *v == m@[key@],
{
    m.get(chars_of(key).as_slice())
}

fn read_string(m: &Metadata, key: &str) -> (r: Option<String>)
    ensures
        r.deep_view() == get_string(m@, key@),
{
    match lookup(m, key) {
        Some(v) => text_value(v),
        None => None,
    }
}

fn read_string_array(m: &Metadata, key: &str) -> (r: Option<Vec<String>>)
    ensures
        r.deep_view() == get_string_array(m@, key@),
{
    match lookup(m, key) {
        Some(v) => match unwrap_value(v) {
            MetaValue::Array(items) => {
                let l = texts_value(items);
                if l.len() == 0 {
                    None
                } else {
                    Some(l)
                }
            },
            MetaValue::Str(s) => {
                if !blank(chars_of(s.as_str()).as_slice()) {
                    let mut l: Vec<String> = Vec::new();
                    l.push(copy_string(s));
                    assert(l.deep_view() =~= seq![s@]);
                    Some(l)
                } else {
                    None
                }
            },
            _ => None,
        },
        None => None,
    }
}

fn read_duration(m: &Metadata, key: &str) -> (r: Option<u128>)
    ensures
        r == get_duration(m@, key@),
{
    match lookup(m, key) {
        Some(v) => match unwrap_value(v) {
            MetaValue::I64(x) => if *x >= 0 {
                Some((*x as u128) * 1000)
            } else {
                None
            },
            MetaValue::U64(x) => Some((*x as u128) * 1000),
            MetaValue::I32(x) => if *x >= 0 {
                Some((*x as u128) * 1000)
            } else {
                None
            },
            MetaValue::U32(x) => Some((*x as u128) * 1000),
            MetaValue::F64 { bits: _, whole } => match whole {
                Some(w) => Some((*w as u128) * 1000),
                None => None,
            },
            _ => None,
        },
        None => None,
    }
}

fn read_i32(m: &Metadata, key: &str) -> (r: Option<i32>)
    ensures
        r == get_i32(m@, key@),
{
    match lookup(m, key) {
        Some(v) => match unwrap_value(v) {
            MetaValue::I32(x) => Some(*x),
            MetaValue::U32(x) => if *x <= 0x7fff_ffff {
                Some(*x as i32)
            } else {
                None
            },
            MetaValue::I64(x) => if -0x8000_0000 <= *x && *x <= 0x7fff_ffff {
                Some(*x as i32)
            } else {
                None
            },
            MetaValue::U64(x) => if *x <= 0x7fff_ffff {
                Some(*x as i32)
            } else {
                None
            },
            MetaValue::I16(x) => Some(*x as i32),
            MetaValue::U16(x) => Some(*x as i32),
            _ => None,
        },
        None => None,
    }
}

fn read_rating(m: &Metadata, key: &str) -> (r: Option<Rating>)
    ensures
        r == get_rating(m@, key@),
{
    match lookup(m, key) {
        Some(v) => match unwrap_value(v) {
            MetaValue::F64 { bits, whole: _ } => Some(Rating::Float(*bits)),
            MetaValue::I32(x) => Some(Rating::Int(*x as i64)),
            MetaValue::I64(x) => Some(Rating::Int(*x)),
            _ => None,
        },
        None => None,
    }
}

fn string_or_empty(s: Option<String>) -> (r: String)
    ensures
        r@ == or_empty(s.deep_view()),
{
    match s {
        Some(x) => x,
        None => String::new(),
    }
}

fn strings_or_empty(s: Option<Vec<String>>) -> (r: Vec<String>)
    ensures
        r.deep_view() == or_none(s.deep_view()),
{
    match s {
        Some(x) => x,
        None => {
            let v: Vec<String> = Vec::new();
            assert(v.deep_view() =~= Seq::<Seq<char>>::empty());
            v
        },
    }
}

impl MprisMetadata {
    /// Reads the fields from a player's metadata map.
    pub fn from_metadata(metadata: &Metadata) -> (r: Self)
        ensures
            r@ == metadata_fields(metadata@),
    {
        MprisMetadata {
            track_id: read_string(metadata, "mpris:trackid"),
            title: string_or_empty(read_string(metadata, "xesam:title")),
            artist: strings_or_empty(read_string_array(metadata, "xesam:artist")),
            album: string_or_empty(read_string(metadata, "xesam:album")),
            album_artist: strings_or_empty(read_string_array(metadata, "xesam:albumArtist")),
            art_url: string_or_empty(read_string(metadata, "mpris:artUrl")),
            url: string_or_empty(read_string(metadata, "xesam:url")),
            length: read_duration(metadata, "mpris:length"),
            track_number: read_i32(metadata, "xesam:trackNumber"),
            disc_number: read_i32(metadata, "xesam:discNumber"),
            genre: strings_or_empty(read_string_array(metadata, "xesam:genre")),
            lyrics: match read_string(metadata, "xesam:asText") {
                Some(t) => Some(t),
                None => read_string(metadata, "xesam:lyrics"),
            },
            user_rating: read_rating(metadata, "xesam:userRating"),
        }
    }

    pub fn is_empty(&self) -> (r: bool)
        ensures
            r == self@.is_empty(),
    {
        blank(chars_of(self.title.as_str()).as_slice()) && self.artist.len() == 0
            && self.url.as_str().is_empty()
    }
}

/// MPRIS gives a track's length in microseconds and the library keeps
/// nanoseconds: a whole-number length `x` that is not negative, of any of
/// the integer types players send, reads as `x * 1000`; a negative one
/// reads as no length, and so does a missing one.
pub proof fn law_length_in_nanoseconds(m: Map<Seq<char>, MetaValue>)
    ensures
        m.contains_key("mpris:length"@) ==> (m["mpris:length"@] matches MetaValue::U64(x) ==> (metadata_fields(
            m,
        ).length == Some((x * 1000) as u128))),
        m.contains_key("mpris:length"@) ==> (m["mpris:length"@] matches MetaValue::U32(x) ==> (metadata_fields(
            m,
        ).length == Some((x * 1000) as u128))),
        m.contains_key("mpris:length"@) ==> (m["mpris:length"@] matches MetaValue::I64(x) ==> (metadata_fields(
            m,
        ).length == if x >= 0 {
            Some((x * 1000) as u128)
        } else {
            None
        })),
        m.contains_key("mpris:length"@) ==> (m["mpris:length"@] matches MetaValue::I32(x) ==> (metadata_fields(
            m,
        ).length == if x >= 0 {
            Some((x * 1000) as u128)
        } else {
            None
        })),
        !m.contains_key("mpris:length"@) ==> metadata_fields(m).length is None,
{
}

impl<'a> From<&'a Metadata> for MprisMetadata {
    /// Reads the fields from a player's metadata map, as `from_metadata`.
    fn from(metadata: &'a Metadata) -> (r: Self)
        ensures
            r@ == metadata_fields(metadata@),
    {
        Self::from_metadata(metadata)
    }
}

/// The result of `from` is stated on the method itself, over the view: a
/// spec function cannot name the very `String`s and `Vec`s it returns, so
/// no value is offered here for `from_spec` to stand for.
impl<'a> vstd::std_specs::convert::FromSpecImpl<&'a Metadata> for MprisMetadata {
    open spec fn obeys_from_spec() -> bool {
        false
    }

    open spec fn from_spec(v: &'a Metadata) -> Self {
        arbitrary()
    }
}

} // verus!
