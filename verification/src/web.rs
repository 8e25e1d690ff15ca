use vstd::prelude::*;

verus! {

/// What the library reads of a parsed URL: its host, its query decoded as
/// `application/x-www-form-urlencoded` pairs, and its path segments (none
/// for a URL that cannot be a base).
#[derive(Debug)]
pub struct UrlParts {
    pub host: Option<String>,
    pub query_pairs: Vec<(String, String)>,
    pub path_segments: Option<Vec<String>>,
}

/// URL parts as values.
pub ghost struct UrlPartsView {
    pub host: Option<Seq<char>>,
    pub query_pairs: Seq<(Seq<char>, Seq<char>)>,
    pub path_segments: Option<Seq<Seq<char>>>,
}

impl View for UrlParts {
    type V = UrlPartsView;

    open spec fn view(&self) -> UrlPartsView {
        UrlPartsView {
            host: self.host.deep_view(),
            query_pairs: self.query_pairs.deep_view(),
            path_segments: self.path_segments.deep_view(),
        }
    }
}

/// The parts of the absolute URL that `input` spells, or nothing where
/// `url::Url::parse` rejects it.
pub uninterp spec fn parsed_url(input: Seq<char>) -> Option<UrlPartsView>;

/// `url::Url::parse`, with `host_str`, `query_pairs` and `path_segments`
/// read off the result. What parsing yields is left to the name
/// `parsed_url`: the result is claimed to depend on the input alone.
#[verifier::external_body]
pub(crate) fn parse_url(input: &str) -> (r: Option<UrlParts>)
    ensures
        (match r {
            Some(p) => Some(p@),
            None => None,
        }) == parsed_url(input@),
{
    let u = url::Url::parse(input).ok()?;
    Some(UrlParts {
        host: u.host_str().map(|h| h.to_string()),
        query_pairs: u.query_pairs().map(|(k, v)| (k.into_owned(), v.into_owned())).collect(),
        path_segments: u.path_segments().map(|s| s.map(|x| x.to_string()).collect()),
    })
}

} // verus!
