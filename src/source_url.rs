//! The parts of a product link that the strategies read.
use vstd::prelude::*;
use crate::text::same_text;

verus! {

/// A parsed absolute URL, reduced to the parts that the strategies read.
#[derive(Clone, Debug)]
pub struct SourceUrl {
    /// The whole URL, as the parser serialises it.
    pub serialization: String,
    /// The host, where the URL has one.
    pub host: Option<String>,
    /// The path, starting with `/` for web URLs.
    pub path: String,
    /// The decoded query pairs, in order.
    pub query: Vec<(String, String)>,
}

/// The mathematical value of a [`SourceUrl`].
pub struct UrlView {
    pub text: Seq<char>,
    pub host: Option<Seq<char>>,
    pub path: Seq<char>,
    pub query: Seq<(Seq<char>, Seq<char>)>,
}

pub open spec fn opt_view(o: Option<String>) -> Option<Seq<char>> {
    match o {
        Some(s) => Some(s@),
        None => None,
    }
}

pub open spec fn pair_view(p: (String, String)) -> (Seq<char>, Seq<char>) {
    (p.0@, p.1@)
}

impl View for SourceUrl {
    type V = UrlView;

    open spec fn view(&self) -> UrlView {
        UrlView {
            text: self.serialization@,
            host: opt_view(self.host),
            path: self.path@,
            query: self.query@.map_values(|p: (String, String)| pair_view(p)),
        }
    }
}

/// The value of the first query pair whose key is `key`.
pub open spec fn query_value(q: Seq<(Seq<char>, Seq<char>)>, key: Seq<char>) -> Option<Seq<char>>
    decreases q.len(),
{
    if q.len() == 0 {
        None
    } else if q[0].0 == key {
        Some(q[0].1)
    } else {
        query_value(q.drop_first(), key)
    }
}

/// What the URL parser makes of a string: `None` where it is no absolute URL.
pub uninterp spec fn parsed_url(s: Seq<char>) -> Option<UrlView>;

#[verifier::external_type_specification]
#[verifier::external_body]
pub struct ExParseError(url::ParseError);

/// Relies on `url::Url::parse`, and on `as_str`, `host_str`, `path` and
/// `query_pairs` of its result: the parts depend on the input string alone.
#[verifier::external_body]
fn parse_with_url_crate(s: &str) -> (r: Result<SourceUrl, url::ParseError>)
    ensures
        match r {
            Ok(u) => parsed_url(s@) == Some(u@),
            Err(_) => parsed_url(s@) is None,
        },
{
    let u = url::Url::parse(s)?;
    Ok(SourceUrl {
        serialization: u.as_str().to_string(),
        host: u.host_str().map(|h| h.to_string()),
        path: u.path().to_string(),
        query: u.query_pairs().map(|(k, v)| (k.into_owned(), v.into_owned())).collect(),
    })
}

impl SourceUrl {
    /// Parses `s` as an absolute URL; `None` where the parser refuses it.
    pub fn parse(s: &str) -> (r: Option<SourceUrl>)
        ensures
            match r {
                Some(u) => parsed_url(s@) == Some(u@),
                None => parsed_url(s@) is None,
            },
    {
        match parse_with_url_crate(s) {
            Ok(u) => Some(u),
            Err(_) => None,
        }
    }

    /// Whether the URL's host is exactly `host`.
    pub fn host_is(&self, host: &str) -> (r: bool)
        ensures
            r == (self@.host == Some(host@)),
    {
        match &self.host {
            Some(h) => same_text(h.as_str(), host),
            None => false,
        }
    }

    /// The value of the first query pair whose key is `key`.
    pub fn query_value(&self, key: &str) -> (r: Option<&str>)
        ensures
            match r {
                Some(v) => query_value(self@.query, key@) == Some(v@),
                None => query_value(self@.query, key@) is None,
            },
    {
        let mut i: usize = 0;
        assert(self@.query.subrange(0, self@.query.len() as int) =~= self@.query);
        while i < self.query.len()
            invariant
                0 <= i <= self.query@.len(),
                query_value(self@.query, key@) == query_value(self@.query.subrange(i as int, self@.query.len() as int), key@),
            decreases self.query@.len() - i,
        {
            let ghost rest = self@.query.subrange(i as int, self@.query.len() as int);
            assert(rest.drop_first() =~= self@.query.subrange(i + 1, self@.query.len() as int));
            if same_text(self.query[i].0.as_str(), key) {
                return Some(self.query[i].1.as_str());
            }
            i = i + 1;
        }
        None
    }
}

} // verus!
