//! oopbuy: the path reads `/product/{shop type}/{id}`.
use vstd::prelude::*;
use crate::destination::{canonical, canonical_url, Marketplace};
use crate::error::{outcome_view, Error, ErrorView, Outcome};
use crate::patterns::{lookup, lookup_exec, path_segments, split_segments, strs_view, table_view, Table};
use crate::source_url::{SourceUrl, UrlView};
use crate::text::{has_prefix, same_text, starts_with};

verus! {

#[derive(Clone, Copy, Debug, PartialEq, Eq, Structural)]
pub struct OopBuy;

impl OopBuy {
    pub fn new() -> (r: Self) {
        OopBuy
    }

    /// The links this strategy claims.
    pub open spec fn applies(u: UrlView) -> bool {
        u.host == Some("oopbuy.com"@) && has_prefix(u.path, "/product/"@)
    }

    /// The marketplace that each shop type stands for.
    pub open spec fn table() -> Table {
        seq![("1"@, Marketplace::Taobao), ("weidian"@, Marketplace::Weidian), ("0"@, Marketplace::Ali1688)]
    }

    /// What a claimed link converts to: of the non-empty path segments the
    /// first must be `product`, the second a known shop type, and the third
    /// is the item id.
    pub open spec fn resolution(u: UrlView) -> Outcome {
        let s = path_segments(u.path);
        if s.len() >= 3 && s[0] == "product"@ {
            match lookup(Self::table(), s[1]) {
                Some(m) => Ok(canonical_url(m, s[2])),
                None => Err(ErrorView::NonConvertableUrl(u.text)),
            }
        } else {
            Err(ErrorView::NonConvertableUrl(u.text))
        }
    }

    pub fn can_convert(&self, url: &SourceUrl) -> (r: bool)
        ensures
            r == Self::applies(url@),
    {
        url.host_is("oopbuy.com") && starts_with(url.path.as_str(), "/product/")
    }

    pub fn convert(&self, url: &SourceUrl) -> (r: Result<String, Error>)
        ensures
            outcome_view(r) == Self::resolution(url@),
    {
        let segments = split_segments(url.path.as_str());
        if segments.len() < 3 {
            return Err(Error::non_convertable(url.serialization.as_str()));
        }
        assert(strs_view(segments@)[0] == segments@[0]@);
        assert(strs_view(segments@)[1] == segments@[1]@);
        assert(strs_view(segments@)[2] == segments@[2]@);
        if !same_text(segments[0], "product") {
            return Err(Error::non_convertable(url.serialization.as_str()));
        }
        let table = vec![("1", Marketplace::Taobao), ("weidian", Marketplace::Weidian), ("0", Marketplace::Ali1688)];
        assert(table_view(table@) =~= Self::table());
        match lookup_exec(&table, segments[1]) {
            Some(m) => Ok(canonical(m, segments[2])),
            None => Err(Error::non_convertable(url.serialization.as_str())),
        }
    }
}

} // verus!
