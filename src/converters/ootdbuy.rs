//! ootdbuy: links on `www.ootdbuy.com` whose path starts with `/goods/details`. The query
//! names the item under `id` and its marketplace under `channel`.
use vstd::prelude::*;
use crate::destination::Marketplace;
use crate::error::{outcome_view, Error, Outcome};
use crate::patterns::{by_query, resolve_by_query, table_view, Table};
use crate::source_url::{SourceUrl, UrlView};
use crate::text::{has_prefix, starts_with};

verus! {

#[derive(Clone, Copy, Debug, PartialEq, Eq, Structural)]
pub struct OotdBuy;

impl OotdBuy {
    pub fn new() -> (r: Self) {
        OotdBuy
    }

    /// The links this strategy claims.
    pub open spec fn applies(u: UrlView) -> bool {
        u.host == Some("www.ootdbuy.com"@) && has_prefix(u.path, "/goods/details"@)
    }

    /// The marketplace that each value of the `channel` field stands for.
    pub open spec fn table() -> Table {
        seq![("TAOBAO"@, Marketplace::Taobao), ("weidian"@, Marketplace::Weidian), ("1688"@, Marketplace::Ali1688)]
    }

    /// What a claimed link converts to.
    pub open spec fn resolution(u: UrlView) -> Outcome {
        by_query(u, "id"@, "channel"@, Self::table())
    }

    pub fn can_convert(&self, url: &SourceUrl) -> (r: bool)
        ensures
            r == Self::applies(url@),
    {
        url.host_is("www.ootdbuy.com") && starts_with(url.path.as_str(), "/goods/details")
    }

    pub fn convert(&self, url: &SourceUrl) -> (r: Result<String, Error>)
        ensures
            outcome_view(r) == Self::resolution(url@),
    {
        let table = vec![("TAOBAO", Marketplace::Taobao), ("weidian", Marketplace::Weidian), ("1688", Marketplace::Ali1688)];
        assert(table_view(table@) =~= Self::table());
        resolve_by_query(url, "id", "channel", &table)
    }
}

} // verus!
