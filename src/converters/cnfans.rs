//! cnfans: links on `cnfans.com` whose path starts with `/product`. The query
//! names the item under `id` and its marketplace under `platform`.
use vstd::prelude::*;
use crate::destination::Marketplace;
use crate::error::{outcome_view, Error, Outcome};
use crate::patterns::{by_query, resolve_by_query, table_view, Table};
use crate::source_url::{SourceUrl, UrlView};
use crate::text::{has_prefix, starts_with};

verus! {

#[derive(Clone, Copy, Debug, PartialEq, Eq, Structural)]
pub struct CnFans;

impl CnFans {
    pub fn new() -> (r: Self) {
        CnFans
    }

    /// The links this strategy claims.
    pub open spec fn applies(u: UrlView) -> bool {
        u.host == Some("cnfans.com"@) && has_prefix(u.path, "/product"@)
    }

    /// The marketplace that each value of the `platform` field stands for.
    pub open spec fn table() -> Table {
        seq![("TAOBAO"@, Marketplace::Taobao), ("WEIDIAN"@, Marketplace::Weidian), ("ALI_1688"@, Marketplace::Ali1688)]
    }

    /// What a claimed link converts to.
    pub open spec fn resolution(u: UrlView) -> Outcome {
        by_query(u, "id"@, "platform"@, Self::table())
    }

    pub fn can_convert(&self, url: &SourceUrl) -> (r: bool)
        ensures
            r == Self::applies(url@),
    {
        url.host_is("cnfans.com") && starts_with(url.path.as_str(), "/product")
    }

    pub fn convert(&self, url: &SourceUrl) -> (r: Result<String, Error>)
        ensures
            outcome_view(r) == Self::resolution(url@),
    {
        let table = vec![("TAOBAO", Marketplace::Taobao), ("WEIDIAN", Marketplace::Weidian), ("ALI_1688", Marketplace::Ali1688)];
        assert(table_view(table@) =~= Self::table());
        resolve_by_query(url, "id", "platform", &table)
    }
}

} // verus!
