//! cssbuy: the item id sits in the path, in one of three fixed forms.
use vstd::prelude::*;
use crate::destination::{canonical, canonical_url, Marketplace};
use crate::error::{outcome_view, Error, ErrorView, Outcome};
use crate::patterns::{affix_number, affix_number_exec};
use crate::source_url::{SourceUrl, UrlView};
use crate::text::{has_prefix, starts_with};

verus! {

#[derive(Clone, Copy, Debug, PartialEq, Eq, Structural)]
pub struct CSSBuy;

impl CSSBuy {
    pub fn new() -> (r: Self) {
        CSSBuy
    }

    /// The links this strategy claims.
    pub open spec fn applies(u: UrlView) -> bool {
        u.host == Some("www.cssbuy.com"@) && has_prefix(u.path, "/item-"@)
    }

    /// What a claimed link converts to: `/item-{id}.html` is a Taobao item,
    /// `/item-micro-{id}.html` a Weidian one and `/item-1688-{id}.html` a
    /// 1688 one, tried in that order.
    pub open spec fn resolution(u: UrlView) -> Outcome {
        match affix_number(u.path, "/item-"@, ".html"@) {
            Some(id) => Ok(canonical_url(Marketplace::Taobao, id)),
            None => match affix_number(u.path, "/item-micro-"@, ".html"@) {
                Some(id) => Ok(canonical_url(Marketplace::Weidian, id)),
                None => match affix_number(u.path, "/item-1688-"@, ".html"@) {
                    Some(id) => Ok(canonical_url(Marketplace::Ali1688, id)),
                    None => Err(ErrorView::NonConvertableUrl(u.text)),
                },
            },
        }
    }

    pub fn can_convert(&self, url: &SourceUrl) -> (r: bool)
        ensures
            r == Self::applies(url@),
    {
        url.host_is("www.cssbuy.com") && starts_with(url.path.as_str(), "/item-")
    }

    pub fn convert(&self, url: &SourceUrl) -> (r: Result<String, Error>)
        ensures
            outcome_view(r) == Self::resolution(url@),
    {
        let path = url.path.as_str();
        if let Some(id) = affix_number_exec(path, "/item-", ".html") {
            return Ok(canonical(Marketplace::Taobao, id));
        }
        if let Some(id) = affix_number_exec(path, "/item-micro-", ".html") {
            return Ok(canonical(Marketplace::Weidian, id));
        }
        if let Some(id) = affix_number_exec(path, "/item-1688-", ".html") {
            return Ok(canonical(Marketplace::Ali1688, id));
        }
        Err(Error::non_convertable(url.serialization.as_str()))
    }
}

} // verus!
