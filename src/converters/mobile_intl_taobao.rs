//! The international Taobao mobile site (`m.intl.taobao.com`): the link
//! itself carries `id={digits}`.
use vstd::prelude::*;
use crate::destination::{canonical, canonical_url, Marketplace};
use crate::error::{outcome_view, Error, ErrorView, Outcome};
use crate::patterns::{find_marked_number, marked_number, strs_view};
use crate::source_url::{SourceUrl, UrlView};

verus! {

#[derive(Clone, Copy, Debug, PartialEq, Eq, Structural)]
pub struct MobileIntlTaobao;

impl MobileIntlTaobao {
    pub fn new() -> (r: Self) {
        MobileIntlTaobao
    }

    /// The links this strategy claims.
    pub open spec fn applies(u: UrlView) -> bool {
        u.host == Some("m.intl.taobao.com"@)
    }

    /// What a claimed link converts to: the digits after the leftmost `id=`
    /// that has any, as a Taobao item. A link without one is not convertible.
    pub open spec fn resolution(u: UrlView) -> Outcome {
        match marked_number(u.text, seq!["id="@]) {
            Some((_, id)) => Ok(canonical_url(Marketplace::Taobao, id)),
            None => Err(ErrorView::NonConvertableUrl(u.text)),
        }
    }

    pub fn can_convert(&self, url: &SourceUrl) -> (r: bool)
        ensures
            r == Self::applies(url@),
    {
        url.host_is("m.intl.taobao.com")
    }

    pub fn convert(&self, url: &SourceUrl) -> (r: Result<String, Error>)
        ensures
            outcome_view(r) == Self::resolution(url@),
    {
        let markers = vec!["id="];
        assert(strs_view(markers@) =~= seq!["id="@]);
        match find_marked_number(url.serialization.as_str(), &markers) {
            Some((_, id)) => Ok(canonical(Marketplace::Taobao, id)),
            None => Err(Error::non_convertable(url.serialization.as_str())),
        }
    }
}

} // verus!
