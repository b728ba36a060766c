//! Taobao short links (`m.tb.cn`): where they lead names the item or the
//! shop, in the text of the page or in the final URL.
use vstd::prelude::*;
use crate::destination::{canonical, canonical_url, shop_url, taobao_shop, Marketplace};
use crate::error::{outcome_view, Error, ErrorView, Outcome};
use crate::live::{LiveKind, LiveRequest};
use crate::patterns::{find_marked_number, marked_number, strs_view};
use crate::source_url::{SourceUrl, UrlView};

verus! {

#[derive(Clone, Copy, Debug, PartialEq, Eq, Structural)]
pub struct MobileTaobao;

impl MobileTaobao {
    pub fn new() -> (r: Self) {
        MobileTaobao
    }

    /// The links this strategy claims.
    pub open spec fn applies(u: UrlView) -> bool {
        u.host == Some("m.tb.cn"@)
    }

    /// The item or shop that `text` names: at the leftmost `itemId={digits}`
    /// or `shop{digits}`, a Goofish item or a Taobao shop. Ids are runs of
    /// ASCII digits.
    pub open spec fn marked_in(text: Seq<char>) -> Option<Seq<char>> {
        match marked_number(text, seq!["itemId="@, "shop"@]) {
            Some((k, id)) => if k == 0 {
                Some(canonical_url(Marketplace::Goofish, id))
            } else {
                Some(shop_url(id))
            },
            None => None,
        }
    }

    /// What `url` converts to, given the final URL `final_url` that a GET of
    /// it ends on and the page text `body` found there: both carriers are
    /// scanned, the page text first. Where neither names an item or a shop,
    /// the lookup failed.
    pub open spec fn page_resolution(url: Seq<char>, final_url: Seq<char>, body: Seq<char>) -> Outcome {
        match Self::marked_in(body) {
            Some(r) => Ok(r),
            None => match Self::marked_in(final_url) {
                Some(r) => Ok(r),
                None => Err(ErrorView::FailedToRedirectUrl(url)),
            },
        }
    }

    pub fn can_convert(&self, url: &SourceUrl) -> (r: bool)
        ensures
            r == Self::applies(url@),
    {
        url.host_is("m.tb.cn")
    }

    /// The lookup that a claimed link needs: where a GET of it ends, and the
    /// text of the page there.
    pub fn convert(&self, url: &SourceUrl) -> (r: LiveRequest)
        ensures
            r.kind == LiveKind::PageBody,
            r.url@ == url@.text,
    {
        LiveRequest { kind: LiveKind::PageBody, url: url.serialization.clone() }
    }

    /// Finds the item or shop that `text` names, as [`Self::marked_in`] says.
    fn find_marked(text: &str) -> (r: Option<String>)
        ensures
            match r {
                Some(x) => Self::marked_in(text@) == Some(x@),
                None => Self::marked_in(text@) is None,
            },
    {
        let markers = vec!["itemId=", "shop"];
        assert(strs_view(markers@) =~= seq!["itemId="@, "shop"@]);
        match find_marked_number(text, &markers) {
            Some((k, id)) => if k == 0 {
                Some(canonical(Marketplace::Goofish, id))
            } else {
                Some(taobao_shop(id))
            },
            None => None,
        }
    }

    /// Converts `url`, given the final URL `final_url` a GET of it ends on
    /// and the page text `body` found there.
    pub fn from_page(url: &str, final_url: &str, body: &str) -> (r: Result<String, Error>)
        ensures
            outcome_view(r) == Self::page_resolution(url@, final_url@, body@),
    {
        match Self::find_marked(body) {
            Some(r) => Ok(r),
            None => match Self::find_marked(final_url) {
                Some(r) => Ok(r),
                None => Err(Error::failed_to_redirect(url)),
            },
        }
    }
}

} // verus!
