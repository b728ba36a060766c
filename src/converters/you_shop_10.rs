//! Weidian share links: the redirect they lead to carries `itemID={digits}`.
use vstd::prelude::*;
use crate::destination::{canonical, canonical_url, Marketplace};
use crate::error::{outcome_view, Error, ErrorView, Outcome};
use crate::live::{LiveKind, LiveRequest};
use crate::patterns::{find_marked_number, marked_number, strs_view};
use crate::source_url::{SourceUrl, UrlView};

verus! {

#[derive(Clone, Copy, Debug, PartialEq, Eq, Structural)]
pub struct YouShop10;

impl YouShop10 {
    pub fn new() -> (r: Self) {
        YouShop10
    }

    /// The links this strategy claims.
    pub open spec fn applies(u: UrlView) -> bool {
        u.host == Some("k.youshop10.com"@)
    }

    /// What the URL `target` that `url` leads to converts to: the digits
    /// after its leftmost `itemID=`, as a Weidian item.
    pub open spec fn target_resolution(url: Seq<char>, target: Seq<char>) -> Outcome {
        match marked_number(target, seq!["itemID="@]) {
            Some((_, id)) => Ok(canonical_url(Marketplace::Weidian, id)),
            None => Err(ErrorView::FailedToRedirectUrl(url)),
        }
    }

    pub fn can_convert(&self, url: &SourceUrl) -> (r: bool)
        ensures
            r == Self::applies(url@),
    {
        url.host_is("k.youshop10.com")
    }

    /// The lookup that a claimed link needs: where its redirects end.
    pub fn convert(&self, url: &SourceUrl) -> (r: LiveRequest)
        ensures
            r.kind == LiveKind::RedirectTarget,
            r.url@ == url@.text,
    {
        LiveRequest { kind: LiveKind::RedirectTarget, url: url.serialization.clone() }
    }

    /// Converts the URL `target` that `url` leads to.
    pub fn from_target(url: &str, target: &str) -> (r: Result<String, Error>)
        ensures
            outcome_view(r) == Self::target_resolution(url@, target@),
    {
        let markers = vec!["itemID="];
        assert(strs_view(markers@) =~= seq!["itemID="@]);
        match find_marked_number(target, &markers) {
            Some((_, id)) => Ok(canonical(Marketplace::Weidian, id)),
            None => Err(Error::failed_to_redirect(url)),
        }
    }
}

} // verus!
