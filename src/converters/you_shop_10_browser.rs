//! Weidian share links opened in a browser: once the product page has
//! rendered, the tab's URL carries `itemID={digits}`.
use vstd::prelude::*;
use crate::live::{LiveKind, LiveRequest};
use crate::source_url::{SourceUrl, UrlView};

verus! {

/// The browser variant of the Weidian share-link strategy. It waits at most
/// `timeout_secs` seconds for the product page to render.
#[derive(Clone, Copy, Debug, PartialEq, Eq, Structural)]
pub struct YouShop10 {
    pub timeout_secs: u64,
}

impl YouShop10 {
    /// Waits five seconds for the page.
    pub fn new() -> (r: Self)
        ensures
            r.timeout_secs == 5,
    {
        YouShop10 { timeout_secs: 5 }
    }

    pub fn with_timeout(timeout_secs: u64) -> (r: Self)
        ensures
            r.timeout_secs == timeout_secs,
    {
        YouShop10 { timeout_secs }
    }

    /// The links this strategy claims.
    pub open spec fn applies(u: UrlView) -> bool {
        u.host == Some("k.youshop10.com"@)
    }

    pub fn can_convert(&self, url: &SourceUrl) -> (r: bool)
        ensures
            r == Self::applies(url@),
    {
        url.host_is("k.youshop10.com")
    }

    /// The lookup that a claimed link needs: the tab's URL once rendered.
    pub fn convert(&self, url: &SourceUrl) -> (r: LiveRequest)
        ensures
            r.kind == (LiveKind::RenderedPage { timeout_secs: self.timeout_secs }),
            r.url@ == url@.text,
    {
        LiveRequest {
            kind: LiveKind::RenderedPage { timeout_secs: self.timeout_secs },
            url: url.serialization.clone(),
        }
    }
}

} // verus!
