//! Lookups that need the network or a browser: what to ask for, and what
//! the answer converts to. Performing them is left to the caller.
use vstd::prelude::*;
use crate::converters::mobile_taobao::MobileTaobao;
use crate::converters::you_shop_10::YouShop10;
use crate::error::{outcome_view, Error, ErrorView, Outcome};

verus! {

/// What a live lookup has to bring back.
#[derive(Clone, Copy, Debug, PartialEq, Eq, Structural)]
pub enum LiveKind {
    /// The final URL that a GET of the link ends on, and the text of the
    /// page found there.
    PageBody,
    /// The final URL that a GET of the link is redirected to.
    RedirectTarget,
    /// The browser tab's URL once the page shows `selector`, waiting at most
    /// `timeout_secs` seconds.
    RenderedPage { timeout_secs: u64 },
}

/// A live lookup to perform on `url`.
#[derive(Clone, Debug)]
pub struct LiveRequest {
    pub kind: LiveKind,
    pub url: String,
}

/// The CSS selector that marks a fully rendered product page.
pub fn product_page_selector() -> (r: &'static str)
    ensures
        r@ == ".into-cart"@,
{
    ".into-cart"
}

/// What a live lookup brought back.
#[derive(Clone, Debug)]
pub enum LiveResponse {
    /// Where the lookup ended (the final URL of a GET, or the tab's URL),
    /// and the text of the page there where the request's kind asks for it.
    Fetched { final_url: String, body: String },
    /// The page never showed what was waited for within the bound.
    TimedOut,
    /// The HTTP client or the browser failed, with its message.
    Failed(String),
}

/// What the answer `resp` to a lookup of kind `kind` on `url` converts to.
pub open spec fn settle(kind: LiveKind, url: Seq<char>, resp: LiveResponse) -> Outcome {
    match resp {
        LiveResponse::Fetched { final_url, body } => match kind {
            LiveKind::PageBody => MobileTaobao::page_resolution(url, final_url@, body@),
            LiveKind::RedirectTarget => YouShop10::target_resolution(url, final_url@),
            LiveKind::RenderedPage { .. } => YouShop10::target_resolution(url, final_url@),
        },
        LiveResponse::TimedOut => Err(ErrorView::FailedToRedirectUrl(url)),
        LiveResponse::Failed(m) => Err(ErrorView::Transport(url, m@)),
    }
}

impl LiveRequest {
    /// Converts the answer to this lookup.
    pub fn complete(&self, resp: LiveResponse) -> (r: Result<String, Error>)
        ensures
            outcome_view(r) == settle(self.kind, self.url@, resp),
    {
        match resp {
            LiveResponse::Fetched { final_url, body } => match self.kind {
                LiveKind::PageBody => MobileTaobao::from_page(
                    self.url.as_str(),
                    final_url.as_str(),
                    body.as_str(),
                ),
                LiveKind::RedirectTarget => YouShop10::from_target(
                    self.url.as_str(),
                    final_url.as_str(),
                ),
                LiveKind::RenderedPage { .. } => YouShop10::from_target(
                    self.url.as_str(),
                    final_url.as_str(),
                ),
            },
            LiveResponse::TimedOut => Err(Error::failed_to_redirect(self.url.as_str())),
            LiveResponse::Failed(m) => Err(Error::Transport { url: self.url.clone(), message: m }),
        }
    }
}

} // verus!
