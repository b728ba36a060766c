//! Rewrites product links of shopping front-ends into the canonical
//! links of the marketplaces they mirror.
pub mod bulk;
pub mod converters;
pub mod destination;
pub mod error;
pub mod laws;
pub mod live;
pub mod patterns;
pub mod source_url;
pub mod text;

use vstd::prelude::*;
use crate::converters::{
    acbuy::AcBuy, cnfans::CnFans, cssbuy::CSSBuy, joyabuy::JoyaBuy, lovegobuy::LoveGoBuy,
    mobile_intl_taobao::MobileIntlTaobao, mobile_taobao::MobileTaobao, oopbuy::OopBuy,
    ootdbuy::OotdBuy, you_shop_10::YouShop10, you_shop_10_browser,
};
use crate::error::{outcome_view, ErrorView, Outcome};
use crate::live::{LiveKind, LiveRequest};
use crate::source_url::{SourceUrl, UrlView};

pub use crate::bulk::{BulkScan, ConversionResult};
pub use crate::error::Error;

verus! {

/// One site's strategy: which links it claims, and how it converts them.
#[derive(Clone, Copy, Debug, PartialEq, Eq, Structural)]
pub enum Strategy {
    YouShop10(YouShop10),
    RenderedYouShop10(you_shop_10_browser::YouShop10),
    MobileTaobao(MobileTaobao),
    MobileIntlTaobao(MobileIntlTaobao),
    CSSBuy(CSSBuy),
    LoveGoBuy(LoveGoBuy),
    OotdBuy(OotdBuy),
    CnFans(CnFans),
    OopBuy(OopBuy),
    JoyaBuy(JoyaBuy),
    AcBuy(AcBuy),
}

/// Where converting a link stands: finished, or waiting on a live lookup.
#[derive(Debug)]
pub enum Resolution {
    Done(Result<String, Error>),
    Live(LiveRequest),
}

/// The mathematical value of a [`Resolution`].
pub enum Step {
    Done(Outcome),
    Live(LiveKind, Seq<char>),
}

impl View for Resolution {
    type V = Step;

    open spec fn view(&self) -> Step {
        match self {
            Resolution::Done(r) => Step::Done(outcome_view(*r)),
            Resolution::Live(q) => Step::Live(q.kind, q.url@),
        }
    }
}

impl Strategy {
    /// Whether this strategy claims links like `u`. It reads the host and
    /// the path only.
    pub open spec fn applies(self, u: UrlView) -> bool {
        match self {
            Strategy::YouShop10(_) => YouShop10::applies(u),
            Strategy::RenderedYouShop10(_) => you_shop_10_browser::YouShop10::applies(u),
            Strategy::MobileTaobao(_) => MobileTaobao::applies(u),
            Strategy::MobileIntlTaobao(_) => MobileIntlTaobao::applies(u),
            Strategy::CSSBuy(_) => CSSBuy::applies(u),
            Strategy::LoveGoBuy(_) => LoveGoBuy::applies(u),
            Strategy::OotdBuy(_) => OotdBuy::applies(u),
            Strategy::CnFans(_) => CnFans::applies(u),
            Strategy::OopBuy(_) => OopBuy::applies(u),
            Strategy::JoyaBuy(_) => JoyaBuy::applies(u),
            Strategy::AcBuy(_) => AcBuy::applies(u),
        }
    }

    /// What this strategy does with `u`.
    pub open spec fn step(self, u: UrlView) -> Step {
        match self {
            Strategy::YouShop10(_) => Step::Live(LiveKind::RedirectTarget, u.text),
            Strategy::RenderedYouShop10(b) => Step::Live(
                LiveKind::RenderedPage { timeout_secs: b.timeout_secs },
                u.text,
            ),
            Strategy::MobileTaobao(_) => Step::Live(LiveKind::PageBody, u.text),
            Strategy::MobileIntlTaobao(_) => Step::Done(MobileIntlTaobao::resolution(u)),
            Strategy::CSSBuy(_) => Step::Done(CSSBuy::resolution(u)),
            Strategy::LoveGoBuy(_) => Step::Done(LoveGoBuy::resolution(u)),
            Strategy::OotdBuy(_) => Step::Done(OotdBuy::resolution(u)),
            Strategy::CnFans(_) => Step::Done(CnFans::resolution(u)),
            Strategy::OopBuy(_) => Step::Done(OopBuy::resolution(u)),
            Strategy::JoyaBuy(_) => Step::Done(JoyaBuy::resolution(u)),
            Strategy::AcBuy(_) => Step::Done(AcBuy::resolution(u)),
        }
    }

    pub fn can_convert(&self, url: &SourceUrl) -> (r: bool)
        ensures
            r == self.applies(url@),
    {
        match self {
            Strategy::YouShop10(s) => s.can_convert(url),
            Strategy::RenderedYouShop10(s) => s.can_convert(url),
            Strategy::MobileTaobao(s) => s.can_convert(url),
            Strategy::MobileIntlTaobao(s) => s.can_convert(url),
            Strategy::CSSBuy(s) => s.can_convert(url),
            Strategy::LoveGoBuy(s) => s.can_convert(url),
            Strategy::OotdBuy(s) => s.can_convert(url),
            Strategy::CnFans(s) => s.can_convert(url),
            Strategy::OopBuy(s) => s.can_convert(url),
            Strategy::JoyaBuy(s) => s.can_convert(url),
            Strategy::AcBuy(s) => s.can_convert(url),
        }
    }

    pub fn convert(&self, url: &SourceUrl) -> (r: Resolution)
        ensures
            r@ == self.step(url@),
    {
        match self {
            Strategy::YouShop10(s) => Resolution::Live(s.convert(url)),
            Strategy::RenderedYouShop10(s) => Resolution::Live(s.convert(url)),
            Strategy::MobileTaobao(s) => Resolution::Live(s.convert(url)),
            Strategy::MobileIntlTaobao(s) => Resolution::Done(s.convert(url)),
            Strategy::CSSBuy(s) => Resolution::Done(s.convert(url)),
            Strategy::LoveGoBuy(s) => Resolution::Done(s.convert(url)),
            Strategy::OotdBuy(s) => Resolution::Done(s.convert(url)),
            Strategy::CnFans(s) => Resolution::Done(s.convert(url)),
            Strategy::OopBuy(s) => Resolution::Done(s.convert(url)),
            Strategy::JoyaBuy(s) => Resolution::Done(s.convert(url)),
            Strategy::AcBuy(s) => Resolution::Done(s.convert(url)),
        }
    }
}

/// The strategies a [`Converter`] is built with, in the order they are tried.
pub open spec fn default_registry() -> Seq<Strategy> {
    seq![
        Strategy::YouShop10(YouShop10),
        Strategy::MobileTaobao(MobileTaobao),
        Strategy::MobileIntlTaobao(MobileIntlTaobao),
        Strategy::CSSBuy(CSSBuy),
        Strategy::LoveGoBuy(LoveGoBuy),
        Strategy::OotdBuy(OotdBuy),
        Strategy::CnFans(CnFans),
        Strategy::OopBuy(OopBuy),
        Strategy::JoyaBuy(JoyaBuy),
    ]
}

/// The index of the first strategy from `i` on that claims `u`.
pub open spec fn first_applicable(reg: Seq<Strategy>, u: UrlView, i: int) -> Option<int>
    decreases reg.len() - i,
{
    if i < 0 || i >= reg.len() {
        None
    } else if reg[i].applies(u) {
        Some(i)
    } else {
        first_applicable(reg, u, i + 1)
    }
}

/// What converting `u` with the strategies `reg` does: the first strategy
/// that claims it decides, and where none does the link is not convertible.
pub open spec fn dispatch(reg: Seq<Strategy>, u: UrlView) -> Step {
    match first_applicable(reg, u, 0) {
        Some(i) => reg[i].step(u),
        None => Step::Done(Err(ErrorView::NonConvertableUrl(u.text))),
    }
}

/// An ordered set of strategies; the first that claims a link converts it.
#[derive(Clone, Debug)]
pub struct Converter {
    converters: Vec<Strategy>,
}

impl View for Converter {
    type V = Seq<Strategy>;

    closed spec fn view(&self) -> Seq<Strategy> {
        self.converters@
    }
}

impl Converter {
    /// A converter with every supported site.
    pub fn new() -> (r: Converter)
        ensures
            r@ == default_registry(),
    {
        let converters = vec![
            Strategy::YouShop10(YouShop10::new()),
            Strategy::MobileTaobao(MobileTaobao::new()),
            Strategy::MobileIntlTaobao(MobileIntlTaobao::new()),
            Strategy::CSSBuy(CSSBuy::new()),
            Strategy::LoveGoBuy(LoveGoBuy::new()),
            Strategy::OotdBuy(OotdBuy::new()),
            Strategy::CnFans(CnFans::new()),
            Strategy::OopBuy(OopBuy::new()),
            Strategy::JoyaBuy(JoyaBuy::new()),
        ];
        let r = Converter { converters };
        assert(r@ =~= default_registry());
        r
    }

    /// A converter that tries `strategies` in the order given.
    pub fn from_strategies(strategies: Vec<Strategy>) -> (r: Converter)
        ensures
            r@ == strategies@,
    {
        Converter { converters: strategies }
    }

    /// Converts `url` with the first strategy that claims it.
    pub fn convert_one(&self, url: &SourceUrl) -> (r: Resolution)
        ensures
            r@ == dispatch(self@, url@),
    {
        let mut i: usize = 0;
        while i < self.converters.len()
            invariant
                0 <= i <= self@.len(),
                first_applicable(self@, url@, 0) == first_applicable(self@, url@, i as int),
            decreases self@.len() - i,
        {
            if self.converters[i].can_convert(url) {
                return self.converters[i].convert(url);
            }
            i = i + 1;
        }
        Resolution::Done(Err(Error::non_convertable(url.serialization.as_str())))
    }
}

} // verus!
