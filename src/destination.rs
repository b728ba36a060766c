//! Canonical product links of the supported marketplaces.
use vstd::prelude::*;
use vstd::string::StringExecFns;

verus! {

/// The marketplaces a product link can be rewritten to.
#[derive(Clone, Copy, Debug, PartialEq, Eq, Structural)]
pub enum Marketplace {
    Taobao,
    Weidian,
    Ali1688,
    Goofish,
}

/// The canonical link of item `id` on marketplace `m`.
pub open spec fn canonical_url(m: Marketplace, id: Seq<char>) -> Seq<char> {
    match m {
        Marketplace::Taobao => "https://item.taobao.com/item.htm?id="@ + id,
        Marketplace::Weidian => "https://weidian.com/item.html?itemID="@ + id,
        Marketplace::Ali1688 => "https://detail.1688.com/offer/"@ + id + ".html"@,
        Marketplace::Goofish => "https://www.goofish.com/item?id="@ + id,
    }
}

/// The storefront link of a Taobao shop.
pub open spec fn shop_url(shop_id: Seq<char>) -> Seq<char> {
    "https://shop"@ + shop_id + ".world.taobao.com/"@
}

/// Builds the canonical link of item `id` on marketplace `m`.
pub fn canonical(m: Marketplace, id: &str) -> (r: String)
    ensures
        r@ == canonical_url(m, id@),
{
    match m {
        Marketplace::Taobao => taobao(id),
        Marketplace::Weidian => weidian(id),
        Marketplace::Ali1688 => ali_1688(id),
        Marketplace::Goofish => goofish(id),
    }
}

/// `https://item.taobao.com/item.htm?id={id}`
pub fn taobao(id: &str) -> (r: String)
    ensures
        r@ == canonical_url(Marketplace::Taobao, id@),
{
    let mut r = String::from_str("https://item.taobao.com/item.htm?id=");
    r.append(id);
    r
}

/// `https://weidian.com/item.html?itemID={id}`
pub fn weidian(id: &str) -> (r: String)
    ensures
        r@ == canonical_url(Marketplace::Weidian, id@),
{
    let mut r = String::from_str("https://weidian.com/item.html?itemID=");
    r.append(id);
    r
}

/// `https://detail.1688.com/offer/{id}.html`
pub fn ali_1688(id: &str) -> (r: String)
    ensures
        r@ == canonical_url(Marketplace::Ali1688, id@),
{
    let mut r = String::from_str("https://detail.1688.com/offer/");
    r.append(id);
    r.append(".html");
    r
}

/// `https://www.goofish.com/item?id={id}`
pub fn goofish(id: &str) -> (r: String)
    ensures
        r@ == canonical_url(Marketplace::Goofish, id@),
{
    let mut r = String::from_str("https://www.goofish.com/item?id=");
    r.append(id);
    r
}

/// `https://shop{shop_id}.world.taobao.com/`
pub fn taobao_shop(shop_id: &str) -> (r: String)
    ensures
        r@ == shop_url(shop_id@),
{
    let mut r = String::from_str("https://shop");
    r.append(shop_id);
    r.append(".world.taobao.com/");
    r
}

} // verus!
