//! What holds of the converter as a whole.
use vstd::prelude::*;
use crate::converters::{
    acbuy::AcBuy, cnfans::CnFans, cssbuy::CSSBuy, joyabuy::JoyaBuy, lovegobuy::LoveGoBuy,
    mobile_intl_taobao::MobileIntlTaobao, mobile_taobao::MobileTaobao, oopbuy::OopBuy,
    ootdbuy::OotdBuy, you_shop_10::YouShop10,
};
use crate::destination::{canonical_url, Marketplace};
use crate::error::ErrorView;
use crate::live::{settle, LiveKind, LiveResponse};
use crate::patterns::{affix_number, lookup, Table};
use crate::text::{is_digit, is_number};
use crate::source_url::{query_value, UrlView};
use crate::bulk::{
    advance, answered_outcome, drive, empty_result, lemma_advance_follows_drive, record, token_step,
    BulkView,
};
use crate::{default_registry, dispatch, first_applicable, Step, Strategy};

verus! {

/// The host a strategy claims links on.
pub open spec fn host_of(s: Strategy) -> Seq<char> {
    match s {
        Strategy::YouShop10(_) => "k.youshop10.com"@,
        Strategy::RenderedYouShop10(_) => "k.youshop10.com"@,
        Strategy::MobileTaobao(_) => "m.tb.cn"@,
        Strategy::MobileIntlTaobao(_) => "m.intl.taobao.com"@,
        Strategy::CSSBuy(_) => "www.cssbuy.com"@,
        Strategy::LoveGoBuy(_) => "m.lovegobuy.com"@,
        Strategy::OotdBuy(_) => "www.ootdbuy.com"@,
        Strategy::CnFans(_) => "cnfans.com"@,
        Strategy::OopBuy(_) => "oopbuy.com"@,
        Strategy::JoyaBuy(_) => "joyabuy.com"@,
        Strategy::AcBuy(_) => "www.acbuy.com"@,
    }
}

/// For the strategies that read two query fields: the key of the item id,
/// the key of the marketplace, and the table of marketplaces.
pub open spec fn query_shape(s: Strategy) -> Option<(Seq<char>, Seq<char>, Table)> {
    match s {
        Strategy::AcBuy(_) => Some(("id"@, "source"@, AcBuy::table())),
        Strategy::CnFans(_) => Some(("id"@, "platform"@, CnFans::table())),
        Strategy::JoyaBuy(_) => Some(("id"@, "shop_type"@, JoyaBuy::table())),
        Strategy::LoveGoBuy(_) => Some(("id"@, "shop_type"@, LoveGoBuy::table())),
        Strategy::OotdBuy(_) => Some(("id"@, "channel"@, OotdBuy::table())),
        _ => None,
    }
}

/// A strategy claims a link only on its own host.
pub proof fn lemma_applies_on_host(s: Strategy, u: UrlView)
    ensures
        s.applies(u) ==> u.host == Some(host_of(s)),
{
}

/// No two strategies of the default registry claim the same host.
pub proof fn lemma_default_hosts_distinct()
    ensures
        forall|i: int, j: int|
            0 <= i < default_registry().len() && 0 <= j < default_registry().len() && i != j
                ==> host_of(#[trigger] default_registry()[i]) != host_of(
                #[trigger] default_registry()[j],
            ),
{
    reveal_strlit("k.youshop10.com");
    reveal_strlit("m.tb.cn");
    reveal_strlit("m.intl.taobao.com");
    reveal_strlit("www.cssbuy.com");
    reveal_strlit("m.lovegobuy.com");
    reveal_strlit("www.ootdbuy.com");
    reveal_strlit("cnfans.com");
    reveal_strlit("oopbuy.com");
    reveal_strlit("joyabuy.com");
    let reg = default_registry();
    assert forall|i: int, j: int|
        0 <= i < reg.len() && 0 <= j < reg.len() && i != j implies host_of(#[trigger] reg[i])
        != host_of(#[trigger] reg[j]) by {
        let a = host_of(reg[i]);
        let b = host_of(reg[j]);
        if a == b {
            assert(a.len() == b.len());
            assert(a[0] == b[0]);
        }
    }
}

proof fn lemma_first_applicable_is(reg: Seq<Strategy>, u: UrlView, i: int, from: int)
    requires
        0 <= from <= i < reg.len(),
        reg[i].applies(u),
        forall|j: int| from <= j < i ==> !(#[trigger] reg[j]).applies(u),
    ensures
        first_applicable(reg, u, from) == Some(i),
    decreases i - from,
{
    if from < i {
        lemma_first_applicable_is(reg, u, i, from + 1);
    }
}

proof fn lemma_none_applicable(reg: Seq<Strategy>, u: UrlView, from: int)
    requires
        0 <= from <= reg.len(),
        forall|j: int| from <= j < reg.len() ==> !(#[trigger] reg[j]).applies(u),
    ensures
        first_applicable(reg, u, from) is None,
    decreases reg.len() - from,
{
    if from < reg.len() {
        lemma_none_applicable(reg, u, from + 1);
    }
}

/// Strategies are tried in registry order and the first that claims a link
/// decides its outcome, whatever later strategies would do with it.
pub proof fn law_first_claimant_decides(reg: Seq<Strategy>, u: UrlView, i: int)
    requires
        0 <= i < reg.len(),
        reg[i].applies(u),
        forall|j: int| 0 <= j < i ==> !(#[trigger] reg[j]).applies(u),
    ensures
        dispatch(reg, u) == reg[i].step(u),
{
    lemma_first_applicable_is(reg, u, i, 0);
}

/// A link that no strategy claims is not convertible.
pub proof fn law_unclaimed_is_not_convertible(reg: Seq<Strategy>, u: UrlView)
    requires
        forall|j: int| 0 <= j < reg.len() ==> !(#[trigger] reg[j]).applies(u),
    ensures
        dispatch(reg, u) == Step::Done(Err(ErrorView::NonConvertableUrl(u.text))),
{
    lemma_none_applicable(reg, u, 0);
}

/// In the default registry, the strategy that claims a link is the one that
/// converts it.
pub proof fn law_default_claimant_decides(i: int, u: UrlView)
    requires
        0 <= i < default_registry().len(),
        default_registry()[i].applies(u),
    ensures
        dispatch(default_registry(), u) == default_registry()[i].step(u),
{
    let reg = default_registry();
    lemma_default_hosts_distinct();
    assert forall|j: int| 0 <= j < i implies !(#[trigger] reg[j]).applies(u) by {
        lemma_applies_on_host(reg[j], u);
        lemma_applies_on_host(reg[i], u);
    }
    law_first_claimant_decides(reg, u, i);
}

/// A link whose host no strategy of the default registry claims is not
/// convertible.
pub proof fn law_unknown_host_is_not_convertible(u: UrlView)
    requires
        forall|i: int|
            0 <= i < default_registry().len() ==> u.host != Some(
                host_of(#[trigger] default_registry()[i]),
            ),
    ensures
        dispatch(default_registry(), u) == Step::Done(Err(ErrorView::NonConvertableUrl(u.text))),
{
    let reg = default_registry();
    assert forall|j: int| 0 <= j < reg.len() implies !(#[trigger] reg[j]).applies(u) by {
        lemma_applies_on_host(reg[j], u);
    }
    law_unclaimed_is_not_convertible(reg, u);
}

/// A link that a two-field strategy of the default registry claims, whose
/// marketplace field holds a value its table knows and whose id field is not
/// empty, converts to that item's canonical link.
pub proof fn law_recognized_query_pair_converts(
    i: int,
    u: UrlView,
    id_key: Seq<char>,
    disc_key: Seq<char>,
    t: Table,
    d: Seq<char>,
    id: Seq<char>,
    m: Marketplace,
)
    requires
        0 <= i < default_registry().len(),
        default_registry()[i].applies(u),
        query_shape(default_registry()[i]) == Some((id_key, disc_key, t)),
        query_value(u.query, disc_key) == Some(d),
        lookup(t, d) == Some(m),
        query_value(u.query, id_key) == Some(id),
        id.len() > 0,
    ensures
        dispatch(default_registry(), u) == Step::Done(Ok(canonical_url(m, id))),
{
    law_default_claimant_decides(i, u);
}

/// A link that a two-field strategy of the default registry claims, whose
/// marketplace field holds a value its table does not know, is not
/// convertible: no marketplace is guessed.
pub proof fn law_unknown_discriminator_is_not_convertible(
    i: int,
    u: UrlView,
    id_key: Seq<char>,
    disc_key: Seq<char>,
    t: Table,
    d: Seq<char>,
)
    requires
        0 <= i < default_registry().len(),
        default_registry()[i].applies(u),
        query_shape(default_registry()[i]) == Some((id_key, disc_key, t)),
        query_value(u.query, disc_key) == Some(d),
        lookup(t, d) is None,
    ensures
        dispatch(default_registry(), u) == Step::Done(Err(ErrorView::NonConvertableUrl(u.text))),
{
    law_default_claimant_decides(i, u);
}

/// An oopbuy link `/product/{shop type}/{id}` converts to the item's
/// canonical link where the shop type is known, and is not convertible
/// where it is not.
pub proof fn law_oopbuy_shop_type(u: UrlView)
    requires
        OopBuy::applies(u),
        crate::patterns::path_segments(u.path).len() >= 3,
        crate::patterns::path_segments(u.path)[0] == "product"@,
    ensures
        dispatch(default_registry(), u) == Step::Done(
            match lookup(OopBuy::table(), crate::patterns::path_segments(u.path)[1]) {
                Some(m) => Ok(canonical_url(m, crate::patterns::path_segments(u.path)[2])),
                None => Err(ErrorView::NonConvertableUrl(u.text)),
            },
        ),
{
    assert(default_registry()[7] == Strategy::OopBuy(OopBuy));
    law_default_claimant_decides(7, u);
}

/// Whether `h` is the host of a canonical link.
pub open spec fn is_canonical_host(h: Seq<char>) -> bool {
    ||| h == "item.taobao.com"@
    ||| h == "weidian.com"@
    ||| h == "detail.1688.com"@
    ||| h == "www.goofish.com"@
    ||| exists|shop_id: Seq<char>| h == "shop"@ + shop_id + ".world.taobao.com"@
}

/// No strategy of the default registry claims a canonical link: converting
/// is one-way, and a canonical link is not convertible.
pub proof fn law_canonical_links_are_not_convertible(u: UrlView, h: Seq<char>)
    requires
        u.host == Some(h),
        is_canonical_host(h),
    ensures
        dispatch(default_registry(), u) == Step::Done(Err(ErrorView::NonConvertableUrl(u.text))),
{
    reveal_strlit("k.youshop10.com");
    reveal_strlit("m.tb.cn");
    reveal_strlit("m.intl.taobao.com");
    reveal_strlit("www.cssbuy.com");
    reveal_strlit("m.lovegobuy.com");
    reveal_strlit("www.ootdbuy.com");
    reveal_strlit("cnfans.com");
    reveal_strlit("oopbuy.com");
    reveal_strlit("joyabuy.com");
    reveal_strlit("item.taobao.com");
    reveal_strlit("weidian.com");
    reveal_strlit("detail.1688.com");
    reveal_strlit("www.goofish.com");
    reveal_strlit("shop");
    let reg = default_registry();
    assert forall|i: int| 0 <= i < reg.len() implies h != host_of(#[trigger] reg[i]) by {
        let g = host_of(reg[i]);
        if h == g {
            assert(h.len() == g.len());
            assert(h[0] == g[0]);
            assert(h[4] == g[4]);
            if exists|shop_id: Seq<char>| h == "shop"@ + shop_id + ".world.taobao.com"@ {
                let shop_id = choose|shop_id: Seq<char>| h == "shop"@ + shop_id + ".world.taobao.com"@;
                assert(h[0] == ("shop"@ + shop_id + ".world.taobao.com"@)[0]);
                assert(h[0] == 's');
            }
        }
    }
    law_unknown_host_is_not_convertible(u);
}

/// A browser lookup whose page never shows the product within its bound
/// fails as a failed redirect, whatever the bound.
pub proof fn law_render_timeout_fails(timeout_secs: u64, url: Seq<char>)
    ensures
        settle(LiveKind::RenderedPage { timeout_secs }, url, LiveResponse::TimedOut) == Err::<
            Seq<char>,
            ErrorView,
        >(ErrorView::FailedToRedirectUrl(url)),
{
}

proof fn lemma_affix_of_concat(pre: Seq<char>, id: Seq<char>, suf: Seq<char>)
    requires
        is_number(id),
    ensures
        affix_number(pre + id + suf, pre, suf) == Some(id),
{
    let s = pre + id + suf;
    assert(s.subrange(0, pre.len() as int) =~= pre);
    assert(s.subrange(s.len() - suf.len(), s.len() as int) =~= suf);
    assert(s.subrange(pre.len() as int, s.len() - suf.len()) =~= id);
}

/// The three path forms of cssbuy, `/item-{id}.html`,
/// `/item-micro-{id}.html` and `/item-1688-{id}.html`, convert to the
/// Taobao, Weidian and 1688 links of the item.
pub proof fn law_cssbuy_path_forms(u: UrlView, id: Seq<char>)
    requires
        u.host == Some("www.cssbuy.com"@),
        is_number(id),
    ensures
        u.path == "/item-"@ + id + ".html"@ ==> dispatch(default_registry(), u) == Step::Done(
            Ok(canonical_url(Marketplace::Taobao, id)),
        ),
        u.path == "/item-micro-"@ + id + ".html"@ ==> dispatch(default_registry(), u)
            == Step::Done(Ok(canonical_url(Marketplace::Weidian, id))),
        u.path == "/item-1688-"@ + id + ".html"@ ==> dispatch(default_registry(), u)
            == Step::Done(Ok(canonical_url(Marketplace::Ali1688, id))),
{
    reveal_strlit("/item-");
    reveal_strlit("/item-micro-");
    reveal_strlit("/item-1688-");
    reveal_strlit(".html");
    let item = "/item-"@;
    let micro = "/item-micro-"@;
    let b2b = "/item-1688-"@;
    let html = ".html"@;
    assert(default_registry()[3] == Strategy::CSSBuy(CSSBuy));
    if u.path == item + id + html {
        assert(u.path.subrange(0, item.len() as int) =~= item);
        lemma_affix_of_concat(item, id, html);
        law_default_claimant_decides(3, u);
    }
    if u.path == micro + id + html {
        assert(u.path.subrange(0, item.len() as int) =~= item);
        let mid = u.path.subrange(item.len() as int, u.path.len() - html.len());
        assert(mid[0] == u.path[6]);
        assert(!is_digit(mid[0]));
        lemma_affix_of_concat(micro, id, html);
        law_default_claimant_decides(3, u);
    }
    if u.path == b2b + id + html {
        assert(u.path.subrange(0, item.len() as int) =~= item);
        let mid = u.path.subrange(item.len() as int, u.path.len() - html.len());
        assert(mid[4] == u.path[10]);
        assert(!is_digit(mid[4]));
        assert(u.path.subrange(0, micro.len() as int)[6] != micro[6]);
        lemma_affix_of_concat(b2b, id, html);
        law_default_claimant_decides(3, u);
    }
}

/// Whether a strategy claims a link depends on the link's host and path
/// alone, never on its query.
pub proof fn law_claims_read_host_and_path(s: Strategy, u: UrlView, v: UrlView)
    requires
        u.host == v.host,
        u.path == v.path,
    ensures
        s.applies(u) == s.applies(v),
{
}

/// A bulk scan over links that need no live lookup settles every one of
/// them, each with exactly one entry, a failure never stopping the scan.
pub proof fn law_bulk_settles_every_link(
    reg: Seq<Strategy>,
    toks: Seq<Seq<char>>,
    i: int,
    acc: BulkView,
)
    requires
        0 <= i <= toks.len(),
        forall|j: int| i <= j < toks.len() ==> token_step(reg, #[trigger] toks[j]) is Done,
    ensures
        advance(reg, toks, i, acc).0 == toks.len(),
        advance(reg, toks, i, acc).1.successes.len() + advance(reg, toks, i, acc).1.errors.len()
            == acc.successes.len() + acc.errors.len() + toks.len() - i,
    decreases toks.len() - i,
{
    if i < toks.len() {
        let o = token_step(reg, toks[i])->Done_0;
        law_bulk_settles_every_link(reg, toks, i + 1, record(acc, toks[i], o));
    }
}

/// A scan follows its answered course: the state that `convert_bulk`
/// starts with, and the state that `resume` leaves after the answer
/// `resps[i]` to the lookup of link `i`, lead to the same result as the
/// state before. A scan that has settled every link holds that result.
pub proof fn law_scan_follows_drive(
    reg: Seq<Strategy>,
    toks: Seq<Seq<char>>,
    resps: Seq<LiveResponse>,
    i: int,
    acc: BulkView,
)
    requires
        0 <= i <= toks.len(),
    ensures
        drive(reg, toks, resps, i, acc) == drive(
            reg,
            toks,
            resps,
            advance(reg, toks, i, acc).0,
            advance(reg, toks, i, acc).1,
        ),
        i < toks.len() ==> (token_step(reg, toks[i]) matches Step::Live(kind, url) ==> drive(
            reg,
            toks,
            resps,
            i,
            acc,
        ) == drive(
            reg,
            toks,
            resps,
            advance(reg, toks, i + 1, record(acc, toks[i], settle(kind, url, resps[i]))).0,
            advance(reg, toks, i + 1, record(acc, toks[i], settle(kind, url, resps[i]))).1,
        )),
        drive(reg, toks, resps, toks.len() as int, acc) == acc,
{
    lemma_advance_follows_drive(reg, toks, resps, i, acc);
    if i < toks.len() {
        if let Step::Live(kind, url) = token_step(reg, toks[i]) {
            lemma_advance_follows_drive(
                reg,
                toks,
                resps,
                i + 1,
                record(acc, toks[i], settle(kind, url, resps[i])),
            );
        }
    }
}

/// A bulk scan over three links, of which one converts and two fail (with
/// or without a live lookup, answered by `resps`), gives that one canonical
/// link and the two failures, each paired with its link as it appears in
/// the text, in the order of the text.
pub proof fn law_bulk_one_success_two_failures(
    reg: Seq<Strategy>,
    toks: Seq<Seq<char>>,
    resps: Seq<LiveResponse>,
    k: int,
    s: Seq<char>,
)
    requires
        toks.len() == 3,
        0 <= k < 3,
        answered_outcome(reg, toks[k], resps[k]) == Ok::<Seq<char>, ErrorView>(s),
        forall|j: int|
            0 <= j < 3 && j != k ==> (#[trigger] answered_outcome(reg, toks[j], resps[j])) is Err,
    ensures
        drive(reg, toks, resps, 0, empty_result()).successes == seq![s],
        ({
            let a = if k == 0 { 1int } else { 0int };
            let b = if k == 2 { 1int } else { 2int };
            drive(reg, toks, resps, 0, empty_result()).errors == seq![
                (toks[a], answered_outcome(reg, toks[a], resps[a])->Err_0),
                (toks[b], answered_outcome(reg, toks[b], resps[b])->Err_0),
            ]
        }),
{
    let acc0 = empty_result();
    let acc1 = record(acc0, toks[0], answered_outcome(reg, toks[0], resps[0]));
    let acc2 = record(acc1, toks[1], answered_outcome(reg, toks[1], resps[1]));
    let acc3 = record(acc2, toks[2], answered_outcome(reg, toks[2], resps[2]));
    assert(drive(reg, toks, resps, 3, acc3) == acc3);
    assert(drive(reg, toks, resps, 2, acc2) == drive(reg, toks, resps, 3, acc3));
    assert(drive(reg, toks, resps, 1, acc1) == drive(reg, toks, resps, 2, acc2));
    assert(drive(reg, toks, resps, 0, acc0) == drive(reg, toks, resps, 1, acc1));
    let a = if k == 0 { 1int } else { 0int };
    let b = if k == 2 { 1int } else { 2int };
    assert(answered_outcome(reg, toks[a], resps[a]) is Err);
    assert(answered_outcome(reg, toks[b], resps[b]) is Err);
    assert(acc3.successes =~= seq![s]);
    assert(acc3.errors =~= seq![
        (toks[a], answered_outcome(reg, toks[a], resps[a])->Err_0),
        (toks[b], answered_outcome(reg, toks[b], resps[b])->Err_0),
    ]);
}

} // verus!
