use link_converter::bulk::find_urls;
use link_converter::converters::cssbuy::CSSBuy;
use link_converter::converters::you_shop_10::YouShop10;
use link_converter::converters::you_shop_10_browser;
use link_converter::destination::{ali_1688, canonical, goofish, taobao, taobao_shop, weidian, Marketplace};
use link_converter::error::Error;
use link_converter::live::{product_page_selector, LiveKind, LiveRequest, LiveResponse};
use link_converter::source_url::SourceUrl;
use link_converter::{Converter, Resolution, Strategy};

fn parse(s: &str) -> SourceUrl {
    SourceUrl::parse(s).expect("test link parses")
}

fn convert_now(converter: &Converter, s: &str) -> Result<String, Error> {
    match converter.convert_one(&parse(s)) {
        Resolution::Done(r) => r,
        Resolution::Live(q) => panic!("unexpected live lookup on {}", q.url),
    }
}

#[test]
fn builders_give_the_canonical_shapes() {
    assert_eq!(taobao("42"), "https://item.taobao.com/item.htm?id=42");
    assert_eq!(weidian("42"), "https://weidian.com/item.html?itemID=42");
    assert_eq!(ali_1688("42"), "https://detail.1688.com/offer/42.html");
    assert_eq!(goofish("42"), "https://www.goofish.com/item?id=42");
    assert_eq!(taobao_shop("42"), "https://shop42.world.taobao.com/");
    assert_eq!(canonical(Marketplace::Ali1688, "7"), "https://detail.1688.com/offer/7.html");
}

#[test]
fn parse_splits_the_url_into_parts() {
    let u = parse("https://WWW.Example.com/a%20b/c?x=1&y=caf%C3%A9&x=2#frag");
    assert_eq!(u.host.as_deref(), Some("www.example.com"));
    assert_eq!(u.path, "/a%20b/c");
    assert_eq!(u.query.len(), 3);
    assert_eq!(u.query[1], ("y".to_string(), "café".to_string()));
    assert_eq!(u.query_value("x"), Some("1"));
    assert_eq!(u.query_value("z"), None);
    assert!(u.serialization.starts_with("https://www.example.com/"));
}

#[test]
fn parse_refuses_text_that_is_no_absolute_url() {
    assert!(SourceUrl::parse("not a url").is_none());
    assert!(SourceUrl::parse("/relative/path").is_none());
}

#[test]
fn recognized_pair_gives_the_exact_canonical_link() {
    let c = Converter::new();
    let cases = [
        ("https://www.cssbuy.com/item-758911450758.html", "https://item.taobao.com/item.htm?id=758911450758"),
        ("https://cnfans.com/product?platform=WEIDIAN&id=9", "https://weidian.com/item.html?itemID=9"),
        ("https://m.lovegobuy.com/product?id=5&shop_type=1688", "https://detail.1688.com/offer/5.html"),
        ("https://oopbuy.com/product/weidian/12/extra", "https://weidian.com/item.html?itemID=12"),
        ("https://m.intl.taobao.com/detail/detail.html?uid=x&id=77", "https://item.taobao.com/item.htm?id=77"),
    ];
    for (input, expected) in cases {
        assert_eq!(convert_now(&c, input).unwrap(), expected);
    }
}

#[test]
fn first_query_pair_wins_on_duplicate_keys() {
    let c = Converter::new();
    let r = convert_now(&c, "https://joyabuy.com/product/?shop_type=weidian&id=1&shop_type=taobao&id=2");
    assert_eq!(r.unwrap(), "https://weidian.com/item.html?itemID=1");
}

#[test]
fn unrecognized_discriminator_is_not_convertible() {
    let c = Converter::new();
    let cases = [
        "https://www.ootdbuy.com/goods/details?id=1&channel=taobao",
        "https://cnfans.com/product?id=1&platform=AMAZON",
        "https://joyabuy.com/product/?shop_type=&id=1",
        "https://m.lovegobuy.com/product?shop_type=taobao",
        "https://oopbuy.com/product/2/758911450758",
        "https://oopbuy.com/product/1",
        "https://www.cssbuy.com/item-abc.html",
        "https://www.ootdbuy.com/goods/details?id=&channel=TAOBAO",
    ];
    for input in cases {
        let r = convert_now(&c, input);
        assert!(matches!(r, Err(Error::NonConvertableUrl { .. })), "{input}");
    }
}

#[test]
fn unknown_host_is_not_convertible() {
    let c = Converter::new();
    let r = convert_now(&c, "https://www.rust-lang.org/product?id=1&source=TB");
    match r {
        Err(Error::NonConvertableUrl { given_url }) => {
            assert_eq!(given_url, "https://www.rust-lang.org/product?id=1&source=TB")
        }
        other => panic!("unexpected {:?}", other),
    }
}

#[test]
fn acbuy_is_not_in_the_default_registry() {
    let c = Converter::new();
    let r = convert_now(&c, "https://www.acbuy.com/product?id=1&source=TB");
    assert!(matches!(r, Err(Error::NonConvertableUrl { .. })));
}

#[test]
fn earlier_strategy_wins_when_two_claim_a_link() {
    let url = parse("https://k.youshop10.com/-s=uo-wD?a=b");
    let http_first = Converter::from_strategies(vec![
        Strategy::YouShop10(YouShop10::new()),
        Strategy::RenderedYouShop10(you_shop_10_browser::YouShop10::with_timeout(20)),
    ]);
    let browser_first = Converter::from_strategies(vec![
        Strategy::RenderedYouShop10(you_shop_10_browser::YouShop10::with_timeout(20)),
        Strategy::YouShop10(YouShop10::new()),
    ]);
    match http_first.convert_one(&url) {
        Resolution::Live(q) => assert_eq!(q.kind, LiveKind::RedirectTarget),
        Resolution::Done(_) => panic!("expected a live lookup"),
    }
    match browser_first.convert_one(&url) {
        Resolution::Live(q) => assert_eq!(q.kind, LiveKind::RenderedPage { timeout_secs: 20 }),
        Resolution::Done(_) => panic!("expected a live lookup"),
    }
}

#[test]
fn failing_first_claimant_is_not_passed_over() {
    let c = Converter::from_strategies(vec![
        Strategy::CSSBuy(CSSBuy::new()),
        Strategy::CSSBuy(CSSBuy::new()),
    ]);
    let r = convert_now(&c, "https://www.cssbuy.com/item-x.html");
    assert!(matches!(r, Err(Error::NonConvertableUrl { .. })));
}

#[test]
fn canonical_links_are_not_convertible() {
    let c = Converter::new();
    for link in [
        taobao("758911450758"),
        weidian("7322752149"),
        ali_1688("681296637536"),
        goofish("713649093700"),
        taobao_shop("247709762"),
    ] {
        let r = convert_now(&c, &link);
        assert!(matches!(r, Err(Error::NonConvertableUrl { .. })), "{link}");
    }
}

#[test]
fn render_timeout_fails_as_failed_redirect() {
    let url = parse("https://k.youshop10.com/-s=uo-wD");
    let q = you_shop_10_browser::YouShop10::with_timeout(20).convert(&url);
    assert_eq!(product_page_selector(), ".into-cart");
    match q.complete(LiveResponse::TimedOut) {
        Err(Error::FailedToRedirectUrl { url }) => assert_eq!(url, "https://k.youshop10.com/-s=uo-wD"),
        other => panic!("unexpected {:?}", other),
    }
}

#[test]
fn short_link_page_with_item_id_gives_goofish_link() {
    let c = Converter::new();
    let q = match c.convert_one(&parse("https://m.tb.cn/h.TjKAehX?tk=Jrdnecne92w")) {
        Resolution::Live(q) => q,
        Resolution::Done(_) => panic!("expected a live lookup"),
    };
    assert_eq!(q.kind, LiveKind::PageBody);
    let body = "<html><script>location = '//a.m.taobao.com/i?itemId=713649093700&x=1'</script></html>";
    let r = q.complete(LiveResponse::Fetched { final_url: q.url.clone(), body: body.to_string() }).unwrap();
    assert_eq!(r, "https://www.goofish.com/item?id=713649093700");
}

#[test]
fn short_link_page_takes_the_leftmost_marker() {
    let q = LiveRequest { kind: LiveKind::PageBody, url: "https://m.tb.cn/h.x".to_string() };
    let r = q.complete(LiveResponse::Fetched { final_url: q.url.clone(), body: "shop=1 shop55 itemId=9".to_string() });
    assert_eq!(r.unwrap(), "https://shop55.world.taobao.com/");
    let r = q.complete(LiveResponse::Fetched { final_url: q.url.clone(), body: "itemId= nothing here".to_string() });
    assert!(matches!(r, Err(Error::FailedToRedirectUrl { .. })));
}

#[test]
fn redirect_without_item_fails_as_failed_redirect() {
    let q = LiveRequest { kind: LiveKind::RedirectTarget, url: "https://k.youshop10.com/x".to_string() };
    let r = q.complete(LiveResponse::Fetched { final_url: "https://weidian.com/?itemid=1".to_string(), body: String::new() });
    assert!(matches!(r, Err(Error::FailedToRedirectUrl { .. })));
}

#[test]
fn transport_failure_keeps_url_and_message() {
    let q = LiveRequest { kind: LiveKind::RedirectTarget, url: "https://k.youshop10.com/x".to_string() };
    match q.complete(LiveResponse::Failed("connection refused".to_string())) {
        Err(Error::Transport { url, message }) => {
            assert_eq!(url, "https://k.youshop10.com/x");
            assert_eq!(message, "connection refused");
        }
        other => panic!("unexpected {:?}", other),
    }
}

#[test]
fn find_urls_keeps_trailing_punctuation_and_splits_on_white_space() {
    let text = "see https://a.com/x, and\thttp://b.org/y.\nhttps:// nothing\u{3000}https://c.net/z\u{3000}end httpsx://d";
    assert_eq!(find_urls(text), vec!["https://a.com/x,", "http://b.org/y.", "https://c.net/z"]);
    assert!(find_urls("").is_empty());
    assert!(find_urls("no links here").is_empty());
}

#[test]
fn bulk_keeps_the_order_of_the_text() {
    let c = Converter::new();
    let text = "a https://example.com/ b https://www.cssbuy.com/item-1.html c http://[::1 d https://cnfans.com/product?id=2&platform=TAOBAO";
    let mut scan = c.convert_bulk(text);
    assert!(scan.pending().is_none());
    let r = scan.finish();
    assert_eq!(r.successes, vec!["https://item.taobao.com/item.htm?id=1", "https://item.taobao.com/item.htm?id=2"]);
    assert_eq!(r.errors.len(), 2);
    assert_eq!(r.errors[0].0, "https://example.com/");
    assert!(matches!(r.errors[0].1, Error::NonConvertableUrl { .. }));
    assert_eq!(r.errors[1].0, "http://[::1");
    assert!(matches!(r.errors[1].1, Error::InvalidUrl { .. }));
}

#[test]
fn bulk_with_one_convertible_and_two_other_tokens() {
    let c = Converter::new();
    let text = "x https://www.rust-lang.org/ y https://oopbuy.com/product/0/5 z https://crates.io/";
    let r = c.convert_bulk(text).finish();
    assert_eq!(r.successes, vec!["https://detail.1688.com/offer/5.html"]);
    assert_eq!(r.errors.len(), 2);
    assert_eq!(r.errors[0].0, "https://www.rust-lang.org/");
    assert_eq!(r.errors[1].0, "https://crates.io/");
}

#[test]
fn bulk_records_a_failed_lookup_and_goes_on() {
    let c = Converter::new();
    let text = "https://m.tb.cn/h.a https://www.cssbuy.com/item-3.html https://k.youshop10.com/b";
    let mut scan = c.convert_bulk(text);
    assert_eq!(scan.pending().unwrap().kind, LiveKind::PageBody);
    scan.resume(LiveResponse::Failed("timeout".to_string()));
    assert_eq!(scan.pending().unwrap().kind, LiveKind::RedirectTarget);
    scan.resume(LiveResponse::Fetched { final_url: "https://weidian.com/item.html?itemID=8".to_string(), body: String::new() });
    assert!(scan.pending().is_none());
    let r = scan.finish();
    assert_eq!(r.successes, vec!["https://item.taobao.com/item.htm?id=3", "https://weidian.com/item.html?itemID=8"]);
    assert_eq!(r.errors.len(), 1);
    assert_eq!(r.errors[0].0, "https://m.tb.cn/h.a");
    assert!(matches!(r.errors[0].1, Error::Transport { .. }));
}

#[test]
fn short_link_body_is_scanned_before_the_final_url() {
    let q = LiveRequest { kind: LiveKind::PageBody, url: "https://m.tb.cn/h.y".to_string() };
    let r = q.complete(LiveResponse::Fetched {
        final_url: "https://a.m.taobao.com/i.htm?itemId=713649093700".to_string(),
        body: String::new(),
    });
    assert_eq!(r.unwrap(), "https://www.goofish.com/item?id=713649093700");
    let r = q.complete(LiveResponse::Fetched {
        final_url: "https://shop9.m.taobao.com/".to_string(),
        body: "itemId=1".to_string(),
    });
    assert_eq!(r.unwrap(), "https://www.goofish.com/item?id=1");
    let r = q.complete(LiveResponse::Fetched {
        final_url: "https://shop5.world.taobao.com/".to_string(),
        body: "<a href='x?itemId=713649093700'>".to_string(),
    });
    assert_eq!(r.unwrap(), "https://www.goofish.com/item?id=713649093700");
    let r = q.complete(LiveResponse::Fetched {
        final_url: "https://m.tb.cn/h.y".to_string(),
        body: "no marker".to_string(),
    });
    assert!(matches!(r, Err(Error::FailedToRedirectUrl { .. })));
}

#[test]
fn intl_link_without_id_is_not_convertible() {
    let c = Converter::new();
    let r = convert_now(&c, "https://m.intl.taobao.com/detail/detail.html?itemid=abc");
    assert!(matches!(r, Err(Error::NonConvertableUrl { .. })));
}
