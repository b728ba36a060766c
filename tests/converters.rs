#![allow(non_snake_case)]

use link_converter::converters::acbuy::AcBuy;
use link_converter::converters::cnfans::CnFans;
use link_converter::converters::cssbuy::CSSBuy;
use link_converter::converters::joyabuy::JoyaBuy;
use link_converter::converters::lovegobuy::LoveGoBuy;
use link_converter::converters::mobile_intl_taobao::MobileIntlTaobao;
use link_converter::converters::mobile_taobao::MobileTaobao;
use link_converter::converters::oopbuy::OopBuy;
use link_converter::converters::ootdbuy::OotdBuy;
use link_converter::converters::you_shop_10::YouShop10;
use link_converter::converters::you_shop_10_browser;
use link_converter::live::{LiveKind, LiveResponse};
use link_converter::source_url::SourceUrl;

const SHARE_LINK: &str = "https://k.youshop10.com/-s=uo-wD?a=b&p=iphone&wfr=BuyercopyURL&share_relation=e0fd773efc74bec4_1651287329_1";
const SHARE_TARGET: &str = "https://weidian.com/item.html?p=iphone&itemID=7301608442&a=b&wfr=BuyercopyURL&distributorId=1651287329&share_relation=e0fd773efc74bec4_1651287329_1";

fn parse(s: &str) -> SourceUrl {
    SourceUrl::parse(s).expect("test link parses")
}

#[test]
fn YouShop10_test_detects_convertable_url() {
    let url = parse(SHARE_LINK);
    let converter = you_shop_10_browser::YouShop10::new();
    assert!(converter.can_convert(&url));
}

#[test]
fn YouShop10_test_url_conversion() {
    let url = parse(SHARE_LINK);
    let converter = you_shop_10_browser::YouShop10::new();
    let request = converter.convert(&url);
    assert_eq!(request.kind, LiveKind::RenderedPage { timeout_secs: 5 });
    let actual = request.complete(LiveResponse::Fetched { final_url: SHARE_TARGET.to_string(), body: String::new() }).unwrap();
    assert_eq!(actual, "https://weidian.com/item.html?itemID=7301608442");
}

#[test]
fn acbuy_test_detects_convertable_url() {
    let url = parse("https://www.acbuy.com/product?id=758911450758&source=TB");
    assert!(AcBuy::new().can_convert(&url));
}

#[test]
fn acbuy_test_url_conversion() {
    let test_cases = [
        ("https://www.acbuy.com/product?id=758911450758&source=TB", "https://item.taobao.com/item.htm?id=758911450758"),
        ("https://www.acbuy.com/product?id=7322752149&source=WD", "https://weidian.com/item.html?itemID=7322752149"),
        ("https://www.acbuy.com/product?id=681296637536&source=AL", "https://detail.1688.com/offer/681296637536.html"),
    ];
    for (input, expected) in test_cases {
        let actual = AcBuy::new().convert(&parse(input)).unwrap();
        assert_eq!(actual, expected);
    }
}

#[test]
fn cnfans_test_detects_convertable_url() {
    let url = parse("https://cnfans.com/product?id=758911450758&platform=TAOBAO");
    assert!(CnFans::new().can_convert(&url));
}

#[test]
fn cnfans_test_url_conversion() {
    let test_cases = [
        ("https://cnfans.com/product?id=758911450758&platform=TAOBAO", "https://item.taobao.com/item.htm?id=758911450758"),
        ("https://cnfans.com/product?id=7322752149&platform=WEIDIAN", "https://weidian.com/item.html?itemID=7322752149"),
        ("https://cnfans.com/product?id=681296637536&platform=ALI_1688", "https://detail.1688.com/offer/681296637536.html"),
    ];
    for (input, expected) in test_cases {
        let actual = CnFans::new().convert(&parse(input)).unwrap();
        assert_eq!(actual, expected);
    }
}

#[test]
fn cssbuy_test_detects_convertable_url() {
    let url = parse("https://www.cssbuy.com/item-758911450758.html");
    assert!(CSSBuy::new().can_convert(&url));
}

#[test]
fn cssbuy_test_url_conversion_taobao() {
    let test_cases = [
        ("https://www.cssbuy.com/item-758911450758.html", "https://item.taobao.com/item.htm?id=758911450758"),
        ("https://www.cssbuy.com/item-micro-7322752149.html", "https://weidian.com/item.html?itemID=7322752149"),
        ("https://www.cssbuy.com/item-1688-681296637536.html", "https://detail.1688.com/offer/681296637536.html"),
    ];
    for (input, expected) in test_cases {
        let actual = CSSBuy::new().convert(&parse(input)).unwrap();
        assert_eq!(actual, expected);
    }
}

#[test]
fn joyabuy_test_detects_convertable_url() {
    let url = parse("https://joyabuy.com/product/?shop_type=taobao&id=758911450758");
    assert!(JoyaBuy::new().can_convert(&url));
}

#[test]
fn joyabuy_test_url_conversion() {
    let test_cases = [
        ("https://joyabuy.com/product/?shop_type=taobao&id=758911450758", "https://item.taobao.com/item.htm?id=758911450758"),
        ("https://joyabuy.com/product/?shop_type=weidian&id=7322752149", "https://weidian.com/item.html?itemID=7322752149"),
        ("https://joyabuy.com/product/?shop_type=ali_1688&id=681296637536", "https://detail.1688.com/offer/681296637536.html"),
    ];
    for (input, expected) in test_cases {
        let actual = JoyaBuy::new().convert(&parse(input)).unwrap();
        assert_eq!(actual, expected);
    }
}

#[test]
fn lovegobuy_test_detects_convertable_url() {
    let url = parse("https://m.lovegobuy.com/product?shop_type=taobao&id=758911450758");
    assert!(LoveGoBuy::new().can_convert(&url));
}

#[test]
fn lovegobuy_test_url_conversion() {
    let test_cases = [
        ("https://m.lovegobuy.com/product?shop_type=taobao&id=758911450758", "https://item.taobao.com/item.htm?id=758911450758"),
        ("https://m.lovegobuy.com/product?shop_type=weidian&id=7322752149", "https://weidian.com/item.html?itemID=7322752149"),
        ("https://m.lovegobuy.com/product?shop_type=1688&id=681296637536", "https://detail.1688.com/offer/681296637536.html"),
    ];
    for (input, expected) in test_cases {
        let actual = LoveGoBuy::new().convert(&parse(input)).unwrap();
        assert_eq!(actual, expected);
    }
}

#[test]
fn mobile_intl_taobao_test_detects_convertable_url() {
    let url = parse("https://m.intl.taobao.com/detail/detail.html?id=635308355125");
    assert!(MobileIntlTaobao::new().can_convert(&url));
}

#[test]
fn mobile_intl_taobao_test_url_conversion() {
    let url = parse("https://m.intl.taobao.com/detail/detail.html?id=635308355125");
    let actual = MobileIntlTaobao::new().convert(&url).unwrap();
    assert_eq!(actual, "https://item.taobao.com/item.htm?id=635308355125");
}

#[test]
fn mobile_taobao_test_detects_convertable_url() {
    let url = parse("https://m.tb.cn/h.TjKAehX?tk=Jrdnecne92w");
    assert!(MobileTaobao::new().can_convert(&url));
}

#[test]
fn mobile_taobao_test_url_conversion_taobao() {
    let url = parse("https://m.tb.cn/h.TTHL3ZZKsh88JtB");
    let request = MobileTaobao::new().convert(&url);
    assert_eq!(request.kind, LiveKind::PageBody);
    assert_eq!(request.url, "https://m.tb.cn/h.TTHL3ZZKsh88JtB");
    let body = "<script>var url = 'https://shop247709762.world.taobao.com/?spm=a';</script>";
    let actual = request.complete(LiveResponse::Fetched { final_url: request.url.clone(), body: body.to_string() }).unwrap();
    assert_eq!(actual, "https://shop247709762.world.taobao.com/");
}

#[test]
fn oopbuy_test_detects_convertable_url() {
    let url = parse("https://oopbuy.com/product/1/758911450758");
    assert!(OopBuy::new().can_convert(&url));
}

#[test]
fn oopbuy_test_url_conversion() {
    let test_cases = [
        ("https://oopbuy.com/product/1/758911450758", "https://item.taobao.com/item.htm?id=758911450758"),
        ("https://oopbuy.com/product/weidian/7322752149", "https://weidian.com/item.html?itemID=7322752149"),
        ("https://oopbuy.com/product/0/681296637536", "https://detail.1688.com/offer/681296637536.html"),
    ];
    for (input, expected) in test_cases {
        let actual = OopBuy::new().convert(&parse(input)).unwrap();
        assert_eq!(actual, expected);
    }
}

#[test]
fn ootdbuy_test_detects_convertable_url() {
    let url = parse("https://www.ootdbuy.com/goods/details?id=758911450758&channel=TAOBAO");
    assert!(OotdBuy::new().can_convert(&url));
}

#[test]
fn ootdbuy_test_url_conversion() {
    let test_cases = [
        ("https://www.ootdbuy.com/goods/details?id=758911450758&channel=TAOBAO", "https://item.taobao.com/item.htm?id=758911450758"),
        ("https://www.ootdbuy.com/goods/details?id=7322752149&channel=weidian", "https://weidian.com/item.html?itemID=7322752149"),
        ("https://www.ootdbuy.com/goods/details?id=681296637536&channel=1688", "https://detail.1688.com/offer/681296637536.html"),
    ];
    for (input, expected) in test_cases {
        let actual = OotdBuy::new().convert(&parse(input)).unwrap();
        assert_eq!(actual, expected);
    }
}

#[test]
fn you_shop_10_test_detects_convertable_url() {
    let url = parse(SHARE_LINK);
    assert!(YouShop10::new().can_convert(&url));
}

#[test]
fn you_shop_10_test_url_conversion() {
    let url = parse(SHARE_LINK);
    let request = YouShop10::new().convert(&url);
    assert_eq!(request.kind, LiveKind::RedirectTarget);
    let actual = request.complete(LiveResponse::Fetched { final_url: SHARE_TARGET.to_string(), body: String::new() }).unwrap();
    assert_eq!(actual, "https://weidian.com/item.html?itemID=7301608442");
}
