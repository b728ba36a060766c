use link_converter::live::{LiveKind, LiveResponse};
use link_converter::source_url::SourceUrl;
use link_converter::{Converter, Resolution};

const SHARE_LINK: &str = "https://k.youshop10.com/-s=uo-wD?a=b&p=iphone&wfr=BuyercopyURL&share_relation=e0fd773efc74bec4_1651287329_1";
const SHARE_TARGET: &str = "https://weidian.com/item.html?p=iphone&itemID=7301608442&a=b&wfr=BuyercopyURL&distributorId=1651287329&share_relation=e0fd773efc74bec4_1651287329_1";

#[test]
fn test_converting_correct_url() {
    let url = SourceUrl::parse(SHARE_LINK).unwrap();
    let converter = Converter::new();
    let converted_url = match converter.convert_one(&url) {
        Resolution::Live(request) => {
            assert_eq!(request.kind, LiveKind::RedirectTarget);
            request.complete(LiveResponse::Fetched { final_url: SHARE_TARGET.to_string(), body: String::new() }).unwrap()
        }
        Resolution::Done(r) => r.unwrap(),
    };
    assert_eq!(
        converted_url, "https://weidian.com/item.html?itemID=7301608442",
        "url should convert correctly"
    );
}

#[test]
fn test_converting_bulk_convert_url() {
    let text = "Hello https://www.rust-lang.org/ friend https://k.youshop10.com/-s=uo-wD?a=b&p=iphone&wfr=BuyercopyURL&share_relation=e0fd773efc74bec4_1651287329_1   LOL THIS IS
		what the flip https://crates.io/ asdasd";

    let converter = Converter::new();
    let mut scan = converter.convert_bulk(text);
    while let Some(request) = scan.pending() {
        assert_eq!(request.kind, LiveKind::RedirectTarget);
        scan.resume(LiveResponse::Fetched { final_url: SHARE_TARGET.to_string(), body: String::new() });
    }
    let conversion_res = scan.finish();

    assert!(conversion_res.successes.len() == 1, "Should convert 1 URL");
    assert!(
        conversion_res.errors.len() == 2,
        "Should fail to convert 2 URL's"
    );
}

#[test]
fn test_fail_converting_wrong_url() {
    let url = SourceUrl::parse("https://item.taobao.com/item.htm?id=586064449302").unwrap();
    let converter = Converter::new();
    let converted_url = converter.convert_one(&url);
    assert!(
        matches!(converted_url, Resolution::Done(Err(_))),
        "url conversion should fail"
    );
}
