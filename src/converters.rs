//! One strategy per supported site.
pub mod acbuy;
pub mod cnfans;
pub mod joyabuy;
pub mod lovegobuy;
pub mod ootdbuy;
pub mod cssbuy;
pub mod mobile_intl_taobao;
pub mod oopbuy;
pub mod mobile_taobao;
pub mod you_shop_10;
pub mod you_shop_10_browser;
