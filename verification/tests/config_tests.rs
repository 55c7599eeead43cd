use asset_import::config::assets_url;
use asset_import::config::bearer_header;
use asset_import::config::listing_url;
use asset_import::config::search_url;
use asset_import::config::AppConfig;

#[test]
fn bearer_header_prefixes_token() {
    assert_eq!(bearer_header("abc123"), "Bearer abc123");
    assert_eq!(bearer_header(""), "Bearer ");
}

#[test]
fn endpoint_urls() {
    let base = "https://hv.example.com";
    assert_eq!(search_url(base), "https://hv.example.com/api/asset/search");
    assert_eq!(assets_url(base), "https://hv.example.com/api/asset/assets");
    assert_eq!(
        listing_url(base),
        "https://hv.example.com/api/asset/assets?(limit)=25&(sort)=%2BId"
    );
}

#[test]
fn default_config_is_empty() {
    let c = AppConfig::default();
    assert_eq!(c.client_id, "");
    assert_eq!(c.client_secret, "");
    assert_eq!(c.scope, "");
    assert_eq!(c.auth_url, "");
    assert_eq!(c.token_url, "");
    assert_eq!(c.instance_url, "");
}
