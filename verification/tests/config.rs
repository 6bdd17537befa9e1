use spotti::config::{Config, ConfigError, StringConfig, ME};
use spotti::make_link;
use spotti::web::MAX_ADDRESS_BYTES;

fn strings(base_url: &str) -> StringConfig {
    StringConfig {
        db_file: String::from("songs.db"),
        error_file: String::from("/tmp/error"),
        bot_pidfile: String::from("/tmp/bot.pid"),
        client_id: String::from("cid"),
        client_secret: String::from("sec"),
        base_url: String::from(base_url),
        authorize_endpoint: String::from("authorize"),
        refresh_endpoint: String::from("refresh"),
        get_new_endpoint: String::new(),
        show_all_endpoint: String::from("all"),
        uptime_endpoint: String::from("uptime"),
        get_new_limit: 20,
        address: String::from("127.0.0.1:3000"),
    }
}

#[test]
fn link_wraps_href_and_text() {
    assert_eq!(make_link("https://example.com/", "back"), "<a href=https://example.com/>back</a>");
    assert_eq!(make_link("", ""), "<a href=></a>");
}

#[test]
fn endpoints_are_segments_after_the_base() {
    let config = Config::from(strings("https://example.com")).unwrap();
    assert_eq!(config.authorize_url.as_str(), "https://example.com/authorize");
    assert_eq!(config.refresh_url.as_str(), "https://example.com/refresh");
    assert_eq!(config.show_all_url.as_str(), "https://example.com/all");
    assert_eq!(config.uptime_url.as_str(), "https://example.com/uptime");
    assert_eq!(config.authorize_url.path(), "/authorize");
}

#[test]
fn an_endpoint_without_a_name_is_the_base_itself() {
    let config = Config::from(strings("https://example.com")).unwrap();
    assert_eq!(config.get_new_url.as_str(), "https://example.com/");
    assert_eq!(config.get_new_url.path(), "/");
}

#[test]
fn endpoints_follow_the_path_of_the_base() {
    let config = Config::from(strings("https://example.com/app")).unwrap();
    assert_eq!(config.authorize_url.as_str(), "https://example.com/app/authorize");
    assert_eq!(config.get_new_url.as_str(), "https://example.com/app");
}

#[test]
fn an_endpoint_name_is_one_segment_even_with_a_slash() {
    let mut file = strings("https://example.com");
    file.show_all_endpoint = String::from("show/all");
    let config = Config::from(file).unwrap();
    assert_eq!(config.show_all_url.as_str(), "https://example.com/show%2Fall");
}

#[test]
fn plain_values_are_carried_over() {
    let config = Config::from(strings("https://example.com")).unwrap();
    assert_eq!(config.db_file, "songs.db");
    assert_eq!(config.error_file, "/tmp/error");
    assert_eq!(config.bot_pidfile, "/tmp/bot.pid");
    assert_eq!(config.client_id, "cid");
    assert_eq!(config.client_secret, "sec");
    assert_eq!(config.get_new_limit, 20);
    assert_eq!(config.address, "127.0.0.1:3000");
    assert_eq!(config.owner_id, ME);
    assert_eq!(ME, "th59jhhlgloqhkwcj5foha869");
}

#[test]
fn a_base_that_does_not_parse_is_refused() {
    assert_eq!(
        Config::from(strings("not a url")),
        Err(ConfigError::InvalidBaseUrl(url::ParseError::RelativeUrlWithoutBase))
    );
    assert_eq!(
        Config::from(strings("https://")),
        Err(ConfigError::InvalidBaseUrl(url::ParseError::EmptyHost))
    );
}

#[test]
fn a_refusal_says_why() {
    let refused = Config::from(strings("not a url")).unwrap_err();
    assert_eq!(refused.describe(), "invalid base URL: relative URL without a base");
    let refused = Config::from(strings("https://")).unwrap_err();
    assert_eq!(refused.describe(), "invalid base URL: empty host");
    assert_eq!(ConfigError::NeedDomain.describe(), "need domain name");
    assert_eq!(ConfigError::TooLong.describe(), "base URL or endpoint name too long");
}

#[test]
fn a_base_without_a_domain_is_refused() {
    assert_eq!(Config::from(strings("https://127.0.0.1:3000")), Err(ConfigError::NeedDomain));
    assert_eq!(Config::from(strings("mailto:me@example.com")), Err(ConfigError::NeedDomain));
}

#[test]
fn an_endpoint_name_over_the_limit_is_refused() {
    let mut file = strings("https://example.com");
    file.uptime_endpoint = "u".repeat(MAX_ADDRESS_BYTES + 1);
    assert_eq!(Config::from(file), Err(ConfigError::TooLong));
    let mut file = strings("https://example.com");
    file.uptime_endpoint = "u".repeat(MAX_ADDRESS_BYTES);
    assert!(Config::from(file).is_ok());
}

#[test]
fn links_point_at_the_endpoints() {
    let config = Config::from(strings("https://example.com")).unwrap();
    assert_eq!(config.authorize_link("log in"), "<a href=https://example.com/authorize>log in</a>");
    assert_eq!(config.refresh_link("refresh"), "<a href=https://example.com/refresh>refresh</a>");
    assert_eq!(config.get_new_link("back"), "<a href=https://example.com/>back</a>");
    assert_eq!(config.show_all_link("show all"), "<a href=https://example.com/all>show all</a>");
}
