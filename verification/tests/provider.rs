use spotti::config::{Config, StringConfig};
use spotti::failure::Call;
use spotti::provider::{
    authorize_redirect, exchange_request, identity_request, recent_request, refresh_request,
    ProviderRequest, FETCH_LIMIT, IDENTITY_URL, RECENT_URL, SCOPE,
};
use spotti::{SPOTIFY_AUTH_URL, SPOTIFY_TOKEN_URL};

fn config() -> Config {
    Config::from(StringConfig {
        db_file: String::from("songs.db"),
        error_file: String::from("/tmp/error"),
        bot_pidfile: String::from("/tmp/bot.pid"),
        client_id: String::from("cid"),
        client_secret: String::from("s e&c"),
        base_url: String::from("https://example.com"),
        authorize_endpoint: String::from("authorize"),
        refresh_endpoint: String::from("refresh"),
        get_new_endpoint: String::new(),
        show_all_endpoint: String::from("all"),
        uptime_endpoint: String::from("uptime"),
        get_new_limit: 20,
        address: String::from("127.0.0.1:3000"),
    })
    .unwrap()
}

#[test]
fn the_provider_addresses_are_fixed() {
    assert_eq!(SPOTIFY_AUTH_URL, "https://accounts.spotify.com/authorize?response_type=code");
    assert_eq!(SPOTIFY_TOKEN_URL, "https://accounts.spotify.com/api/token");
    assert_eq!(IDENTITY_URL, "https://api.spotify.com/v1/me");
    assert_eq!(RECENT_URL, "https://api.spotify.com/v1/me/player/recently-played");
    assert_eq!(SCOPE, "user-read-recently-played user-modify-playback-state");
    assert_eq!(FETCH_LIMIT, 50);
}

#[test]
fn the_redirect_names_client_target_and_scope() {
    assert_eq!(
        authorize_redirect(&config()),
        Ok(String::from(
            "https://accounts.spotify.com/authorize?response_type=code&client_id=cid&redirect_uri=https%3A%2F%2Fexample.com%2Fauthorize&scope=user-read-recently-played+user-modify-playback-state"
        ))
    );
}

#[test]
fn the_redirect_is_what_the_address_crate_builds() {
    let config = config();
    let expected = url::Url::parse_with_params(
        SPOTIFY_AUTH_URL,
        &[
            ("client_id", "cid"),
            ("redirect_uri", "https://example.com/authorize"),
            ("scope", "user-read-recently-played user-modify-playback-state"),
        ],
    )
    .unwrap();
    assert_eq!(authorize_redirect(&config).unwrap(), expected.as_str());
}

#[test]
fn the_exchange_is_a_token_call_with_the_code() {
    assert_eq!(
        exchange_request(&config(), "a/b c"),
        Ok(ProviderRequest {
            call: Call::Token,
            url: String::from(
                "https://accounts.spotify.com/api/token?grant_type=authorization_code&code=a%2Fb+c&redirect_uri=https%3A%2F%2Fexample.com%2Fauthorize&client_id=cid&client_secret=s+e%26c"
            ),
            bearer: None,
        })
    );
}

#[test]
fn the_refresh_is_a_refresh_call_with_the_token() {
    assert_eq!(
        refresh_request(&config(), "r1"),
        Ok(ProviderRequest {
            call: Call::Refresh,
            url: String::from(
                "https://accounts.spotify.com/api/token?grant_type=refresh_token&refresh_token=r1&redirect_uri=https%3A%2F%2Fexample.com%2Fauthorize&client_id=cid&client_secret=s+e%26c"
            ),
            bearer: None,
        })
    );
}

#[test]
fn the_identity_lookup_presents_the_access_token() {
    assert_eq!(
        identity_request("a1"),
        ProviderRequest {
            call: Call::Identity,
            url: String::from("https://api.spotify.com/v1/me"),
            bearer: Some(String::from("a1")),
        }
    );
}

#[test]
fn the_fetch_asks_for_a_page_of_the_given_size() {
    assert_eq!(
        recent_request("a1", 50),
        Ok(ProviderRequest {
            call: Call::Recent,
            url: String::from("https://api.spotify.com/v1/me/player/recently-played?limit=50"),
            bearer: Some(String::from("a1")),
        })
    );
    assert_eq!(
        recent_request("a1", 0).unwrap().url,
        "https://api.spotify.com/v1/me/player/recently-played?limit=0"
    );
    assert_eq!(
        recent_request("a1", u32::MAX).unwrap().url,
        "https://api.spotify.com/v1/me/player/recently-played?limit=4294967295"
    );
}
