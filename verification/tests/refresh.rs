use spotti::config::{Config, StringConfig};
use spotti::failure::{unauthorized, Call, InternalError, PageResponse, Phase, Stage, UpstreamError};
use spotti::provider::ProviderRequest;
use spotti::refresh::{begin_refresh, finish_refresh, RefreshEnd, RefreshStart};
use spotti::{CredentialStore, GlobalAuth, MaybeAuth, TokenPair};

fn config() -> Config {
    Config::from(StringConfig {
        db_file: String::from("songs.db"),
        error_file: String::from("/tmp/error"),
        bot_pidfile: String::from("/tmp/bot.pid"),
        client_id: String::from("cid"),
        client_secret: String::from("sec"),
        base_url: String::from("https://example.com"),
        authorize_endpoint: String::from("authorize"),
        refresh_endpoint: String::from("refresh"),
        get_new_endpoint: String::new(),
        show_all_endpoint: String::from("all"),
        uptime_endpoint: String::from("uptime"),
        get_new_limit: 20,
        address: String::from("127.0.0.1:3000"),
    })
    .unwrap()
}

fn pair(access: &str, refresh: &str) -> TokenPair {
    TokenPair { access_token: String::from(access), refresh_token: String::from(refresh) }
}

fn claimed() -> CredentialStore {
    let mut store = CredentialStore::new();
    store.claim_if_empty(pair("a1", "r1"));
    store
}

const UNAUTHORIZED: &str = "<!doctype html>\n<html>\n  <head><title>unauthorized</title></head>\n  <body>\n    <h1>you're unauthorized</h1>\n    <p>go get <a href=https://example.com/authorize>authorized</a></p>\n  </body>\n</html>";

const REFRESHED: &str = "<!doctype html>\n<html>\n  <head><title>NOT LAST.FM: refreshed</title></head>\n  <body>\n    <h1>ahhhhh</h1>\n    <p>refreshing. <a href=https://example.com/>back</a></p>\n  </body>\n</html>";

#[test]
fn without_a_credential_the_visitor_is_told_so() {
    let config = config();
    assert_eq!(
        begin_refresh(&config, &None),
        RefreshStart::Unauthorized {
            response: PageResponse { status: 400, body: String::from(UNAUTHORIZED) }
        }
    );
    assert_eq!(
        unauthorized(&config),
        PageResponse { status: 400, body: String::from(UNAUTHORIZED) }
    );
}

#[test]
fn with_a_credential_the_provider_is_asked() {
    let store = claimed();
    assert_eq!(
        begin_refresh(&config(), &store.read()),
        RefreshStart::Send {
            request: ProviderRequest {
                call: Call::Refresh,
                url: String::from(
                    "https://accounts.spotify.com/api/token?grant_type=refresh_token&refresh_token=r1&redirect_uri=https%3A%2F%2Fexample.com%2Fauthorize&client_id=cid&client_secret=sec"
                ),
                bearer: None,
            }
        }
    );
}

#[test]
fn an_answer_without_a_refresh_token_keeps_the_stored_one() {
    let mut store = claimed();
    let fresh = MaybeAuth { access_token: String::from("a2"), refresh_token: None };
    let end = finish_refresh(&config(), &mut store, Ok(fresh));
    assert_eq!(
        end,
        RefreshEnd::Refreshed { response: PageResponse { status: 200, body: String::from(REFRESHED) } }
    );
    assert_eq!(store.read(), Some(GlobalAuth(pair("a2", "r1"))));
}

#[test]
fn an_answer_with_a_refresh_token_replaces_both() {
    let mut store = claimed();
    let fresh =
        MaybeAuth { access_token: String::from("a2"), refresh_token: Some(String::from("r2")) };
    let end = finish_refresh(&config(), &mut store, Ok(fresh));
    assert!(matches!(end, RefreshEnd::Refreshed { .. }));
    assert_eq!(store.read(), Some(GlobalAuth(pair("a2", "r2"))));
}

#[test]
fn a_failed_call_leaves_the_store_alone() {
    let mut store = claimed();
    let error = UpstreamError::Transport { phase: Phase::Send, message: String::from("timed out") };
    let end = finish_refresh(&config(), &mut store, Err(error));
    assert_eq!(
        end,
        RefreshEnd::Escalate {
            error: InternalError {
                stage: Stage::RefreshRequest,
                message: String::from("timed out"),
                payload: None,
            }
        }
    );
    assert_eq!(store.read(), Some(GlobalAuth(pair("a1", "r1"))));
}

#[test]
fn an_answer_that_does_not_parse_is_escalated_with_its_body() {
    let mut store = claimed();
    let error = UpstreamError::Format {
        message: String::from("expected value"),
        raw_body: String::from("<html>"),
    };
    let end = finish_refresh(&config(), &mut store, Err(error));
    assert_eq!(
        end,
        RefreshEnd::Escalate {
            error: InternalError {
                stage: Stage::RefreshJson,
                message: String::from("expected value"),
                payload: Some(String::from("<html>")),
            }
        }
    );
    assert_eq!(store.read(), Some(GlobalAuth(pair("a1", "r1"))));
}

#[test]
fn an_answer_for_an_empty_store_changes_nothing() {
    let mut store = CredentialStore::new();
    let fresh = MaybeAuth { access_token: String::from("a2"), refresh_token: None };
    let end = finish_refresh(&config(), &mut store, Ok(fresh));
    assert_eq!(
        end,
        RefreshEnd::Unauthorized {
            response: PageResponse { status: 400, body: String::from(UNAUTHORIZED) }
        }
    );
    assert_eq!(store.read(), None);
}
