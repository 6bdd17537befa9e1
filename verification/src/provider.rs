//! The provider client: the four calls that the service makes to the
//! provider, as requests to send. Sending them, and reading the answers, is
//! the work of the program around the library.

use crate::config::{Config, ConfigView};
use crate::failure::{Call, InternalError, InternalErrorView, Stage};
use crate::model::opt_text;
use crate::text::{decimal, push_decimal};
use crate::web::{
    fault_text, pair_texts, parse_url_with_params, parsed_with_params, url_as_str,
    MAX_TEMPLATE_CHARS, SPOTIFY_AUTH_URL, SPOTIFY_TOKEN_URL,
};
use vstd::prelude::*;

verus! {

/// Where the provider says whose token it has been given.
pub const IDENTITY_URL: &'static str = "https://api.spotify.com/v1/me";

/// Where the provider lists the tracks that an account played last.
pub const RECENT_URL: &'static str = "https://api.spotify.com/v1/me/player/recently-played";

/// What the service asks a visitor to allow: reading the recently played
/// tracks, and changing what is playing.
pub const SCOPE: &'static str = "user-read-recently-played user-modify-playback-state";

/// The number of plays that one fetch asks for.
pub const FETCH_LIMIT: u32 = 50;

/// One call to the provider. A `Token` or `Refresh` call is a POST with an
/// empty form as its body; an `Identity` or `Recent` call is a GET that
/// presents `bearer` as its bearer token.
#[derive(Debug, PartialEq, Eq)]
pub struct ProviderRequest {
    pub call: Call,
    pub url: String,
    pub bearer: Option<String>,
}

pub struct ProviderRequestView {
    pub call: Call,
    pub url: Seq<char>,
    pub bearer: Option<Seq<char>>,
}

impl View for ProviderRequest {
    type V = ProviderRequestView;

    open spec fn view(&self) -> ProviderRequestView {
        ProviderRequestView { call: self.call, url: self.url@, bearer: opt_text(self.bearer) }
    }
}

/// The parameters of the provider's authorization page.
pub open spec fn redirect_params(config: ConfigView) -> Seq<(Seq<char>, Seq<char>)> {
    seq![
        ("client_id"@, config.client_id),
        ("redirect_uri"@, config.authorize_url),
        ("scope"@, SCOPE@),
    ]
}

/// The parameters of an authorization-code grant.
pub open spec fn exchange_params(config: ConfigView, code: Seq<char>) -> Seq<
    (Seq<char>, Seq<char>),
> {
    seq![
        ("grant_type"@, "authorization_code"@),
        ("code"@, code),
        ("redirect_uri"@, config.authorize_url),
        ("client_id"@, config.client_id),
        ("client_secret"@, config.client_secret),
    ]
}

/// The parameters of a refresh-token grant.
pub open spec fn refresh_params(config: ConfigView, refresh_token: Seq<char>) -> Seq<
    (Seq<char>, Seq<char>),
> {
    seq![
        ("grant_type"@, "refresh_token"@),
        ("refresh_token"@, refresh_token),
        ("redirect_uri"@, config.authorize_url),
        ("client_id"@, config.client_id),
        ("client_secret"@, config.client_secret),
    ]
}

/// The parameters of a fetch of the `page_size` most recent plays.
pub open spec fn recent_params(page_size: u32) -> Seq<(Seq<char>, Seq<char>)> {
    seq![("limit"@, decimal(page_size as nat))]
}

/// An address with parameters, or the internal error at `stage` that its
/// refusal becomes.
pub open spec fn address_outcome(stage: Stage, made: Result<Seq<char>, Seq<char>>) -> Result<
    Seq<char>,
    InternalErrorView,
> {
    match made {
        Ok(url) => Ok(url),
        Err(words) => Err(InternalErrorView { stage, message: words, payload: None }),
    }
}

/// A request to the address with parameters, or the internal error at `stage`.
pub open spec fn request_outcome(
    call: Call,
    bearer: Option<Seq<char>>,
    stage: Stage,
    made: Result<Seq<char>, Seq<char>>,
) -> Result<ProviderRequestView, InternalErrorView> {
    match made {
        Ok(url) => Ok(ProviderRequestView { call, url, bearer }),
        Err(words) => Err(InternalErrorView { stage, message: words, payload: None }),
    }
}

/// The view of an address or the error in its place.
pub open spec fn address_view(r: Result<String, InternalError>) -> Result<
    Seq<char>,
    InternalErrorView,
> {
    match r {
        Ok(url) => Ok(url@),
        Err(error) => Err(error@),
    }
}

/// The view of a request or the error in its place.
pub open spec fn request_view(r: Result<ProviderRequest, InternalError>) -> Result<
    ProviderRequestView,
    InternalErrorView,
> {
    match r {
        Ok(request) => Ok(request@),
        Err(error) => Err(error@),
    }
}

/// The address that `template` and `params` make, or the error at `stage`.
fn address_with(template: &str, params: &Vec<(&str, &str)>, stage: Stage) -> (r: Result<
    String,
    InternalError,
>)
    requires
        template@.len() <= MAX_TEMPLATE_CHARS,
        !template@.contains('#'),
    ensures
        address_view(r) == address_outcome(
            stage,
            parsed_with_params(template@, pair_texts(params@)),
        ),
{
    match parse_url_with_params(template, params) {
        Ok(address) => Ok(String::from_str(url_as_str(&address))),
        Err(fault) => Err(InternalError { stage, message: fault_text(&fault), payload: None }),
    }
}

/// Where to send a visitor who has not brought a code: the provider's
/// authorization page, told who asks, where to come back to, and for what.
pub fn authorize_redirect(config: &Config) -> (r: Result<String, InternalError>)
    ensures
        address_view(r) == address_outcome(
            Stage::AuthorizeUrl,
            parsed_with_params(SPOTIFY_AUTH_URL@, redirect_params(config@)),
        ),
{
    let params = vec![
        ("client_id", config.client_id.as_str()),
        ("redirect_uri", url_as_str(&config.authorize_url)),
        ("scope", SCOPE),
    ];
    proof {
        reveal_strlit("https://accounts.spotify.com/authorize?response_type=code");
        assert(pair_texts(params@) =~= redirect_params(config@));
    }
    address_with(SPOTIFY_AUTH_URL, &params, Stage::AuthorizeUrl)
}

/// The exchange of an authorization code for a pair of tokens.
pub fn exchange_request(config: &Config, code: &str) -> (r: Result<ProviderRequest, InternalError>)
    ensures
        request_view(r) == request_outcome(
            Call::Token,
            None,
            Stage::TokenUrl,
            parsed_with_params(SPOTIFY_TOKEN_URL@, exchange_params(config@, code@)),
        ),
{
    let params = vec![
        ("grant_type", "authorization_code"),
        ("code", code),
        ("redirect_uri", url_as_str(&config.authorize_url)),
        ("client_id", config.client_id.as_str()),
        ("client_secret", config.client_secret.as_str()),
    ];
    proof {
        reveal_strlit("https://accounts.spotify.com/api/token");
        assert(pair_texts(params@) =~= exchange_params(config@, code@));
    }
    match address_with(SPOTIFY_TOKEN_URL, &params, Stage::TokenUrl) {
        Ok(url) => Ok(ProviderRequest { call: Call::Token, url, bearer: None }),
        Err(error) => Err(error),
    }
}

/// The renewal of a credential by its refresh token.
pub fn refresh_request(config: &Config, refresh_token: &str) -> (r: Result<
    ProviderRequest,
    InternalError,
>)
    ensures
        request_view(r) == request_outcome(
            Call::Refresh,
            None,
            Stage::RefreshUrl,
            parsed_with_params(SPOTIFY_TOKEN_URL@, refresh_params(config@, refresh_token@)),
        ),
{
    let params = vec![
        ("grant_type", "refresh_token"),
        ("refresh_token", refresh_token),
        ("redirect_uri", url_as_str(&config.authorize_url)),
        ("client_id", config.client_id.as_str()),
        ("client_secret", config.client_secret.as_str()),
    ];
    proof {
        reveal_strlit("https://accounts.spotify.com/api/token");
        assert(pair_texts(params@) =~= refresh_params(config@, refresh_token@));
    }
    match address_with(SPOTIFY_TOKEN_URL, &params, Stage::RefreshUrl) {
        Ok(url) => Ok(ProviderRequest { call: Call::Refresh, url, bearer: None }),
        Err(error) => Err(error),
    }
}

/// The lookup of the account that `access_token` belongs to.
pub fn identity_request(access_token: &str) -> (request: ProviderRequest)
    ensures
        request@ == (ProviderRequestView {
            call: Call::Identity,
            url: IDENTITY_URL@,
            bearer: Some(access_token@),
        }),
{
    ProviderRequest {
        call: Call::Identity,
        url: String::from_str(IDENTITY_URL),
        bearer: Some(String::from_str(access_token)),
    }
}

/// The fetch of the `page_size` most recent plays of the account that
/// `access_token` belongs to.
pub fn recent_request(access_token: &str, page_size: u32) -> (r: Result<
    ProviderRequest,
    InternalError,
>)
    ensures
        request_view(r) == request_outcome(
            Call::Recent,
            Some(access_token@),
            Stage::RecentRequest,
            parsed_with_params(RECENT_URL@, recent_params(page_size)),
        ),
{
    let mut limit = String::new();
    push_decimal(&mut limit, page_size as u64);
    let params = vec![("limit", limit.as_str())];
    proof {
        reveal_strlit("https://api.spotify.com/v1/me/player/recently-played");
        assert(limit@ == decimal(page_size as nat));
        assert(pair_texts(params@) =~= recent_params(page_size));
    }
    match address_with(RECENT_URL, &params, Stage::RecentRequest) {
        Ok(url) => Ok(
            ProviderRequest {
                call: Call::Recent,
                url,
                bearer: Some(String::from_str(access_token)),
            },
        ),
        Err(error) => Err(error),
    }
}

} // verus!
