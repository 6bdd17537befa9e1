//! The authorization flow: from a visitor without a code to a session that
//! holds the visitor's own credential, in five states. The flow decides; the
//! program around it redirects, calls the provider, claims the credential
//! store and writes the session, and reports back what happened.

use crate::config::{Config, ConfigView};
use crate::failure::{
    upstream_failure, Call, InternalError, InternalErrorView, PageResponse, PageResponseView,
    Stage, UpstreamError, UpstreamErrorView,
};
use crate::model::{Me, SessionAuth, TokenPair, TokenPairView};
use crate::pages::{authorized_page, authorized_text};
use crate::provider::{
    address_outcome, authorize_redirect, exchange_params, exchange_request, identity_request,
    redirect_params, request_outcome, ProviderRequest, ProviderRequestView, IDENTITY_URL,
};
use crate::web::{parsed_with_params, SPOTIFY_AUTH_URL, SPOTIFY_TOKEN_URL};
use vstd::prelude::*;

verus! {

/// Where a visitor's authorization stands.
#[derive(Debug, PartialEq, Eq)]
pub enum AuthState {
    /// The visitor has not come back from the provider with a code.
    AwaitingCode,
    /// The visitor brought a code; the exchange for tokens is under way.
    CodeReceived { code: String },
    /// The provider gave tokens; the lookup of their account is under way.
    TokensExchanged { tokens: TokenPair },
    /// The account is known; the session is being written.
    IdentityVerified { tokens: TokenPair, is_owner: bool },
    /// The session holds the visitor's credential. The flow is over.
    SessionBound { is_owner: bool },
    /// A step failed. The flow is over.
    Failed,
}

pub enum AuthStateView {
    AwaitingCode,
    CodeReceived { code: Seq<char> },
    TokensExchanged { tokens: TokenPairView },
    IdentityVerified { tokens: TokenPairView, is_owner: bool },
    SessionBound { is_owner: bool },
    Failed,
}

impl View for AuthState {
    type V = AuthStateView;

    open spec fn view(&self) -> AuthStateView {
        match self {
            AuthState::AwaitingCode => AuthStateView::AwaitingCode,
            AuthState::CodeReceived { code } => AuthStateView::CodeReceived { code: code@ },
            AuthState::TokensExchanged { tokens } => AuthStateView::TokensExchanged {
                tokens: tokens@,
            },
            AuthState::IdentityVerified { tokens, is_owner } => AuthStateView::IdentityVerified {
                tokens: tokens@,
                is_owner: *is_owner,
            },
            AuthState::SessionBound { is_owner } => AuthStateView::SessionBound {
                is_owner: *is_owner,
            },
            AuthState::Failed => AuthStateView::Failed,
        }
    }
}

/// What happened outside the flow.
#[derive(Debug, PartialEq, Eq)]
pub enum AuthEvent {
    /// The visitor asked for the authorization endpoint, with or without a code.
    Visit { code: Option<String> },
    /// The token endpoint answered, or the call failed.
    Tokens { reply: Result<TokenPair, UpstreamError> },
    /// The identity endpoint answered, or the call failed.
    Identity { account: Result<Me, UpstreamError> },
    /// The session store took the credential, or refused with these words.
    Bound { outcome: Result<(), String> },
}

pub enum AuthEventView {
    Visit { code: Option<Seq<char>> },
    Tokens { reply: Result<TokenPairView, UpstreamErrorView> },
    Identity { account: Result<Seq<char>, UpstreamErrorView> },
    Bound { outcome: Result<(), Seq<char>> },
}

impl View for AuthEvent {
    type V = AuthEventView;

    open spec fn view(&self) -> AuthEventView {
        match self {
            AuthEvent::Visit { code } => AuthEventView::Visit {
                code: match code {
                    Some(c) => Some(c@),
                    None => None,
                },
            },
            AuthEvent::Tokens { reply } => AuthEventView::Tokens {
                reply: match reply {
                    Ok(tokens) => Ok(tokens@),
                    Err(error) => Err(error@),
                },
            },
            AuthEvent::Identity { account } => AuthEventView::Identity {
                account: match account {
                    Ok(me) => Ok(me.id@),
                    Err(error) => Err(error@),
                },
            },
            AuthEvent::Bound { outcome } => AuthEventView::Bound {
                outcome: match outcome {
                    Ok(()) => Ok(()),
                    Err(words) => Err(words@),
                },
            },
        }
    }
}

/// What the program around the flow is to do next.
#[derive(Debug, PartialEq, Eq)]
pub enum AuthAction {
    /// Send the visitor to the provider's authorization page.
    Redirect { location: String },
    /// Make this call to the provider and report the answer.
    Send { request: ProviderRequest },
    /// Claim the credential store with `claim` if there is one and the store
    /// is empty; then write `session` into the visitor's session, whether or
    /// not anything was claimed, and report whether that worked.
    Bind { claim: Option<TokenPair>, session: SessionAuth },
    /// Answer the visitor with this page.
    Respond { response: PageResponse },
    /// Escalate this internal error.
    Escalate { error: InternalError },
}

pub enum AuthActionView {
    Redirect { location: Seq<char> },
    Send { request: ProviderRequestView },
    Bind { claim: Option<TokenPairView>, session: TokenPairView },
    Respond { response: PageResponseView },
    Escalate { error: InternalErrorView },
}

impl View for AuthAction {
    type V = AuthActionView;

    open spec fn view(&self) -> AuthActionView {
        match self {
            AuthAction::Redirect { location } => AuthActionView::Redirect { location: location@ },
            AuthAction::Send { request } => AuthActionView::Send { request: request@ },
            AuthAction::Bind { claim, session } => AuthActionView::Bind {
                claim: match claim {
                    Some(tokens) => Some(tokens@),
                    None => None,
                },
                session: session@,
            },
            AuthAction::Respond { response } => AuthActionView::Respond { response: response@ },
            AuthAction::Escalate { error } => AuthActionView::Escalate { error: error@ },
        }
    }
}

/// A failed step: the flow is over, and the error is escalated.
pub open spec fn failed(error: InternalErrorView) -> (AuthStateView, AuthActionView) {
    (AuthStateView::Failed, AuthActionView::Escalate { error })
}

/// The answer to a visit without a code: a redirect to the provider, after
/// which the flow still awaits the code.
pub open spec fn on_visit_without_code(config: ConfigView) -> (AuthStateView, AuthActionView) {
    match address_outcome(
        Stage::AuthorizeUrl,
        parsed_with_params(SPOTIFY_AUTH_URL@, redirect_params(config)),
    ) {
        Ok(location) => (AuthStateView::AwaitingCode, AuthActionView::Redirect { location }),
        Err(error) => failed(error),
    }
}

/// The answer to a visit with a code: the exchange of the code for tokens.
pub open spec fn on_visit_with_code(config: ConfigView, code: Seq<char>) -> (
    AuthStateView,
    AuthActionView,
) {
    match request_outcome(
        Call::Token,
        None,
        Stage::TokenUrl,
        parsed_with_params(SPOTIFY_TOKEN_URL@, exchange_params(config, code)),
    ) {
        Ok(request) => (AuthStateView::CodeReceived { code }, AuthActionView::Send { request }),
        Err(error) => failed(error),
    }
}

/// The answer to the tokens: the lookup of the account that they belong to.
pub open spec fn on_tokens(tokens: TokenPairView) -> (AuthStateView, AuthActionView) {
    (
        AuthStateView::TokensExchanged { tokens },
        AuthActionView::Send {
            request: ProviderRequestView {
                call: Call::Identity,
                url: IDENTITY_URL@,
                bearer: Some(tokens.access_token),
            },
        },
    )
}

/// The answer to the account's id. The owner's tokens are put up for the
/// credential store; every visitor's tokens go into the visitor's session.
pub open spec fn on_identity(config: ConfigView, tokens: TokenPairView, id: Seq<char>) -> (
    AuthStateView,
    AuthActionView,
) {
    let is_owner = id == config.owner_id;
    (
        AuthStateView::IdentityVerified { tokens, is_owner },
        AuthActionView::Bind {
            claim: if is_owner {
                Some(tokens)
            } else {
                None
            },
            session: tokens,
        },
    )
}

/// The answer to a written session: the page that ends the flow.
pub open spec fn on_bound(config: ConfigView, is_owner: bool) -> (AuthStateView, AuthActionView) {
    (
        AuthStateView::SessionBound { is_owner },
        AuthActionView::Respond {
            response: PageResponseView { status: 200, body: authorized_text(config, is_owner) },
        },
    )
}

/// The flow's transition: the next state and what to do, for each event that
/// the state awaits; `None` for an event that it does not await.
pub open spec fn auth_step(config: ConfigView, state: AuthStateView, event: AuthEventView)
    -> Option<(AuthStateView, AuthActionView)> {
    match (state, event) {
        (AuthStateView::AwaitingCode, AuthEventView::Visit { code: None }) => Some(
            on_visit_without_code(config),
        ),
        (AuthStateView::AwaitingCode, AuthEventView::Visit { code: Some(code) }) => Some(
            on_visit_with_code(config, code),
        ),
        (AuthStateView::CodeReceived { .. }, AuthEventView::Tokens { reply: Ok(tokens) }) => Some(
            on_tokens(tokens),
        ),
        (AuthStateView::CodeReceived { .. }, AuthEventView::Tokens { reply: Err(error) }) => Some(
            failed(upstream_failure(Call::Token, error)),
        ),
        (AuthStateView::TokensExchanged { tokens }, AuthEventView::Identity { account: Ok(id) })
            => Some(on_identity(config, tokens, id)),
        (AuthStateView::TokensExchanged { .. }, AuthEventView::Identity { account: Err(error) })
            => Some(failed(upstream_failure(Call::Identity, error))),
        (
            AuthStateView::IdentityVerified { is_owner, .. },
            AuthEventView::Bound { outcome: Ok(()) },
        ) => Some(on_bound(config, is_owner)),
        (AuthStateView::IdentityVerified { .. }, AuthEventView::Bound { outcome: Err(words) })
            => Some(
            failed(InternalErrorView { stage: Stage::TokenSession, message: words, payload: None }),
        ),
        _ => None,
    }
}

/// The view of a transition.
pub open spec fn step_view(r: Option<(AuthState, AuthAction)>) -> Option<
    (AuthStateView, AuthActionView),
> {
    match r {
        Some((state, action)) => Some((state@, action@)),
        None => None,
    }
}

/// Whether the account with this id is the owner that the service is run for.
pub fn is_owner(config: &Config, me: &Me) -> (owner: bool)
    ensures
        owner == (me.id@ == config@.owner_id),
{
    me.id == config.owner_id
}

impl AuthState {
    /// The state in which every flow starts.
    pub fn new() -> (state: AuthState)
        ensures
            state@ == AuthStateView::AwaitingCode,
    {
        AuthState::AwaitingCode
    }

    /// Whether the flow is over.
    pub fn is_terminal(&self) -> (over: bool)
        ensures
            over == (self@ is SessionBound || self@ is Failed),
    {
        match self {
            AuthState::SessionBound { .. } => true,
            AuthState::Failed => true,
            _ => false,
        }
    }

    /// Takes the flow one step on: from this state and what happened to the
    /// next state and what to do. An event that the state does not await
    /// gives `None`.
    pub fn step(self, config: &Config, event: AuthEvent) -> (r: Option<(AuthState, AuthAction)>)
        ensures
            step_view(r) == auth_step(config@, self@, event@),
    {
        match (self, event) {
            (AuthState::AwaitingCode, AuthEvent::Visit { code: None }) => {
                match authorize_redirect(config) {
                    Ok(location) => Some(
                        (AuthState::AwaitingCode, AuthAction::Redirect { location }),
                    ),
                    Err(error) => Some((AuthState::Failed, AuthAction::Escalate { error })),
                }
            },
            (AuthState::AwaitingCode, AuthEvent::Visit { code: Some(code) }) => {
                match exchange_request(config, code.as_str()) {
                    Ok(request) => Some(
                        (AuthState::CodeReceived { code }, AuthAction::Send { request }),
                    ),
                    Err(error) => Some((AuthState::Failed, AuthAction::Escalate { error })),
                }
            },
            (AuthState::CodeReceived { .. }, AuthEvent::Tokens { reply: Ok(tokens) }) => {
                let request = identity_request(tokens.access_token.as_str());
                Some((AuthState::TokensExchanged { tokens }, AuthAction::Send { request }))
            },
            (AuthState::CodeReceived { .. }, AuthEvent::Tokens { reply: Err(error) }) => {
                let error = InternalError::from_upstream(Call::Token, error);
                Some((AuthState::Failed, AuthAction::Escalate { error }))
            },
            (AuthState::TokensExchanged { tokens }, AuthEvent::Identity { account: Ok(me) }) => {
                let owner = is_owner(config, &me);
                let claim = if owner {
                    Some(tokens.clone())
                } else {
                    None
                };
                let session = SessionAuth(tokens.clone());
                Some(
                    (
                        AuthState::IdentityVerified { tokens, is_owner: owner },
                        AuthAction::Bind { claim, session },
                    ),
                )
            },
            (AuthState::TokensExchanged { .. }, AuthEvent::Identity { account: Err(error) }) => {
                let error = InternalError::from_upstream(Call::Identity, error);
                Some((AuthState::Failed, AuthAction::Escalate { error }))
            },
            (AuthState::IdentityVerified { is_owner, .. }, AuthEvent::Bound { outcome: Ok(()) })
                => {
                let response = PageResponse { status: 200, body: authorized_page(config, is_owner) };
                Some((AuthState::SessionBound { is_owner }, AuthAction::Respond { response }))
            },
            (
                AuthState::IdentityVerified { .. },
                AuthEvent::Bound { outcome: Err(words) },
            ) => {
                let error = InternalError {
                    stage: Stage::TokenSession,
                    message: words,
                    payload: None,
                };
                Some((AuthState::Failed, AuthAction::Escalate { error }))
            },
            _ => None,
        }
    }
}

} // verus!
