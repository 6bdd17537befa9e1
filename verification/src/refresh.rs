//! The refresh flow: renewing the service's credential with its refresh
//! token. The store is read before the call to the provider and written after
//! it, and is free in between.

use crate::config::{Config, ConfigView};
use crate::credentials::{snapshot_view, updated, CredentialStore, Slot};
use crate::failure::{
    unauthorized, unauthorized_response_view, upstream_failure, Call, InternalError,
    InternalErrorView, PageResponse, PageResponseView, Stage, UpstreamError, UpstreamErrorView,
};
use crate::model::{GlobalAuth, MaybeAuth, MaybeAuthView};
use crate::pages::{refreshed_page, refreshed_text};
use crate::provider::{
    refresh_params, refresh_request, request_outcome, ProviderRequest, ProviderRequestView,
};
use crate::web::{parsed_with_params, SPOTIFY_TOKEN_URL};
use vstd::prelude::*;

verus! {

/// How a refresh begins.
#[derive(Debug, PartialEq, Eq)]
pub enum RefreshStart {
    /// There is no credential to refresh: answer with this page. Nothing is
    /// escalated.
    Unauthorized { response: PageResponse },
    /// Make this call to the provider and hand the answer to `finish_refresh`.
    Send { request: ProviderRequest },
    /// Escalate this internal error.
    Escalate { error: InternalError },
}

pub enum RefreshStartView {
    Unauthorized { response: PageResponseView },
    Send { request: ProviderRequestView },
    Escalate { error: InternalErrorView },
}

impl View for RefreshStart {
    type V = RefreshStartView;

    open spec fn view(&self) -> RefreshStartView {
        match self {
            RefreshStart::Unauthorized { response } => RefreshStartView::Unauthorized {
                response: response@,
            },
            RefreshStart::Send { request } => RefreshStartView::Send { request: request@ },
            RefreshStart::Escalate { error } => RefreshStartView::Escalate { error: error@ },
        }
    }
}

/// How a refresh ends.
#[derive(Debug, PartialEq, Eq)]
pub enum RefreshEnd {
    /// The store holds the renewed credential: answer with this page.
    Refreshed { response: PageResponse },
    /// The store was empty when the answer came: answer with this page.
    Unauthorized { response: PageResponse },
    /// Escalate this internal error.
    Escalate { error: InternalError },
}

pub enum RefreshEndView {
    Refreshed { response: PageResponseView },
    Unauthorized { response: PageResponseView },
    Escalate { error: InternalErrorView },
}

impl View for RefreshEnd {
    type V = RefreshEndView;

    open spec fn view(&self) -> RefreshEndView {
        match self {
            RefreshEnd::Refreshed { response } => RefreshEndView::Refreshed {
                response: response@,
            },
            RefreshEnd::Unauthorized { response } => RefreshEndView::Unauthorized {
                response: response@,
            },
            RefreshEnd::Escalate { error } => RefreshEndView::Escalate { error: error@ },
        }
    }
}

/// The beginning of a refresh, from what the store held when it was read.
pub open spec fn refresh_start(config: ConfigView, snapshot: Slot) -> RefreshStartView {
    match snapshot {
        None => RefreshStartView::Unauthorized { response: unauthorized_response_view(config) },
        Some(auth) => match request_outcome(
            Call::Refresh,
            None,
            Stage::RefreshUrl,
            parsed_with_params(SPOTIFY_TOKEN_URL@, refresh_params(config, auth.refresh_token)),
        ) {
            Ok(request) => RefreshStartView::Send { request },
            Err(error) => RefreshStartView::Escalate { error },
        },
    }
}

/// The view of the provider's answer to a refresh, or of the call's failure.
pub open spec fn refresh_reply_view(reply: Result<MaybeAuth, UpstreamError>) -> Result<
    MaybeAuthView,
    UpstreamErrorView,
> {
    match reply {
        Ok(fresh) => Ok(fresh@),
        Err(error) => Err(error@),
    }
}

/// The store after the provider's answer: renewed by an answer, untouched by
/// a failure.
pub open spec fn refresh_store(slot: Slot, reply: Result<MaybeAuthView, UpstreamErrorView>)
    -> Slot {
    match reply {
        Ok(fresh) => updated(slot, fresh),
        Err(_) => slot,
    }
}

/// The end of a refresh, from what the store held when the answer came.
pub open spec fn refresh_end(
    config: ConfigView,
    slot: Slot,
    reply: Result<MaybeAuthView, UpstreamErrorView>,
) -> RefreshEndView {
    match reply {
        Err(error) => RefreshEndView::Escalate { error: upstream_failure(Call::Refresh, error) },
        Ok(_) => match slot {
            Some(_) => RefreshEndView::Refreshed {
                response: PageResponseView { status: 200, body: refreshed_text(config) },
            },
            None => RefreshEndView::Unauthorized { response: unauthorized_response_view(config) },
        },
    }
}

/// Begins a refresh with a snapshot of the store. Without a credential the
/// visitor is told so; with one, the provider is asked to renew it.
pub fn begin_refresh(config: &Config, snapshot: &Option<GlobalAuth>) -> (start: RefreshStart)
    ensures
        start@ == refresh_start(config@, snapshot_view(*snapshot)),
{
    match snapshot {
        None => RefreshStart::Unauthorized { response: unauthorized(config) },
        Some(auth) => match refresh_request(config, auth.0.refresh_token.as_str()) {
            Ok(request) => RefreshStart::Send { request },
            Err(error) => RefreshStart::Escalate { error },
        },
    }
}

/// Ends a refresh with the provider's answer. An answer rewrites the stored
/// credential: the access token always, the refresh token only where the
/// answer carries one. A failed call leaves the store as it is.
pub fn finish_refresh(
    config: &Config,
    store: &mut CredentialStore,
    reply: Result<MaybeAuth, UpstreamError>,
) -> (end: RefreshEnd)
    ensures
        final(store)@ == refresh_store(old(store)@, refresh_reply_view(reply)),
        end@ == refresh_end(config@, old(store)@, refresh_reply_view(reply)),
{
    match reply {
        Err(error) => RefreshEnd::Escalate {
            error: InternalError::from_upstream(Call::Refresh, error),
        },
        Ok(fresh) => match store.update(fresh) {
            Ok(()) => RefreshEnd::Refreshed {
                response: PageResponse { status: 200, body: refreshed_page(config) },
            },
            Err(_) => RefreshEnd::Unauthorized { response: unauthorized(config) },
        },
    }
}

} // verus!
