//! What can go wrong, and what the service does about it. A missing
//! credential is the visitor's matter and is answered with a plain page.
//! Everything else is an internal error: it is written to the diagnostics
//! file, the recovery process is signalled, and the visitor gets the failure
//! page. This module says what is written and shown; the program around the
//! library writes and signals.

use crate::config::{Config, ConfigView};
use crate::model::opt_text;
use crate::pages::{failure_page, failure_text, unauthorized_page, unauthorized_text};
use vstd::prelude::*;

verus! {

/// The step at which an internal error came up.
#[derive(Clone, Copy, Debug, PartialEq, Eq, Structural)]
pub enum Stage {
    AuthorizeUrl,
    TokenUrl,
    TokenRequest,
    TokenResponse,
    TokenJson,
    IdentityRequest,
    IdentityResponse,
    IdentityJson,
    AuthorizeLock,
    TokenSession,
    RefreshReadLock,
    RefreshUrl,
    RefreshRequest,
    RefreshContent,
    RefreshJson,
    RefreshWriteLock,
    RecentRequest,
    RecentText,
    RecentJson,
    SqlPool,
    StartTransaction,
    DbInsert,
    Commit,
    SqlError,
}

impl Stage {
    /// The short reason that the failure page gives for an error at this step.
    pub open spec fn reason_text(self) -> Seq<char> {
        match self {
            Stage::AuthorizeUrl => "spotify_auth_redirect malformed"@,
            Stage::TokenUrl => "token_url malformed"@,
            Stage::TokenRequest => "token request"@,
            Stage::TokenResponse => "token response"@,
            Stage::TokenJson => "token json"@,
            Stage::IdentityRequest => "get me"@,
            Stage::IdentityResponse => "get me response text"@,
            Stage::IdentityJson => "get me"@,
            Stage::AuthorizeLock => "lock for writing (authorize)"@,
            Stage::TokenSession => "token session"@,
            Stage::RefreshReadLock => "lock global auth refresh read"@,
            Stage::RefreshUrl => "refresh url malformed"@,
            Stage::RefreshRequest => "refresh request"@,
            Stage::RefreshContent => "refresh content"@,
            Stage::RefreshJson => "refresh json"@,
            Stage::RefreshWriteLock => "lock global auth refresh write"@,
            Stage::RecentRequest => "recently-played request"@,
            Stage::RecentText => "recently-played text"@,
            Stage::RecentJson => "recently-played json"@,
            Stage::SqlPool => "sql pool"@,
            Stage::StartTransaction => "start xact"@,
            Stage::DbInsert => "db insert"@,
            Stage::Commit => "xact commit"@,
            Stage::SqlError => "sql error"@,
        }
    }

    /// The short reason for an error at this step.
    pub fn reason(self) -> (text: &'static str)
        ensures
            text@ == self.reason_text(),
    {
        match self {
            Stage::AuthorizeUrl => "spotify_auth_redirect malformed",
            Stage::TokenUrl => "token_url malformed",
            Stage::TokenRequest => "token request",
            Stage::TokenResponse => "token response",
            Stage::TokenJson => "token json",
            Stage::IdentityRequest => "get me",
            Stage::IdentityResponse => "get me response text",
            Stage::IdentityJson => "get me",
            Stage::AuthorizeLock => "lock for writing (authorize)",
            Stage::TokenSession => "token session",
            Stage::RefreshReadLock => "lock global auth refresh read",
            Stage::RefreshUrl => "refresh url malformed",
            Stage::RefreshRequest => "refresh request",
            Stage::RefreshContent => "refresh content",
            Stage::RefreshJson => "refresh json",
            Stage::RefreshWriteLock => "lock global auth refresh write",
            Stage::RecentRequest => "recently-played request",
            Stage::RecentText => "recently-played text",
            Stage::RecentJson => "recently-played json",
            Stage::SqlPool => "sql pool",
            Stage::StartTransaction => "start xact",
            Stage::DbInsert => "db insert",
            Stage::Commit => "xact commit",
            Stage::SqlError => "sql error",
        }
    }
}

/// The calls that the service makes to the provider.
#[derive(Clone, Copy, Debug, PartialEq, Eq, Structural)]
pub enum Call {
    /// The exchange of an authorization code for tokens.
    Token,
    /// The lookup of the account that a token belongs to.
    Identity,
    /// The renewal of the service's credential.
    Refresh,
    /// The fetch of the recently played tracks.
    Recent,
}

/// The part of a call during which the transport failed.
#[derive(Clone, Copy, Debug, PartialEq, Eq, Structural)]
pub enum Phase {
    /// While the request was sent and the answer's head awaited.
    Send,
    /// While the answer's body was read.
    Body,
}

/// Why a call to the provider gave no value.
#[derive(Debug, PartialEq, Eq)]
pub enum UpstreamError {
    /// The connection failed or timed out.
    Transport { phase: Phase, message: String },
    /// The answer came, and is not what the call should return. The answer's
    /// body is kept as it came.
    Format { message: String, raw_body: String },
}

pub enum UpstreamErrorView {
    Transport { phase: Phase, message: Seq<char> },
    Format { message: Seq<char>, raw_body: Seq<char> },
}

impl View for UpstreamError {
    type V = UpstreamErrorView;

    open spec fn view(&self) -> UpstreamErrorView {
        match self {
            UpstreamError::Transport { phase, message } => UpstreamErrorView::Transport {
                phase: *phase,
                message: message@,
            },
            UpstreamError::Format { message, raw_body } => UpstreamErrorView::Format {
                message: message@,
                raw_body: raw_body@,
            },
        }
    }
}

/// An internal error: where it came up, the error's own text, and the raw
/// payload that goes to the diagnostics with it, if there is one.
#[derive(Debug, PartialEq, Eq)]
pub struct InternalError {
    pub stage: Stage,
    pub message: String,
    pub payload: Option<String>,
}

pub struct InternalErrorView {
    pub stage: Stage,
    pub message: Seq<char>,
    pub payload: Option<Seq<char>>,
}

impl View for InternalError {
    type V = InternalErrorView;

    open spec fn view(&self) -> InternalErrorView {
        InternalErrorView {
            stage: self.stage,
            message: self.message@,
            payload: opt_text(self.payload),
        }
    }
}

/// The step that a failed call to the provider is reported under.
pub open spec fn upstream_stage(call: Call, error: UpstreamErrorView) -> Stage {
    match error {
        UpstreamErrorView::Transport { phase: Phase::Send, .. } => match call {
            Call::Token => Stage::TokenRequest,
            Call::Identity => Stage::IdentityRequest,
            Call::Refresh => Stage::RefreshRequest,
            Call::Recent => Stage::RecentRequest,
        },
        UpstreamErrorView::Transport { phase: Phase::Body, .. } => match call {
            Call::Token => Stage::TokenResponse,
            Call::Identity => Stage::IdentityResponse,
            Call::Refresh => Stage::RefreshContent,
            Call::Recent => Stage::RecentText,
        },
        UpstreamErrorView::Format { .. } => match call {
            Call::Token => Stage::TokenJson,
            Call::Identity => Stage::IdentityJson,
            Call::Refresh => Stage::RefreshJson,
            Call::Recent => Stage::RecentJson,
        },
    }
}

/// The internal error that a failed call to the provider becomes. A transport
/// failure has no payload; an answer that does not parse has its raw body as
/// the payload.
pub open spec fn upstream_failure(call: Call, error: UpstreamErrorView) -> InternalErrorView {
    match error {
        UpstreamErrorView::Transport { phase, message } => InternalErrorView {
            stage: upstream_stage(call, error),
            message,
            payload: None,
        },
        UpstreamErrorView::Format { message, raw_body } => InternalErrorView {
            stage: upstream_stage(call, error),
            message,
            payload: Some(raw_body),
        },
    }
}

/// What is written to the diagnostics file: the error's text and, where there
/// is a payload, a line break and the payload as it came.
pub open spec fn report_text(message: Seq<char>, payload: Option<Seq<char>>) -> Seq<char> {
    match payload {
        Some(raw) => message + "\n"@ + raw,
        None => message,
    }
}

/// What the service does about an internal error.
#[derive(Debug, PartialEq, Eq)]
pub struct Escalation {
    /// The status of the answer to the visitor.
    pub status: u16,
    /// The text for the diagnostics file.
    pub report: String,
    /// The raw payload, as it was handed in.
    pub payload: Option<String>,
    /// The failure page.
    pub page: String,
}

pub struct EscalationView {
    pub status: u16,
    pub report: Seq<char>,
    pub payload: Option<Seq<char>>,
    pub page: Seq<char>,
}

impl View for Escalation {
    type V = EscalationView;

    open spec fn view(&self) -> EscalationView {
        EscalationView {
            status: self.status,
            report: self.report@,
            payload: opt_text(self.payload),
            page: self.page@,
        }
    }
}

/// The escalation of an internal error: status 500, the report for the
/// diagnostics file, the payload untouched, and the failure page.
pub open spec fn escalated(config: ConfigView, error: InternalErrorView) -> EscalationView {
    EscalationView {
        status: 500,
        report: report_text(error.message, error.payload),
        payload: error.payload,
        page: failure_text(config, error.stage.reason_text(), error.message, error.payload),
    }
}

/// An answer to the visitor that is a page.
#[derive(Debug, PartialEq, Eq)]
pub struct PageResponse {
    pub status: u16,
    pub body: String,
}

pub struct PageResponseView {
    pub status: u16,
    pub body: Seq<char>,
}

impl View for PageResponse {
    type V = PageResponseView;

    open spec fn view(&self) -> PageResponseView {
        PageResponseView { status: self.status, body: self.body@ }
    }
}

fn clone_text(text: &Option<String>) -> (copy: Option<String>)
    ensures
        opt_text(copy) == opt_text(*text),
{
    match text {
        Some(t) => Some(t.clone()),
        None => None,
    }
}

impl InternalError {
    /// An internal error at `stage`, with the error's text and no payload.
    pub fn new(stage: Stage, message: &str) -> (error: InternalError)
        ensures
            error@ == (InternalErrorView { stage, message: message@, payload: None }),
    {
        InternalError { stage, message: String::from_str(message), payload: None }
    }

    /// An internal error at `stage` that carries a raw payload.
    pub fn with_payload(stage: Stage, message: &str, payload: &str) -> (error: InternalError)
        ensures
            error@ == (InternalErrorView { stage, message: message@, payload: Some(payload@) }),
    {
        InternalError {
            stage,
            message: String::from_str(message),
            payload: Some(String::from_str(payload)),
        }
    }

    /// The internal error that a failed call to the provider becomes.
    pub fn from_upstream(call: Call, error: UpstreamError) -> (failure: InternalError)
        ensures
            failure@ == upstream_failure(call, error@),
    {
        match error {
            UpstreamError::Transport { phase, message } => {
                let stage = match phase {
                    Phase::Send => match call {
                        Call::Token => Stage::TokenRequest,
                        Call::Identity => Stage::IdentityRequest,
                        Call::Refresh => Stage::RefreshRequest,
                        Call::Recent => Stage::RecentRequest,
                    },
                    Phase::Body => match call {
                        Call::Token => Stage::TokenResponse,
                        Call::Identity => Stage::IdentityResponse,
                        Call::Refresh => Stage::RefreshContent,
                        Call::Recent => Stage::RecentText,
                    },
                };
                InternalError { stage, message, payload: None }
            },
            UpstreamError::Format { message, raw_body } => {
                let stage = match call {
                    Call::Token => Stage::TokenJson,
                    Call::Identity => Stage::IdentityJson,
                    Call::Refresh => Stage::RefreshJson,
                    Call::Recent => Stage::RecentJson,
                };
                InternalError { stage, message, payload: Some(raw_body) }
            },
        }
    }

    /// Works out what to write and what to show for this error.
    pub fn escalate(&self, config: &Config) -> (escalation: Escalation)
        ensures
            escalation@ == escalated(config@, self@),
    {
        let mut report = self.message.clone();
        match &self.payload {
            Some(raw) => {
                report.append("\n");
                report.append(raw.as_str());
            },
            None => {},
        }
        Escalation {
            status: 500,
            report,
            payload: clone_text(&self.payload),
            page: failure_page(
                config,
                self.stage.reason(),
                self.message.as_str(),
                &self.payload,
            ),
        }
    }
}

/// The answer to a visitor who needs the service's credential while there is
/// none: status 400 and the unauthorized page. Nothing is escalated.
pub open spec fn unauthorized_response_view(config: ConfigView) -> PageResponseView {
    PageResponseView { status: 400, body: unauthorized_text(config) }
}

/// Answers a visitor who needs the service's credential while there is none.
pub fn unauthorized(config: &Config) -> (response: PageResponse)
    ensures
        response@ == unauthorized_response_view(config@),
{
    PageResponse { status: 400, body: unauthorized_page(config) }
}

} // verus!
