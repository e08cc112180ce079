//! The life of one request at the gateway.
//!
//! A request context starts in `Init`. The request's headers either let it
//! bypass the check, end it with a configuration error, or produce the call
//! to the auth service. Once the host has issued that call the context
//! waits for the one callback that carries the call's identifier, classifies
//! the auth service's answer and ends with exactly one terminal outcome.
//!
//! The host transport is not part of this module. Each event of the host
//! (request headers, the result of the dispatch, the callback) is a method
//! that takes what the host delivered as plain values, moves the context to
//! its next phase and says what the host has to do.

use vstd::prelude::*;
use vstd::string::*;
use crate::config::{config_problem, PluginConfig, PluginConfigView};
use crate::headers::{user_headers, HeaderProcessor};
use crate::http_client::{auth_headers, endpoint_parts, HttpClient};
use crate::responses::{
    classify, classify_code, AuthAction, AuthActionView, ResponseHandler, OAUTH_START_PATH,
    SIGN_IN_PAGE,
};
use crate::text::{
    borrow_pairs, decimal, lemma_parse_decimal, parse_u16, parse_u16_str, starts_with, str_eq,
    u16_to_string,
};

verus! {

/// Paths below this prefix belong to the OAuth flow and are never checked.
pub const OAUTH_PATH_PREFIX: &'static str = "/oauth2/";

/// Host of the OAuth start URL where the request named no authority.
pub const DEFAULT_REDIRECT_HOST: &'static str = "odh-gateway.apps-crc.testing";

/// Body of the redirect to the login flow.
pub const REDIRECT_BODY: &'static str =
    "<html><body>Redirecting to authentication...</body></html>";

/// How a request ended.
#[derive(Clone, Copy, Debug, PartialEq, Eq, Structural)]
pub enum Outcome {
    /// Passed through without a check.
    Bypass,
    /// Resumed towards its upstream target.
    Allow,
    /// Refused with the auth service's verdict.
    Deny,
    /// Sent to the login flow.
    Redirect,
    /// Ended with an error response.
    Error,
}

/// Where a request context stands.
#[derive(Clone, Copy, Debug, PartialEq, Eq, Structural)]
pub enum Phase {
    /// The request's headers have not been seen yet.
    Init,
    /// The auth call has been handed to the host; its identifier is not known yet.
    Dispatching,
    /// The auth call with this identifier is pending and the request is suspended.
    AwaitingAuthDecision(u32),
    /// The request has reached its terminal outcome.
    Resolved(Outcome),
}

/// How far a phase is along the life of a request. No event moves a context
/// to a phase of lower rank.
pub open spec fn phase_rank(phase: Phase) -> nat {
    match phase {
        Phase::Init => 0,
        Phase::Dispatching => 1,
        Phase::AwaitingAuthDecision(_) => 2,
        Phase::Resolved(_) => 3,
    }
}

/// The identifier of the auth call that is pending in `phase`.
pub open spec fn pending_call(phase: Phase) -> Option<u32> {
    match phase {
        Phase::AwaitingAuthDecision(call_id) => Some(call_id),
        _ => None,
    }
}

/// What the host read of an inbound request.
#[derive(Debug, PartialEq)]
pub struct InboundRequest {
    /// The `:method` pseudo-header.
    pub method: Option<String>,
    /// The `:path` pseudo-header.
    pub path: Option<String>,
    /// The `:authority` pseudo-header.
    pub authority: Option<String>,
    /// The `authorization` header.
    pub authorization: Option<String>,
    /// The `cookie` header.
    pub cookie: Option<String>,
}

/// The mathematical view of `InboundRequest`: its texts are sequences of characters.
pub struct InboundRequestView {
    pub method: Option<Seq<char>>,
    pub path: Option<Seq<char>>,
    pub authority: Option<Seq<char>>,
    pub authorization: Option<Seq<char>>,
    pub cookie: Option<Seq<char>>,
}

impl View for InboundRequest {
    type V = InboundRequestView;

    open spec fn view(&self) -> InboundRequestView {
        InboundRequestView {
            method: self.method.deep_view(),
            path: self.path.deep_view(),
            authority: self.authority.deep_view(),
            authorization: self.authorization.deep_view(),
            cookie: self.cookie.deep_view(),
        }
    }
}

impl InboundRequest {
    /// A request of which nothing is known.
    pub open spec fn unknown() -> InboundRequestView {
        InboundRequestView {
            method: None,
            path: None,
            authority: None,
            authorization: None,
            cookie: None,
        }
    }
}

/// What the host read of the auth service's answer.
#[derive(Debug, PartialEq)]
pub struct AuthResponse {
    /// The `:status` pseudo-header.
    pub status: Option<String>,
    /// The `location` header.
    pub location: Option<String>,
    /// All headers of the answer.
    pub headers: Vec<(String, String)>,
}

/// The mathematical view of `AuthResponse`: its texts are sequences of characters.
pub struct AuthResponseView {
    pub status: Option<Seq<char>>,
    pub location: Option<Seq<char>>,
    pub headers: Seq<(Seq<char>, Seq<char>)>,
}

impl View for AuthResponse {
    type V = AuthResponseView;

    open spec fn view(&self) -> AuthResponseView {
        AuthResponseView {
            status: self.status.deep_view(),
            location: self.location.deep_view(),
            headers: self.headers.deep_view(),
        }
    }
}

/// A response that the gateway itself sends to the client.
#[derive(Debug, PartialEq)]
pub struct LocalResponse {
    pub status: u32,
    pub headers: Vec<(String, String)>,
    pub body: String,
}

/// The mathematical view of `LocalResponse`: its texts are sequences of characters.
pub struct LocalResponseView {
    pub status: u32,
    pub headers: Seq<(Seq<char>, Seq<char>)>,
    pub body: Seq<char>,
}

impl View for LocalResponse {
    type V = LocalResponseView;

    open spec fn view(&self) -> LocalResponseView {
        LocalResponseView {
            status: self.status,
            headers: self.headers.deep_view(),
            body: self.body@,
        }
    }
}

/// The call to the auth service that the host is asked to issue.
#[derive(Debug, PartialEq)]
pub struct AuthCall {
    /// Name of the cluster to which the call goes.
    pub cluster: String,
    /// Headers of the call.
    pub headers: Vec<(String, String)>,
    /// Time after which the host gives the call up, in milliseconds.
    pub timeout_ms: u64,
}

/// The mathematical view of `AuthCall`: its texts are sequences of characters.
pub struct AuthCallView {
    pub cluster: Seq<char>,
    pub headers: Seq<(Seq<char>, Seq<char>)>,
    pub timeout_ms: u64,
}

impl View for AuthCall {
    type V = AuthCallView;

    open spec fn view(&self) -> AuthCallView {
        AuthCallView {
            cluster: self.cluster@,
            headers: self.headers.deep_view(),
            timeout_ms: self.timeout_ms,
        }
    }
}

/// What the host does once a context has seen the request's headers.
#[derive(Debug, PartialEq)]
pub enum RequestStep {
    /// Let the request pass to its upstream target.
    Continue,
    /// Keep the request as it is: the headers came out of turn.
    Pause,
    /// Send this response to the client and keep the request suspended.
    Respond(LocalResponse),
    /// Issue this call, report how that went, and keep the request suspended.
    Dispatch(AuthCall),
}

/// The mathematical view of `RequestStep`: its texts are sequences of characters.
pub enum RequestStepView {
    Continue,
    Pause,
    Respond(LocalResponseView),
    Dispatch(AuthCallView),
}

impl View for RequestStep {
    type V = RequestStepView;

    open spec fn view(&self) -> RequestStepView {
        match *self {
            RequestStep::Continue => RequestStepView::Continue,
            RequestStep::Pause => RequestStepView::Pause,
            RequestStep::Respond(response) => RequestStepView::Respond(response@),
            RequestStep::Dispatch(call) => RequestStepView::Dispatch(call@),
        }
    }
}

/// What the host does once a context has seen a callback.
#[derive(Debug, PartialEq)]
pub enum CallbackStep {
    /// Nothing: the callback is not the one this context waits for.
    Ignore,
    /// Set these headers on the request and resume it.
    Resume(Vec<(String, String)>),
    /// Send this response to the client.
    Respond(LocalResponse),
}

/// The mathematical view of `CallbackStep`: its texts are sequences of characters.
pub enum CallbackStepView {
    Ignore,
    Resume(Seq<(Seq<char>, Seq<char>)>),
    Respond(LocalResponseView),
}

impl View for CallbackStep {
    type V = CallbackStepView;

    open spec fn view(&self) -> CallbackStepView {
        match *self {
            CallbackStep::Ignore => CallbackStepView::Ignore,
            CallbackStep::Resume(headers) => CallbackStepView::Resume(headers.deep_view()),
            CallbackStep::Respond(response) => CallbackStepView::Respond(response@),
        }
    }
}

/// Whether `path` belongs to the auth service or to the OAuth flow: it
/// starts with `/oauth2/` or with the configured verify path. A request
/// without a path does not.
pub open spec fn is_auth_path(config: PluginConfigView, path: Option<Seq<char>>) -> bool {
    match path {
        Some(p) => OAUTH_PATH_PREFIX@.is_prefix_of(p) || config.auth_service.verify_path.is_prefix_of(
            p,
        ),
        None => false,
    }
}

/// Whether a request passes without a check: authentication is switched
/// off, or the request is one of the auth flow's own.
pub open spec fn bypasses_auth(config: PluginConfigView, path: Option<Seq<char>>) -> bool {
    !config.global_auth_enabled || is_auth_path(config, path)
}

/// `value`, or `default` where there is none.
pub open spec fn or_default(value: Option<Seq<char>>, default: Seq<char>) -> Seq<char> {
    match value {
        Some(v) => v,
        None => default,
    }
}

/// The header `name`, if it has a value.
pub open spec fn optional_header(name: Seq<char>, value: Option<Seq<char>>) -> Seq<
    (Seq<char>, Seq<char>),
> {
    match value {
        Some(v) => seq![(name, v)],
        None => Seq::empty(),
    }
}

/// The headers of the auth call: a `GET` of the verify path at the resolved
/// host, what the inbound request asked for, and its credentials.
pub open spec fn auth_call_headers(
    verify_path: Seq<char>,
    scheme: Seq<char>,
    host: Seq<char>,
    request: InboundRequestView,
) -> Seq<(Seq<char>, Seq<char>)> {
    auth_headers("GET"@, verify_path, host, scheme) + seq![
        ("x-forwarded-method"@, or_default(request.method, "GET"@)),
        ("x-forwarded-uri"@, or_default(request.path, "/"@)),
        ("x-forwarded-host"@, or_default(request.authority, "unknown"@)),
    ] + optional_header("authorization"@, request.authorization) + optional_header(
        "cookie"@,
        request.cookie,
    )
}

/// A plain-text response.
pub open spec fn plain_response(status: u32, body: Seq<char>) -> LocalResponseView {
    LocalResponseView { status, headers: seq![("content-type"@, "text/plain"@)], body }
}

/// The response that refuses a request.
pub open spec fn deny_response(status: u16, message: Seq<char>) -> LocalResponseView {
    LocalResponseView {
        status: status as u32,
        headers: seq![("content-type"@, "application/json"@)],
        body: message,
    }
}

/// The response that sends the client to `location`.
pub open spec fn redirect_response(location: Seq<char>) -> LocalResponseView {
    LocalResponseView {
        status: 302,
        headers: seq![("location"@, location), ("content-type"@, "text/html"@)],
        body: REDIRECT_BODY@,
    }
}

/// Where a redirect finally points.
///
/// A location that the auth service supplied always wins over a made-up
/// one. Without it, the relative OAuth start path becomes an absolute URL
/// at the inbound request's authority, and the sign-in sentinel becomes
/// the OAuth start path. Any other location stands as it is.
pub open spec fn resolved_location(
    location: Seq<char>,
    authority: Option<Seq<char>>,
    auth_location: Option<Seq<char>>,
) -> Seq<char> {
    if OAUTH_START_PATH@.is_prefix_of(location) {
        match auth_location {
            Some(supplied) => supplied,
            None => "https://"@ + or_default(authority, DEFAULT_REDIRECT_HOST@) + OAUTH_START_PATH@,
        }
    } else if location == SIGN_IN_PAGE@ {
        or_default(auth_location, OAUTH_START_PATH@)
    } else {
        location
    }
}

/// The phase that follows the request's headers in `Init`, and what the
/// host is asked to do.
pub open spec fn begin_auth_check(config: PluginConfigView, request: InboundRequestView) -> (
    Phase,
    RequestStepView,
) {
    if bypasses_auth(config, request.path) {
        (Phase::Resolved(Outcome::Bypass), RequestStepView::Continue)
    } else {
        match endpoint_parts(config.auth_service.endpoint) {
            Err(_) => (
                Phase::Resolved(Outcome::Error),
                RequestStepView::Respond(plain_response(503, "Service Configuration Error"@)),
            ),
            Ok((scheme, host)) => (
                Phase::Dispatching,
                RequestStepView::Dispatch(
                    AuthCallView {
                        cluster: config.auth_service.cluster,
                        headers: auth_call_headers(
                            config.auth_service.verify_path,
                            scheme,
                            host,
                            request,
                        ),
                        timeout_ms: config.auth_service.timeout,
                    },
                ),
            ),
        }
    }
}

/// The status code that the auth service's `:status` header denotes; one
/// that denotes none counts as 500.
pub open spec fn status_code(status: Seq<char>) -> u16 {
    match parse_u16(status) {
        Some(code) => code,
        None => 500,
    }
}

/// The outcome of `action` and what the host is asked to do.
pub open spec fn apply_action(
    action: AuthActionView,
    request: InboundRequestView,
    response: AuthResponseView,
) -> (Outcome, CallbackStepView) {
    match action {
        AuthActionView::Allow => (
            Outcome::Allow,
            CallbackStepView::Resume(user_headers(response.headers)),
        ),
        AuthActionView::Deny(status, message) => (
            Outcome::Deny,
            CallbackStepView::Respond(deny_response(status, message)),
        ),
        AuthActionView::Redirect(location) => (
            Outcome::Redirect,
            CallbackStepView::Respond(
                redirect_response(
                    resolved_location(location, request.authority, response.location),
                ),
            ),
        ),
        AuthActionView::Error(_) => (
            Outcome::Error,
            CallbackStepView::Respond(plain_response(503, "Authentication service unavailable"@)),
        ),
    }
}

/// The outcome of the awaited callback and what the host is asked to do.
///
/// An answer without a status is a protocol violation and ends in a 500.
/// Otherwise the status is classified and the action applied; the detail of
/// a service error is kept from the client.
pub open spec fn complete_auth_check(request: InboundRequestView, response: AuthResponseView) -> (
    Outcome,
    CallbackStepView,
) {
    match response.status {
        None => (
            Outcome::Error,
            CallbackStepView::Respond(plain_response(500, "Internal Server Error"@)),
        ),
        Some(status) => apply_action(
            classify(decimal(status_code(status) as nat)),
            request,
            response,
        ),
    }
}

/// The request's headers end in exactly one of three ways: the request
/// passes without a check, it ends with an error response, or its one auth
/// call is handed out. No call is built for a request that bypasses the
/// check.
pub proof fn lemma_begin_auth_check(config: PluginConfigView, request: InboundRequestView)
    ensures
        ({
            let (phase, step) = begin_auth_check(config, request);
            &&& bypasses_auth(config, request.path) <==> step is Continue
            &&& step is Continue <==> phase == Phase::Resolved(Outcome::Bypass)
            &&& step is Respond <==> phase == Phase::Resolved(Outcome::Error)
            &&& step is Dispatch <==> phase == Phase::Dispatching
            &&& step !is Pause
        }),
{
}

/// The awaited callback always ends the request, and with one terminal
/// step: the request is resumed exactly when it is allowed, and every
/// other outcome is a response to the client. What the client sees of a
/// service error does not depend on the error's detail.
pub proof fn lemma_complete_auth_check(request: InboundRequestView, response: AuthResponseView)
    ensures
        ({
            let (outcome, step) = complete_auth_check(request, response);
            &&& outcome != Outcome::Bypass
            &&& step !is Ignore
            &&& step is Resume <==> outcome == Outcome::Allow
            &&& outcome == Outcome::Error ==> step == CallbackStepView::Respond(
                plain_response(503, "Authentication service unavailable"@),
            ) || step == CallbackStepView::Respond(plain_response(500, "Internal Server Error"@))
        }),
{
}

/// An answer whose status is the numeral of a status code is treated as the
/// classification of that code says.
pub proof fn lemma_numeric_status(
    code: u16,
    request: InboundRequestView,
    response: AuthResponseView,
)
    requires
        response.status == Some(decimal(code as nat)),
    ensures
        status_code(decimal(code as nat)) == code,
        complete_auth_check(request, response) == apply_action(
            classify_code(code),
            request,
            response,
        ),
{
    lemma_parse_decimal(code);
}

/// What the host can deliver to a request context.
pub enum Event {
    /// The request's headers.
    RequestHeaders(InboundRequestView),
    /// How the dispatch of the auth call went: the call's identifier, or none.
    DispatchResult(Option<u32>),
    /// A callback for the call with this identifier.
    CallResponse(u32, AuthResponseView),
}

/// The context after `event`. An event that comes out of turn leaves the
/// context as it is.
pub open spec fn next(state: AuthProxyView, event: Event) -> AuthProxyView {
    match event {
        Event::RequestHeaders(request) => if state.phase == Phase::Init {
            let (phase, step) = begin_auth_check(state.config, request);
            AuthProxyView {
                config: state.config,
                phase,
                request: if step is Dispatch {
                    request
                } else {
                    state.request
                },
            }
        } else {
            state
        },
        Event::DispatchResult(dispatched) => if state.phase == Phase::Dispatching {
            AuthProxyView {
                config: state.config,
                phase: match dispatched {
                    Some(call_id) => Phase::AwaitingAuthDecision(call_id),
                    None => Phase::Resolved(Outcome::Error),
                },
                request: state.request,
            }
        } else {
            state
        },
        Event::CallResponse(token_id, response) => if state.phase == Phase::AwaitingAuthDecision(
            token_id,
        ) {
            AuthProxyView {
                config: state.config,
                phase: Phase::Resolved(complete_auth_check(state.request, response).0),
                request: state.request,
            }
        } else {
            state
        },
    }
}

/// What the host is asked to do when the request's headers arrive.
pub open spec fn request_step(state: AuthProxyView, request: InboundRequestView)
    -> RequestStepView {
    if state.phase == Phase::Init {
        begin_auth_check(state.config, request).1
    } else {
        RequestStepView::Pause
    }
}

/// The response that the host is asked to send once it has tried to issue
/// the auth call: a 503 where the call could not be issued, else none.
pub open spec fn dispatch_step(state: AuthProxyView, dispatched: Option<u32>) -> Option<
    LocalResponseView,
> {
    if state.phase == Phase::Dispatching && dispatched is None {
        Some(plain_response(503, "Authentication Service Unavailable"@))
    } else {
        None
    }
}

/// What the host is asked to do when a callback arrives.
pub open spec fn callback_step(state: AuthProxyView, token_id: u32, response: AuthResponseView)
    -> CallbackStepView {
    if state.phase == Phase::AwaitingAuthDecision(token_id) {
        complete_auth_check(state.request, response).1
    } else {
        CallbackStepView::Ignore
    }
}

/// The context after a run of events.
pub open spec fn run(state: AuthProxyView, events: Seq<Event>) -> AuthProxyView
    decreases events.len(),
{
    if events.len() == 0 {
        state
    } else {
        next(run(state, events.drop_last()), events.last())
    }
}

/// How many events of a run had an auth call handed out.
pub open spec fn dispatches(state: AuthProxyView, events: Seq<Event>) -> nat
    decreases events.len(),
{
    if events.len() == 0 {
        0
    } else {
        let before = run(state, events.drop_last());
        dispatches(state, events.drop_last()) + if before.phase == Phase::Init && next(
            before,
            events.last(),
        ).phase == Phase::Dispatching {
            1nat
        } else {
            0nat
        }
    }
}

/// How many events of a run took the context to a terminal outcome.
pub open spec fn resolutions(state: AuthProxyView, events: Seq<Event>) -> nat
    decreases events.len(),
{
    if events.len() == 0 {
        0
    } else {
        let before = run(state, events.drop_last());
        resolutions(state, events.drop_last()) + if !(before.phase is Resolved) && next(
            before,
            events.last(),
        ).phase is Resolved {
            1nat
        } else {
            0nat
        }
    }
}

/// No event takes a context back: the rank of its phase never falls, and
/// its configuration stays the one it was made with.
pub proof fn lemma_next_goes_forward(state: AuthProxyView, event: Event)
    ensures
        phase_rank(state.phase) <= phase_rank(next(state, event).phase),
        next(state, event).config == state.config,
        state.phase is Resolved ==> next(state, event) == state,
{
}

/// Whatever the host delivers and in whatever order, a context has at most
/// one auth call handed out and reaches a terminal outcome at most once;
/// once it has, nothing changes it any more.
pub proof fn lemma_run(state: AuthProxyView, events: Seq<Event>)
    ensures
        phase_rank(state.phase) <= phase_rank(run(state, events).phase),
        run(state, events).config == state.config,
        state.phase is Resolved ==> run(state, events) == state,
        dispatches(state, events) <= 1,
        dispatches(state, events) == 1 ==> state.phase == Phase::Init && run(state, events).phase
            != Phase::Init,
        resolutions(state, events) <= 1,
        resolutions(state, events) == 1 <==> !(state.phase is Resolved) && run(
            state,
            events,
        ).phase is Resolved,
    decreases events.len(),
{
    if events.len() > 0 {
        lemma_run(state, events.drop_last());
    }
}

fn as_optional_str(value: &Option<String>) -> (borrowed: Option<&str>)
    ensures
        borrowed.deep_view() == value.deep_view(),
{
    match value {
        Some(text) => Some(text.as_str()),
        None => None,
    }
}

fn or_default_string(value: &Option<String>, default: &str) -> (text: String)
    ensures
        text@ == or_default(value.deep_view(), default@),
{
    broadcast use group_string_axioms;

    match value {
        Some(v) => v.clone(),
        None => default.to_string(),
    }
}

fn push_optional_header(headers: &mut Vec<(String, String)>, name: &str, value: &Option<String>)
    ensures
        final(headers).deep_view() == old(headers).deep_view() + optional_header(
            name@,
            value.deep_view(),
        ),
{
    broadcast use group_string_axioms;

    match value {
        Some(v) => {
            headers.push((name.to_string(), v.clone()));
        },
        None => {},
    }
}

fn make_plain_response(status: u32, body: &str) -> (response: LocalResponse)
    ensures
        response@ == plain_response(status, body@),
{
    broadcast use group_string_axioms;

    let mut headers: Vec<(String, String)> = Vec::new();
    headers.push(("content-type".to_string(), "text/plain".to_string()));
    assert(headers.deep_view() =~= seq![("content-type"@, "text/plain"@)]);
    LocalResponse { status, headers, body: body.to_string() }
}

/// The context of one request in flight.
pub struct AuthProxy {
    config: PluginConfig,
    phase: Phase,
    request: InboundRequest,
    http_client: HttpClient,
    response_handler: ResponseHandler,
    header_processor: HeaderProcessor,
}

/// What is known of a request context from outside.
pub struct AuthProxyView {
    /// The configuration that the context was made with.
    pub config: PluginConfigView,
    /// Where the context stands.
    pub phase: Phase,
    /// What was captured of the request when the auth call was built.
    pub request: InboundRequestView,
}

impl View for AuthProxy {
    type V = AuthProxyView;

    closed spec fn view(&self) -> AuthProxyView {
        AuthProxyView { config: self.config@, phase: self.phase, request: self.request@ }
    }
}

impl AuthProxy {
    /// A context in `Init` that works under `config`.
    pub fn new(config: PluginConfig) -> (proxy: Self)
        ensures
            proxy@.config == config@,
            proxy@.phase == Phase::Init,
            proxy@.request == InboundRequest::unknown(),
    {
        Self {
            config,
            phase: Phase::Init,
            request: InboundRequest {
                method: None,
                path: None,
                authority: None,
                authorization: None,
                cookie: None,
            },
            http_client: HttpClient::new(),
            response_handler: ResponseHandler::new(),
            header_processor: HeaderProcessor::new(),
        }
    }

    /// Where the context stands.
    pub fn phase(&self) -> (phase: Phase)
        ensures
            phase == self@.phase,
    {
        self.phase
    }

    /// The identifier of the pending auth call, while one is pending.
    pub fn call_id(&self) -> (call_id: Option<u32>)
        ensures
            call_id == pending_call(self@.phase),
    {
        match self.phase {
            Phase::AwaitingAuthDecision(call_id) => Some(call_id),
            _ => None,
        }
    }

    /// The configuration that the context works under.
    pub fn config(&self) -> (config: &PluginConfig)
        ensures
            config@ == self@.config,
    {
        &self.config
    }

    /// Whether `path` belongs to the auth service or to the OAuth flow.
    pub fn is_auth_request(&self, path: Option<&str>) -> (own: bool)
        ensures
            own == is_auth_path(self@.config, path.deep_view()),
    {
        match path {
            Some(p) => starts_with(p, OAUTH_PATH_PREFIX) || starts_with(
                p,
                self.config.auth_service.verify_path.as_str(),
            ),
            None => false,
        }
    }

    /// The request's headers have arrived.
    ///
    /// In `Init` the request either bypasses the check, ends with a 503
    /// because the configured endpoint cannot be resolved, or has its auth
    /// call built and handed out. In every other phase the headers come out
    /// of turn: the context stays as it is and no second call is built.
    pub fn on_http_request_headers(&mut self, request: InboundRequest) -> (step: RequestStep)
        ensures
            final(self)@ == next(old(self)@, Event::RequestHeaders(request@)),
            step@ == request_step(old(self)@, request@),
    {
        broadcast use group_string_axioms;

        match self.phase {
            Phase::Init => {},
            _ => {
                return RequestStep::Pause;
            },
        }
        if !self.config.global_auth.enabled || self.is_auth_request(as_optional_str(&request.path)) {
            self.phase = Phase::Resolved(Outcome::Bypass);
            return RequestStep::Continue;
        }
        let (scheme, host) = match self.http_client.parse_endpoint(
            self.config.auth_service.endpoint.as_str(),
        ) {
            Ok(parts) => parts,
            Err(_) => {
                self.phase = Phase::Resolved(Outcome::Error);
                return RequestStep::Respond(
                    make_plain_response(503, "Service Configuration Error"),
                );
            },
        };
        let opening = self.http_client.build_auth_headers(
            "GET",
            self.config.auth_service.verify_path.as_str(),
            host.as_str(),
            scheme.as_str(),
        );
        let mut headers: Vec<(String, String)> = Vec::new();
        let mut i: usize = 0;
        while i < opening.len()
            invariant
                i <= opening@.len(),
                headers@.len() == i,
                forall|j: int| 0 <= j < i ==> headers@[j].deep_view() == opening@[j].deep_view(),
            decreases opening@.len() - i,
        {
            headers.push((opening[i].0.to_string(), opening[i].1.clone()));
            i = i + 1;
        }
        headers.push(
            ("x-forwarded-method".to_string(), or_default_string(&request.method, "GET")),
        );
        headers.push(("x-forwarded-uri".to_string(), or_default_string(&request.path, "/")));
        headers.push(
            ("x-forwarded-host".to_string(), or_default_string(&request.authority, "unknown")),
        );
        assert(headers.deep_view() =~= opening.deep_view() + seq![
            ("x-forwarded-method"@, or_default(request@.method, "GET"@)),
            ("x-forwarded-uri"@, or_default(request@.path, "/"@)),
            ("x-forwarded-host"@, or_default(request@.authority, "unknown"@)),
        ]);
        push_optional_header(&mut headers, "authorization", &request.authorization);
        push_optional_header(&mut headers, "cookie", &request.cookie);
        let call = AuthCall {
            cluster: self.config.auth_service.cluster.clone(),
            headers,
            timeout_ms: self.config.auth_service.timeout,
        };
        self.request = request;
        self.phase = Phase::Dispatching;
        RequestStep::Dispatch(call)
    }

    /// The host has tried to issue the auth call.
    ///
    /// With an identifier the context waits for the callback that carries
    /// it. Without one the call could not be issued: the request ends with a
    /// 503 and nothing is tried again. Outside `Dispatching` nothing happens.
    pub fn on_dispatch_result(&mut self, dispatched: Option<u32>) -> (response: Option<
        LocalResponse,
    >)
        ensures
            final(self)@ == next(old(self)@, Event::DispatchResult(dispatched)),
            match response {
                Some(local) => dispatch_step(old(self)@, dispatched) == Some(local@),
                None => dispatch_step(old(self)@, dispatched) is None,
            },
    {
        match self.phase {
            Phase::Dispatching => {},
            _ => {
                return None;
            },
        }
        match dispatched {
            Some(call_id) => {
                self.phase = Phase::AwaitingAuthDecision(call_id);
                None
            },
            None => {
                self.phase = Phase::Resolved(Outcome::Error);
                Some(make_plain_response(503, "Authentication Service Unavailable"))
            },
        }
    }

    /// Where a redirect to `location` finally points for this request.
    pub fn resolve_redirect_location(&self, location: &str, auth_location: &Option<String>) -> (url:
        String)
        ensures
            url@ == resolved_location(location@, self@.request.authority, auth_location.deep_view()),
    {
        broadcast use group_string_axioms;

        if starts_with(location, OAUTH_START_PATH) {
            match auth_location {
                Some(supplied) => supplied.clone(),
                None => {
                    let host = or_default_string(&self.request.authority, DEFAULT_REDIRECT_HOST);
                    "https://".to_string().concat(host.as_str()).concat(OAUTH_START_PATH)
                },
            }
        } else if str_eq(location, SIGN_IN_PAGE) {
            or_default_string(auth_location, OAUTH_START_PATH)
        } else {
            location.to_string()
        }
    }

    /// The outcome of `action` for this request and what the host is asked to do.
    pub fn apply_auth_action(&self, action: AuthAction, response: &AuthResponse) -> (applied: (
        Outcome,
        CallbackStep,
    ))
        ensures
            applied.0 == apply_action(action@, self@.request, response@).0,
            applied.1@ == apply_action(action@, self@.request, response@).1,
    {
        broadcast use group_string_axioms;

        match action {
            AuthAction::Allow => {
                let borrowed = borrow_pairs(&response.headers);
                let headers = self.header_processor.build_user_headers(borrowed.as_slice());
                (Outcome::Allow, CallbackStep::Resume(headers))
            },
            AuthAction::Deny(status, message) => {
                let mut headers: Vec<(String, String)> = Vec::new();
                headers.push(("content-type".to_string(), "application/json".to_string()));
                assert(headers.deep_view() =~= seq![("content-type"@, "application/json"@)]);
                (
                    Outcome::Deny,
                    CallbackStep::Respond(
                        LocalResponse { status: status as u32, headers, body: message },
                    ),
                )
            },
            AuthAction::Redirect(location) => {
                let url = self.resolve_redirect_location(location.as_str(), &response.location);
                let mut headers: Vec<(String, String)> = Vec::new();
                headers.push(("location".to_string(), url));
                headers.push(("content-type".to_string(), "text/html".to_string()));
                assert(headers.deep_view() =~= seq![
                    (
                        "location"@,
                        resolved_location(location@, self@.request.authority, response@.location),
                    ),
                    ("content-type"@, "text/html"@),
                ]);
                (
                    Outcome::Redirect,
                    CallbackStep::Respond(
                        LocalResponse { status: 302, headers, body: REDIRECT_BODY.to_string() },
                    ),
                )
            },
            AuthAction::Error(_) => (
                Outcome::Error,
                CallbackStep::Respond(
                    make_plain_response(503, "Authentication service unavailable"),
                ),
            ),
        }
    }

    /// A callback for the auth call `token_id` has arrived.
    ///
    /// Only the callback that carries the identifier of the pending call is
    /// acted upon; any other is ignored and leaves the context as it is. The
    /// awaited one ends the request: it is resumed with the identity
    /// headers, refused, redirected, or ended with an error response.
    pub fn on_http_call_response(&mut self, token_id: u32, response: &AuthResponse) -> (step:
        CallbackStep)
        ensures
            final(self)@ == next(old(self)@, Event::CallResponse(token_id, response@)),
            step@ == callback_step(old(self)@, token_id, response@),
    {
        match self.phase {
            Phase::AwaitingAuthDecision(call_id) => {
                if call_id != token_id {
                    return CallbackStep::Ignore;
                }
            },
            _ => {
                return CallbackStep::Ignore;
            },
        }
        let status = match &response.status {
            Some(status) => status,
            None => {
                self.phase = Phase::Resolved(Outcome::Error);
                return CallbackStep::Respond(make_plain_response(500, "Internal Server Error"));
            },
        };
        let code: u16 = match parse_u16_str(status.as_str()) {
            Some(code) => code,
            None => 500,
        };
        let canonical = u16_to_string(code);
        let action = self.response_handler.handle_auth_response(canonical.as_str());
        let (outcome, step) = self.apply_auth_action(action, response);
        self.phase = Phase::Resolved(outcome);
        step
    }
}

/// What the host delivered as the gateway's configuration.
#[derive(Debug)]
pub enum LoadedConfig {
    /// The host had no configuration to give.
    Missing,
    /// The host gave bytes that are no configuration.
    Malformed,
    /// The host gave this configuration.
    Parsed(PluginConfig),
}

/// The mathematical view of `LoadedConfig`: its texts are sequences of characters.
pub enum LoadedConfigView {
    Missing,
    Malformed,
    Parsed(PluginConfigView),
}

impl View for LoadedConfig {
    type V = LoadedConfigView;

    open spec fn view(&self) -> LoadedConfigView {
        match *self {
            LoadedConfig::Missing => LoadedConfigView::Missing,
            LoadedConfig::Malformed => LoadedConfigView::Malformed,
            LoadedConfig::Parsed(config) => LoadedConfigView::Parsed(config@),
        }
    }
}

/// The configuration that a configure event puts to use, if it puts one to
/// use: the defaults where the host announced no configuration at all, else
/// the delivered configuration where it passes its check.
pub open spec fn accepted_config(plugin_configuration_size: usize, loaded: LoadedConfigView)
    -> Option<PluginConfigView> {
    if plugin_configuration_size == 0 {
        Some(PluginConfig::default_view())
    } else {
        match loaded {
            LoadedConfigView::Parsed(config) => if config_problem(config) is None {
                Some(config)
            } else {
                None
            },
            _ => None,
        }
    }
}

/// The gateway as a whole: it holds the configuration in use and makes the
/// context of each request.
pub struct AuthProxyRoot {
    config: Option<PluginConfig>,
}

impl AuthProxyRoot {
    #[verifier::type_invariant]
    spec fn holds_checked_config(&self) -> bool {
        match self.config {
            Some(config) => config_problem(config@) is None,
            None => true,
        }
    }

    /// The configuration in use.
    pub closed spec fn active_config(&self) -> Option<PluginConfigView> {
        match self.config {
            Some(config) => Some(config@),
            None => None,
        }
    }

    /// A gateway that has not been configured yet.
    pub fn new() -> (root: Self)
        ensures
            root.active_config() is None,
    {
        Self { config: None }
    }

    /// The host has (re)configured the gateway.
    ///
    /// A configuration that is put to use replaces the one in use. One that
    /// is refused changes nothing: the configuration in use, if any, stays.
    /// Contexts that exist already keep the configuration they were made with.
    pub fn on_configure(&mut self, plugin_configuration_size: usize, loaded: LoadedConfig) -> (accepted:
        bool)
        ensures
            accepted == accepted_config(plugin_configuration_size, loaded@).is_some(),
            final(self).active_config() == match accepted_config(
                plugin_configuration_size,
                loaded@,
            ) {
                Some(config) => Some(config),
                None => old(self).active_config(),
            },
            match final(self).active_config() {
                Some(config) => config_problem(config) is None,
                None => true,
            },
    {
        proof {
            use_type_invariant(&*self);
        }
        if plugin_configuration_size == 0 {
            proof {
                crate::config::lemma_default_config_is_valid();
            }
            self.config = Some(PluginConfig::default());
            return true;
        }
        match loaded {
            LoadedConfig::Parsed(config) => {
                match config.validate() {
                    Ok(_) => {
                        self.config = Some(config);
                        true
                    },
                    Err(_) => false,
                }
            },
            _ => false,
        }
    }

    /// The context for a new request, once the gateway is configured.
    pub fn create_http_context(&self, context_id: u32) -> (context: Option<AuthProxy>)
        ensures
            match context {
                Some(proxy) => {
                    &&& self.active_config() == Some(proxy@.config)
                    &&& config_problem(proxy@.config) is None
                    &&& proxy@.phase == Phase::Init
                    &&& proxy@.request == InboundRequest::unknown()
                },
                None => self.active_config() is None,
            },
    {
        proof {
            use_type_invariant(self);
        }
        match &self.config {
            Some(config) => Some(AuthProxy::new(config.clone())),
            None => None,
        }
    }
}

} // verus!
