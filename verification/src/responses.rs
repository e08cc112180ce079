//! Classification of the auth service's answer into the action that the
//! gateway takes, and the responses that stand for each action.

use vstd::prelude::*;
use vstd::string::*;
use crate::text::{
    byte_len, decimal, digit_char, eq_ignore_ascii_case, lemma_decimal_len,
    lemma_decimal_of_three_digits, push_decimal, starts_with_char, str_byte_len, str_eq,
    str_eq_ignore_ascii_case,
};

verus! {

/// What the gateway does with a request once the auth service has answered.
#[derive(Debug, PartialEq)]
pub enum AuthAction {
    /// Let the request through.
    Allow,
    /// Refuse the request with this status code and message.
    Deny(u16, String),
    /// Send the client to this location to sign in.
    Redirect(String),
    /// The auth service failed; the message says how.
    Error(String),
}

/// An `AuthAction` with its texts as character sequences.
pub enum AuthActionView {
    Allow,
    Deny(u16, Seq<char>),
    Redirect(Seq<char>),
    Error(Seq<char>),
}

impl View for AuthAction {
    type V = AuthActionView;

    open spec fn view(&self) -> AuthActionView {
        match *self {
            AuthAction::Allow => AuthActionView::Allow,
            AuthAction::Deny(status, message) => AuthActionView::Deny(status, message@),
            AuthAction::Redirect(location) => AuthActionView::Redirect(location@),
            AuthAction::Error(message) => AuthActionView::Error(message@),
        }
    }
}

/// Location that stands for "forward the auth service's own login redirect".
pub const SIGN_IN_PAGE: &'static str = "sign-in-page";

/// Relative path at which the OAuth flow starts.
pub const OAUTH_START_PATH: &'static str = "/oauth2/start";

/// Longest redirect location, in bytes, that is accepted.
pub const MAX_REDIRECT_URL_BYTES: usize = 2048;

/// The action that follows from the auth service's status code, given as text.
///
/// 202 is the auth service's success signal and 200 counts as success too;
/// 403 means "show the login page", not "forbidden"; every status that is
/// not listed is a service error.
pub open spec fn classify(status: Seq<char>) -> AuthActionView {
    if status == "202"@ || status == "200"@ {
        AuthActionView::Allow
    } else if status == "401"@ {
        AuthActionView::Deny(401, "Authentication required"@)
    } else if status == "403"@ {
        AuthActionView::Redirect(SIGN_IN_PAGE@)
    } else if status == "302"@ || status == "307"@ {
        AuthActionView::Redirect(OAUTH_START_PATH@)
    } else if status == "408"@ {
        AuthActionView::Error("Authentication service timeout"@)
    } else if status == "429"@ {
        AuthActionView::Deny(429, "Too many authentication requests"@)
    } else if status == "500"@ || status == "502"@ || status == "503"@ || status == "504"@ {
        AuthActionView::Error("Authentication service error: "@ + status)
    } else {
        AuthActionView::Error("Unexpected authentication service response: "@ + status)
    }
}

/// Whether `url` may be handed to a client as a redirect target: a relative
/// location that starts with `/` and takes at most 2048 bytes.
pub open spec fn valid_redirect_url(url: Seq<char>) -> bool {
    &&& url.len() > 0
    &&& byte_len(url) <= MAX_REDIRECT_URL_BYTES
    &&& url[0] == '/'
}

/// The value of the first header from position `i` on that is named
/// `location`, in any case, and holds a valid redirect target.
pub open spec fn redirect_url_from(headers: Seq<(Seq<char>, Seq<char>)>, i: int) -> Option<
    Seq<char>,
>
    decreases headers.len() - i,
{
    if i < 0 || i >= headers.len() {
        None
    } else if eq_ignore_ascii_case(headers[i].0, "location"@) && valid_redirect_url(
        headers[i].1,
    ) {
        Some(headers[i].1)
    } else {
        redirect_url_from(headers, i + 1)
    }
}

/// Status code, headers and body of the response that stands for `action`.
pub open spec fn error_response(action: AuthActionView) -> (
    u16,
    Seq<(Seq<char>, Seq<char>)>,
    Seq<char>,
) {
    match action {
        AuthActionView::Deny(status, message) => (
            status,
            seq![("content-type"@, "text/plain"@), ("cache-control"@, "no-cache, no-store"@)],
            message,
        ),
        AuthActionView::Redirect(location) => (
            302u16,
            seq![("location"@, location), ("cache-control"@, "no-cache, no-store"@)],
            "Redirecting to authentication"@,
        ),
        AuthActionView::Error(message) => (
            503u16,
            seq![("content-type"@, "text/plain"@), ("cache-control"@, "no-cache, no-store"@)],
            message,
        ),
        AuthActionView::Allow => (200u16, Seq::empty(), "OK"@),
    }
}

/// Whether `action` reports a failure that may pass: every service error, and
/// a denial with status 429, 408 or 500 to 599.
pub open spec fn temporary_failure(action: AuthActionView) -> bool {
    match action {
        AuthActionView::Error(_) => true,
        AuthActionView::Deny(status, _) => status == 429 || status == 408 || 500 <= status <= 599,
        AuthActionView::Redirect(_) => false,
        AuthActionView::Allow => false,
    }
}

/// A sentence that describes `action` to a person.
pub open spec fn result_description(action: AuthActionView) -> Seq<char> {
    match action {
        AuthActionView::Allow => "Authentication successful"@,
        AuthActionView::Deny(status, _) => if status == 401 {
            "Authentication required - please log in"@
        } else if status == 403 {
            "Access denied - insufficient permissions"@
        } else if status == 429 {
            "Rate limited - too many authentication attempts"@
        } else {
            "Authentication failed ("@ + decimal(status as nat) + ")"@
        },
        AuthActionView::Redirect(_) => "Redirecting to authentication provider"@,
        AuthActionView::Error(_) => "Authentication service temporarily unavailable"@,
    }
}

/// Turns the auth service's answers into actions and responses.
pub struct ResponseHandler {}

impl ResponseHandler {
    /// A handler. It holds no state.
    pub fn new() -> (handler: Self) {
        Self {  }
    }

    /// The action that follows from the auth service's status code.
    pub fn handle_auth_response(&self, status: &str) -> (action: AuthAction)
        ensures
            action@ == classify(status@),
    {
        broadcast use group_string_axioms;

        if str_eq(status, "202") || str_eq(status, "200") {
            AuthAction::Allow
        } else if str_eq(status, "401") {
            AuthAction::Deny(401, "Authentication required".to_string())
        } else if str_eq(status, "403") {
            AuthAction::Redirect(SIGN_IN_PAGE.to_string())
        } else if str_eq(status, "302") || str_eq(status, "307") {
            AuthAction::Redirect(OAUTH_START_PATH.to_string())
        } else if str_eq(status, "408") {
            AuthAction::Error("Authentication service timeout".to_string())
        } else if str_eq(status, "429") {
            AuthAction::Deny(429, "Too many authentication requests".to_string())
        } else if str_eq(status, "500") || str_eq(status, "502") || str_eq(status, "503")
            || str_eq(status, "504") {
            AuthAction::Error("Authentication service error: ".to_string().concat(status))
        } else {
            AuthAction::Error(
                "Unexpected authentication service response: ".to_string().concat(status),
            )
        }
    }

    /// Whether `url` may be handed to a client as a redirect target.
    pub fn is_valid_redirect_url(&self, url: &str) -> (ok: bool)
        ensures
            ok == valid_redirect_url(url@),
    {
        if url.is_empty() || str_byte_len(url) > MAX_REDIRECT_URL_BYTES {
            return false;
        }
        starts_with_char(url, '/')
    }

    /// The first valid redirect target among the `location` headers.
    pub fn extract_redirect_url(&self, headers: &[(&str, &str)]) -> (url: Option<String>)
        ensures
            url.deep_view() == redirect_url_from(headers.deep_view(), 0),
    {
        broadcast use group_string_axioms;

        let mut i: usize = 0;
        while i < headers.len()
            invariant
                i <= headers@.len(),
                redirect_url_from(headers.deep_view(), 0) == redirect_url_from(
                    headers.deep_view(),
                    i as int,
                ),
            decreases headers@.len() - i,
        {
            let (name, value) = headers[i];
            if str_eq_ignore_ascii_case(name, "location") && self.is_valid_redirect_url(value) {
                return Some(value.to_string());
            }
            i = i + 1;
        }
        None
    }

    /// Status code, headers and body of the response that stands for `auth_action`.
    pub fn build_error_response(&self, auth_action: &AuthAction) -> (response: (
        u16,
        Vec<(String, String)>,
        String,
    ))
        ensures
            response.0 == error_response(auth_action@).0,
            response.1.deep_view() == error_response(auth_action@).1,
            response.2@ == error_response(auth_action@).2,
    {
        broadcast use group_string_axioms;

        match auth_action {
            AuthAction::Deny(status, message) => {
                let mut headers: Vec<(String, String)> = Vec::new();
                headers.push(("content-type".to_string(), "text/plain".to_string()));
                headers.push(("cache-control".to_string(), "no-cache, no-store".to_string()));
                (*status, headers, message.clone())
            },
            AuthAction::Redirect(location) => {
                let mut headers: Vec<(String, String)> = Vec::new();
                headers.push(("location".to_string(), location.clone()));
                headers.push(("cache-control".to_string(), "no-cache, no-store".to_string()));
                (302, headers, "Redirecting to authentication".to_string())
            },
            AuthAction::Error(message) => {
                let mut headers: Vec<(String, String)> = Vec::new();
                headers.push(("content-type".to_string(), "text/plain".to_string()));
                headers.push(("cache-control".to_string(), "no-cache, no-store".to_string()));
                (503, headers, message.clone())
            },
            AuthAction::Allow => {
                let headers: Vec<(String, String)> = Vec::new();
                (200, headers, "OK".to_string())
            },
        }
    }

    /// Whether `auth_action` reports a failure that may pass.
    pub fn is_temporary_failure(&self, auth_action: &AuthAction) -> (temporary: bool)
        ensures
            temporary == temporary_failure(auth_action@),
    {
        match auth_action {
            AuthAction::Error(_) => true,
            AuthAction::Deny(status, _) => *status == 429 || *status == 408 || (500 <= *status
                && *status <= 599),
            AuthAction::Redirect(_) => false,
            AuthAction::Allow => false,
        }
    }

    /// A sentence that describes `auth_action` to a person.
    pub fn get_result_description(&self, auth_action: &AuthAction) -> (description: String)
        ensures
            description@ == result_description(auth_action@),
    {
        broadcast use group_string_axioms;

        match auth_action {
            AuthAction::Allow => "Authentication successful".to_string(),
            AuthAction::Deny(status, _) => {
                if *status == 401 {
                    "Authentication required - please log in".to_string()
                } else if *status == 403 {
                    "Access denied - insufficient permissions".to_string()
                } else if *status == 429 {
                    "Rate limited - too many authentication attempts".to_string()
                } else {
                    let mut description = "Authentication failed (".to_string();
                    push_decimal(&mut description, *status as u64);
                    description.append(")");
                    description
                }
            },
            AuthAction::Redirect(_) => "Redirecting to authentication provider".to_string(),
            AuthAction::Error(_) => "Authentication service temporarily unavailable".to_string(),
        }
    }
}

/// The action that follows from a numeric status code: that of its decimal numeral.
pub open spec fn classify_code(code: u16) -> AuthActionView {
    classify(decimal(code as nat))
}

proof fn lemma_status_literals()
    ensures
        "200"@ == seq!['2', '0', '0'],
        "202"@ == seq!['2', '0', '2'],
        "302"@ == seq!['3', '0', '2'],
        "307"@ == seq!['3', '0', '7'],
        "401"@ == seq!['4', '0', '1'],
        "403"@ == seq!['4', '0', '3'],
        "408"@ == seq!['4', '0', '8'],
        "429"@ == seq!['4', '2', '9'],
        "500"@ == seq!['5', '0', '0'],
        "502"@ == seq!['5', '0', '2'],
        "503"@ == seq!['5', '0', '3'],
        "504"@ == seq!['5', '0', '4'],
{
    reveal_strlit("200");
    reveal_strlit("202");
    reveal_strlit("302");
    reveal_strlit("307");
    reveal_strlit("401");
    reveal_strlit("403");
    reveal_strlit("408");
    reveal_strlit("429");
    reveal_strlit("500");
    reveal_strlit("502");
    reveal_strlit("503");
    reveal_strlit("504");
}

/// The status `200` and the status `202` are both classified as `Allow`.
pub proof fn lemma_success_is_allowed(status: Seq<char>)
    requires
        status == "200"@ || status == "202"@,
    ensures
        classify(status) == AuthActionView::Allow,
{
}

/// Each of the statuses `500`, `502`, `503` and `504` is classified as an
/// error whose message names the status.
pub proof fn lemma_server_errors_are_errors(status: Seq<char>)
    requires
        status == "500"@ || status == "502"@ || status == "503"@ || status == "504"@,
    ensures
        classify(status) == AuthActionView::Error("Authentication service error: "@ + status),
{
    lemma_status_literals();
}

/// The classification of every numeric status code: the twelve codes that
/// the auth service is known to send have their own action, and every
/// other code is an unexpected response.
pub proof fn lemma_classify_code(code: u16)
    ensures
        code == 200 || code == 202 ==> classify_code(code) == AuthActionView::Allow,
        code == 401 ==> classify_code(code) == AuthActionView::Deny(
            401,
            "Authentication required"@,
        ),
        code == 403 ==> classify_code(code) == AuthActionView::Redirect(SIGN_IN_PAGE@),
        code == 302 || code == 307 ==> classify_code(code) == AuthActionView::Redirect(
            OAUTH_START_PATH@,
        ),
        code == 408 ==> classify_code(code) == AuthActionView::Error(
            "Authentication service timeout"@,
        ),
        code == 429 ==> classify_code(code) == AuthActionView::Deny(
            429,
            "Too many authentication requests"@,
        ),
        code == 500 || code == 502 || code == 503 || code == 504 ==> classify_code(code)
            == AuthActionView::Error("Authentication service error: "@ + decimal(code as nat)),
        !(code == 200 || code == 202 || code == 401 || code == 403 || code == 302 || code == 307
            || code == 408 || code == 429 || code == 500 || code == 502 || code == 503 || code
            == 504) ==> classify_code(code) == AuthActionView::Error(
            "Unexpected authentication service response: "@ + decimal(code as nat),
        ),
{
    let n = code as nat;
    lemma_status_literals();
    lemma_decimal_len(n);
    if 100 <= n < 1000 {
        lemma_decimal_of_three_digits(n);
    }
}

/// Classification has no hidden state: two actions that were computed for
/// the same status are the same action with the same payload.
pub proof fn lemma_classify_is_repeatable(status: Seq<char>, first: AuthAction, second: AuthAction)
    requires
        first@ == classify(status),
        second@ == classify(status),
    ensures
        first@ == second@,
{
}

} // verus!
