//! The gateway's configuration: where the auth service is, how it is
//! called, and whether authentication is on at all.

use vstd::prelude::*;
use vstd::string::*;
use crate::text::{clone_optional, clone_pairs, starts_with, starts_with_char};

verus! {

/// Longest timeout of an auth call, in milliseconds.
pub const MAX_TIMEOUT_MS: u64 = 30000;

/// How the connection to the auth service is secured.
#[derive(Debug)]
pub struct TlsConfig {
    /// Whether the auth service's certificate is verified. Off by default:
    /// in-cluster services often present self-signed certificates.
    pub verify_cert: bool,
    /// Path of a custom CA bundle.
    pub ca_cert_path: Option<String>,
    /// Path of the client certificate for mutual TLS.
    pub client_cert_path: Option<String>,
    /// Path of the client key for mutual TLS.
    pub client_key_path: Option<String>,
}

/// The mathematical view of `TlsConfig`: its texts are sequences of characters.
pub struct TlsConfigView {
    pub verify_cert: bool,
    pub ca_cert_path: Option<Seq<char>>,
    pub client_cert_path: Option<Seq<char>>,
    pub client_key_path: Option<Seq<char>>,
}

impl View for TlsConfig {
    type V = TlsConfigView;

    open spec fn view(&self) -> TlsConfigView {
        TlsConfigView {
            verify_cert: self.verify_cert,
            ca_cert_path: self.ca_cert_path.deep_view(),
            client_cert_path: self.client_cert_path.deep_view(),
            client_key_path: self.client_key_path.deep_view(),
        }
    }
}

impl TlsConfig {
    pub open spec fn default_view() -> TlsConfigView {
        TlsConfigView {
            verify_cert: false,
            ca_cert_path: None,
            client_cert_path: None,
            client_key_path: None,
        }
    }
}

impl Default for TlsConfig {
    fn default() -> (config: Self)
        ensures
            config@ == TlsConfig::default_view(),
    {
        Self { verify_cert: false, ca_cert_path: None, client_cert_path: None, client_key_path: None }
    }
}

impl Clone for TlsConfig {
    fn clone(&self) -> (copy: Self)
        ensures
            copy@ == self@,
    {
        Self {
            verify_cert: self.verify_cert,
            ca_cert_path: clone_optional(&self.ca_cert_path),
            client_cert_path: clone_optional(&self.client_cert_path),
            client_key_path: clone_optional(&self.client_key_path),
        }
    }
}

/// Where the auth service is and how it is called.
#[derive(Debug)]
pub struct AuthServiceConfig {
    /// URL of the auth service, such as `https://auth.example.svc:4180`.
    pub endpoint: String,
    /// Name of the cluster through which the host reaches the auth service.
    pub cluster: String,
    /// Path of the auth service that performs the check.
    pub verify_path: String,
    /// Timeout of an auth call, in milliseconds.
    pub timeout: u64,
    /// How the connection is secured.
    pub tls: TlsConfig,
}

/// The mathematical view of `AuthServiceConfig`: its texts are sequences of characters.
pub struct AuthServiceConfigView {
    pub endpoint: Seq<char>,
    pub cluster: Seq<char>,
    pub verify_path: Seq<char>,
    pub timeout: u64,
    pub tls: TlsConfigView,
}

impl View for AuthServiceConfig {
    type V = AuthServiceConfigView;

    open spec fn view(&self) -> AuthServiceConfigView {
        AuthServiceConfigView {
            endpoint: self.endpoint@,
            cluster: self.cluster@,
            verify_path: self.verify_path@,
            timeout: self.timeout,
            tls: self.tls@,
        }
    }
}

impl AuthServiceConfig {
    pub open spec fn default_view() -> AuthServiceConfigView {
        AuthServiceConfigView {
            endpoint: "https://kube-auth-proxy.auth-system.svc.cluster.local:4180"@,
            cluster: "outbound|4180||kube-auth-proxy.auth-system.svc.cluster.local"@,
            verify_path: "/auth"@,
            timeout: 5000,
            tls: TlsConfig::default_view(),
        }
    }
}

impl Default for AuthServiceConfig {
    fn default() -> (config: Self)
        ensures
            config@ == AuthServiceConfig::default_view(),
    {
        broadcast use group_string_axioms;

        Self {
            endpoint: "https://kube-auth-proxy.auth-system.svc.cluster.local:4180".to_string(),
            cluster: "outbound|4180||kube-auth-proxy.auth-system.svc.cluster.local".to_string(),
            verify_path: "/auth".to_string(),
            timeout: 5000,
            tls: TlsConfig::default(),
        }
    }
}

impl Clone for AuthServiceConfig {
    fn clone(&self) -> (copy: Self)
        ensures
            copy@ == self@,
    {
        Self {
            endpoint: self.endpoint.clone(),
            cluster: self.cluster.clone(),
            verify_path: self.verify_path.clone(),
            timeout: self.timeout,
            tls: self.tls.clone(),
        }
    }
}

/// Whether requests are authenticated at all.
#[derive(Debug)]
pub struct GlobalAuthConfig {
    /// On by default. The gateway makes no difference between paths: with
    /// this on, every request that is not a bypass is checked.
    pub enabled: bool,
}

impl Default for GlobalAuthConfig {
    fn default() -> (config: Self)
        ensures
            config.enabled,
    {
        Self { enabled: true }
    }
}

impl Clone for GlobalAuthConfig {
    fn clone(&self) -> (copy: Self)
        ensures
            copy == *self,
    {
        Self { enabled: self.enabled }
    }
}

/// A response that the operator writes in place of a built-in one.
#[derive(Debug)]
pub struct ErrorResponse {
    pub status: u16,
    pub body: String,
    pub headers: Vec<(String, String)>,
}

/// The mathematical view of `ErrorResponse`: its texts are sequences of characters.
pub struct ErrorResponseView {
    pub status: u16,
    pub body: Seq<char>,
    pub headers: Seq<(Seq<char>, Seq<char>)>,
}

impl View for ErrorResponse {
    type V = ErrorResponseView;

    open spec fn view(&self) -> ErrorResponseView {
        ErrorResponseView {
            status: self.status,
            body: self.body@,
            headers: self.headers.deep_view(),
        }
    }
}

impl ErrorResponse {
    pub open spec fn default_view() -> ErrorResponseView {
        ErrorResponseView {
            status: 500,
            body: "Internal server error"@,
            headers: seq![("content-type"@, "text/plain"@)],
        }
    }
}

impl Default for ErrorResponse {
    fn default() -> (response: Self)
        ensures
            response@ == ErrorResponse::default_view(),
    {
        broadcast use group_string_axioms;

        let mut headers: Vec<(String, String)> = Vec::new();
        headers.push(("content-type".to_string(), "text/plain".to_string()));
        assert(headers.deep_view() =~= seq![("content-type"@, "text/plain"@)]);
        Self { status: 500, body: "Internal server error".to_string(), headers }
    }
}

impl Clone for ErrorResponse {
    fn clone(&self) -> (copy: Self)
        ensures
            copy@ == self@,
    {
        Self { status: self.status, body: self.body.clone(), headers: clone_pairs(&self.headers) }
    }
}

/// The operator's own responses, one for each kind of refusal.
#[derive(Debug)]
pub struct ErrorResponses {
    pub auth_service_error: ErrorResponse,
    pub access_denied: ErrorResponse,
    pub authentication_required: ErrorResponse,
}

/// The mathematical view of `ErrorResponses`: its texts are sequences of characters.
pub struct ErrorResponsesView {
    pub auth_service_error: ErrorResponseView,
    pub access_denied: ErrorResponseView,
    pub authentication_required: ErrorResponseView,
}

impl View for ErrorResponses {
    type V = ErrorResponsesView;

    open spec fn view(&self) -> ErrorResponsesView {
        ErrorResponsesView {
            auth_service_error: self.auth_service_error@,
            access_denied: self.access_denied@,
            authentication_required: self.authentication_required@,
        }
    }
}

impl Clone for ErrorResponses {
    fn clone(&self) -> (copy: Self)
        ensures
            copy@ == self@,
    {
        Self {
            auth_service_error: self.auth_service_error.clone(),
            access_denied: self.access_denied.clone(),
            authentication_required: self.authentication_required.clone(),
        }
    }
}

/// The whole configuration of the gateway.
#[derive(Debug)]
pub struct PluginConfig {
    pub auth_service: AuthServiceConfig,
    pub global_auth: GlobalAuthConfig,
    pub error_responses: Option<ErrorResponses>,
}

/// The mathematical view of `PluginConfig`: its texts are sequences of characters.
pub struct PluginConfigView {
    pub auth_service: AuthServiceConfigView,
    pub global_auth_enabled: bool,
    pub error_responses: Option<ErrorResponsesView>,
}

impl View for PluginConfig {
    type V = PluginConfigView;

    open spec fn view(&self) -> PluginConfigView {
        PluginConfigView {
            auth_service: self.auth_service@,
            global_auth_enabled: self.global_auth.enabled,
            error_responses: match self.error_responses {
                Some(responses) => Some(responses@),
                None => None,
            },
        }
    }
}

/// What is wrong with a configuration, if anything.
///
/// The endpoint is not empty and starts with `https://`; the timeout lies
/// between 1 and 30000 milliseconds; the verify path starts with `/`.
pub open spec fn config_problem(config: PluginConfigView) -> Option<Seq<char>> {
    let service = config.auth_service;
    if service.endpoint.len() == 0 {
        Some("Auth service endpoint cannot be empty"@)
    } else if !"https://"@.is_prefix_of(service.endpoint) {
        Some("Auth service endpoint must use HTTPS for security"@)
    } else if service.timeout == 0 {
        Some("Auth service timeout must be greater than 0"@)
    } else if service.timeout > MAX_TIMEOUT_MS {
        Some("Auth service timeout should not exceed 30 seconds"@)
    } else if service.verify_path.len() == 0 {
        Some("Auth service verify path cannot be empty"@)
    } else if service.verify_path[0] != '/' {
        Some("Auth service verify path must start with '/'"@)
    } else {
        None
    }
}

impl PluginConfig {
    pub open spec fn default_view() -> PluginConfigView {
        PluginConfigView {
            auth_service: AuthServiceConfig::default_view(),
            global_auth_enabled: true,
            error_responses: None,
        }
    }

    /// Whether the configuration may be put to use.
    pub open spec fn is_valid(&self) -> bool {
        config_problem(self@) is None
    }

    /// Checks the configuration and says what is wrong with it, if anything.
    pub fn validate(&self) -> (checked: Result<(), String>)
        ensures
            match checked {
                Ok(_) => config_problem(self@) is None,
                Err(reason) => config_problem(self@) == Some(reason@),
            },
    {
        broadcast use group_string_axioms;

        if self.auth_service.endpoint.as_str().is_empty() {
            return Err("Auth service endpoint cannot be empty".to_string());
        }
        if !starts_with(self.auth_service.endpoint.as_str(), "https://") {
            return Err("Auth service endpoint must use HTTPS for security".to_string());
        }
        if self.auth_service.timeout == 0 {
            return Err("Auth service timeout must be greater than 0".to_string());
        }
        if self.auth_service.timeout > MAX_TIMEOUT_MS {
            return Err("Auth service timeout should not exceed 30 seconds".to_string());
        }
        if self.auth_service.verify_path.as_str().is_empty() {
            return Err("Auth service verify path cannot be empty".to_string());
        }
        if !starts_with_char(self.auth_service.verify_path.as_str(), '/') {
            return Err("Auth service verify path must start with '/'".to_string());
        }
        Ok(())
    }
}

impl Default for PluginConfig {
    fn default() -> (config: Self)
        ensures
            config@ == PluginConfig::default_view(),
    {
        Self {
            auth_service: AuthServiceConfig::default(),
            global_auth: GlobalAuthConfig::default(),
            error_responses: None,
        }
    }
}

impl Clone for PluginConfig {
    fn clone(&self) -> (copy: Self)
        ensures
            copy@ == self@,
    {
        Self {
            auth_service: self.auth_service.clone(),
            global_auth: self.global_auth.clone(),
            error_responses: match &self.error_responses {
                Some(responses) => Some(responses.clone()),
                None => None,
            },
        }
    }
}

/// The configuration that is used where none is given passes its own check.
pub proof fn lemma_default_config_is_valid()
    ensures
        config_problem(PluginConfig::default_view()) is None,
{
    reveal_strlit("https://kube-auth-proxy.auth-system.svc.cluster.local:4180");
    reveal_strlit("https://");
    reveal_strlit("/auth");
}

} // verus!
