//! Resolution of the configured auth-service endpoint and the rules that an
//! outbound header set has to meet.

use vstd::prelude::*;
use vstd::string::*;
use crate::text::{
    char_is_whitespace, chars_of, find, find_char, find_char_in, find_in, has_forbidden_control,
    is_whitespace, parse_u16, parse_u16_str, rfind_char, rfind_char_in, starts_with_char, str_eq,
    str_has_forbidden_control,
};

verus! {

/// Product token sent with every call to the auth service.
pub const USER_AGENT: &'static str = "BYOIDC-WASM-Plugin/1.0";

/// Scheme and host of an endpoint of the form `scheme://host[:port]`, or the
/// reason why `endpoint` is not one.
///
/// The scheme is what stands before the first `://` and must be `https` or
/// `http`. The host is what follows, up to its first `:`: the port is left
/// out because calls are addressed to a named cluster, which maps the port.
pub open spec fn endpoint_parts(endpoint: Seq<char>) -> Result<(Seq<char>, Seq<char>), Seq<char>> {
    match find(endpoint, "://"@) {
        None => Err("Invalid endpoint format: must include scheme (https://)"@),
        Some(pos) => {
            let scheme = endpoint.subrange(0, pos);
            let host_part = endpoint.subrange(pos + 3, endpoint.len() as int);
            if scheme != "https"@ && scheme != "http"@ {
                Err("Unsupported scheme: "@ + scheme)
            } else {
                let host = match find_char(host_part, ':') {
                    Some(colon) => host_part.subrange(0, colon),
                    None => host_part,
                };
                if host.len() == 0 {
                    Err("Host part cannot be empty"@)
                } else {
                    Ok((scheme, host))
                }
            }
        },
    }
}

/// `host_with_port` without its port: what stands before the last `:` where
/// the text after it denotes a 16-bit unsigned integer, else all of it. An
/// IPv6 literal holds colons too, but no port follows its last one.
pub open spec fn hostname_of(host_with_port: Seq<char>) -> Seq<char> {
    match rfind_char(host_with_port, ':') {
        Some(colon) => if parse_u16(
            host_with_port.subrange(colon + 1, host_with_port.len() as int),
        ) is Some {
            host_with_port.subrange(0, colon)
        } else {
            host_with_port
        },
        None => host_with_port,
    }
}

/// Whether `name` holds whitespace.
pub open spec fn has_whitespace(name: Seq<char>) -> bool {
    exists|i: int| 0 <= i < name.len() && is_whitespace(#[trigger] name[i])
}

/// What is wrong with the header `name: value`, if anything.
///
/// A name must not be empty. `:method` is `GET` or `POST`, `:scheme` is
/// `https` or `http`, `:path` starts with `/`. No name holds whitespace and
/// no value holds a control character other than the tab.
pub open spec fn header_problem(name: Seq<char>, value: Seq<char>) -> Option<Seq<char>> {
    if name.len() == 0 {
        Some("Header name cannot be empty"@)
    } else if name == ":method"@ && value != "GET"@ && value != "POST"@ {
        Some("Only GET and POST methods are supported"@)
    } else if name == ":scheme"@ && value != "https"@ && value != "http"@ {
        Some("Only HTTP and HTTPS schemes are supported"@)
    } else if name == ":path"@ && !(value.len() > 0 && value[0] == '/') {
        Some("Path must start with '/'"@)
    } else if has_whitespace(name) {
        Some("Invalid header name: "@ + name)
    } else if has_forbidden_control(value) {
        Some("Invalid header value for "@ + name)
    } else {
        None
    }
}

/// The problem of the first header from position `i` on that has one.
pub open spec fn first_header_problem(headers: Seq<(Seq<char>, Seq<char>)>, i: int) -> Option<
    Seq<char>,
>
    decreases headers.len() - i,
{
    if i < 0 || i >= headers.len() {
        None
    } else if header_problem(headers[i].0, headers[i].1) is Some {
        header_problem(headers[i].0, headers[i].1)
    } else {
        first_header_problem(headers, i + 1)
    }
}

/// The headers that open every call to the auth service.
pub open spec fn auth_headers(
    method: Seq<char>,
    path: Seq<char>,
    authority: Seq<char>,
    scheme: Seq<char>,
) -> Seq<(Seq<char>, Seq<char>)> {
    seq![
        (":method"@, method),
        (":path"@, path),
        (":authority"@, authority),
        (":scheme"@, scheme),
        ("user-agent"@, USER_AGENT@),
    ]
}

/// What comes out of resolving an endpoint: a scheme that is `https` or
/// `http`, and a host that is not empty and holds no colon.
pub proof fn lemma_endpoint_parts(endpoint: Seq<char>)
    ensures
        match endpoint_parts(endpoint) {
            Ok((scheme, host)) => {
                &&& scheme == "https"@ || scheme == "http"@
                &&& host.len() > 0
                &&& forall|i: int| 0 <= i < host.len() ==> host[i] != ':'
                &&& (scheme + "://"@ + host).is_prefix_of(endpoint)
            },
            Err(_) => true,
        },
{
    crate::text::lemma_find_from_is_first(endpoint, "://"@, 0);
    match find(endpoint, "://"@) {
        Some(pos) => {
            let host_part = endpoint.subrange(pos + 3, endpoint.len() as int);
            crate::text::lemma_find_char_from_is_first(host_part, ':', 0);
            reveal_strlit("://");
        },
        None => {},
    }
}

/// A header set passes exactly when none of its headers has a problem.
pub proof fn lemma_first_header_problem(headers: Seq<(Seq<char>, Seq<char>)>, i: int)
    requires
        0 <= i,
    ensures
        first_header_problem(headers, i) is None <==> forall|k: int|
            i <= k < headers.len() ==> header_problem(
                (#[trigger] headers[k]).0,
                headers[k].1,
            ) is None,
    decreases headers.len() - i,
{
    if i < headers.len() {
        lemma_first_header_problem(headers, i + 1);
    }
}

/// The host's name is what its address begins with.
pub proof fn lemma_hostname_is_prefix(host_with_port: Seq<char>)
    ensures
        hostname_of(host_with_port).is_prefix_of(host_with_port),
{
    crate::text::lemma_rfind_char_before_is_last(
        host_with_port,
        ':',
        host_with_port.len() as int,
    );
}

proof fn lemma_pseudo_headers_hold_no_whitespace()
    ensures
        !has_whitespace(":method"@),
        !has_whitespace(":scheme"@),
        !has_whitespace(":path"@),
        ":method"@ != ":scheme"@,
{
    reveal_strlit(":method");
    reveal_strlit(":scheme");
    reveal_strlit(":path");
    assert(":method"@[1] != ":scheme"@[1]);
}

fn str_has_whitespace(name: &str) -> (r: bool)
    ensures
        r == has_whitespace(name@),
{
    for c in it: name.chars()
        invariant
            it.seq() == name@,
            forall|i: int| 0 <= i < it.index() ==> !is_whitespace(#[trigger] name@[i]),
    {
        if char_is_whitespace(c) {
            return true;
        }
    }
    false
}

/// Resolves endpoints and checks outbound headers for the auth call.
pub struct HttpClient {}

impl HttpClient {
    /// A client. It holds no state.
    pub fn new() -> (client: Self) {
        Self {  }
    }

    /// Splits `endpoint` into its scheme and its host without the port.
    pub fn parse_endpoint(&self, endpoint: &str) -> (parsed: Result<(String, String), String>)
        ensures
            match parsed {
                Ok((scheme, host)) => endpoint_parts(endpoint@) == Ok::<
                    (Seq<char>, Seq<char>),
                    Seq<char>,
                >((scheme@, host@)),
                Err(reason) => endpoint_parts(endpoint@) == Err::<
                    (Seq<char>, Seq<char>),
                    Seq<char>,
                >(reason@),
            },
    {
        broadcast use group_string_axioms;

        let chars = chars_of(endpoint);
        let separator = chars_of("://");
        proof {
            reveal_strlit("://");
        }
        match find_in(&chars, &separator, 0) {
            None => Err("Invalid endpoint format: must include scheme (https://)".to_string()),
            Some(pos) => {
                proof {
                    crate::text::lemma_find_from_is_first(endpoint@, "://"@, 0);
                }
                let scheme = endpoint.substring_char(0, pos);
                if !str_eq(scheme, "https") && !str_eq(scheme, "http") {
                    return Err("Unsupported scheme: ".to_string().concat(scheme));
                }
                let n: usize = chars.len();
                let host_part = endpoint.substring_char(pos + 3, n);
                let host_chars = chars_of(host_part);
                let host = match find_char_in(&host_chars, ':', 0) {
                    Some(colon) => {
                        proof {
                            crate::text::lemma_find_char_from_is_first(host_part@, ':', 0);
                        }
                        host_part.substring_char(0, colon)
                    },
                    None => host_part,
                };
                if host.is_empty() {
                    return Err("Host part cannot be empty".to_string());
                }
                Ok((scheme.to_string(), host.to_string()))
            },
        }
    }

    /// `host_with_port` without its port, if it ends in one.
    pub fn extract_hostname(&self, host_with_port: &str) -> (hostname: String)
        ensures
            hostname@ == hostname_of(host_with_port@),
    {
        broadcast use group_string_axioms;

        let chars = chars_of(host_with_port);
        match rfind_char_in(&chars, ':') {
            Some(colon) => {
                proof {
                    crate::text::lemma_rfind_char_before_is_last(
                        host_with_port@,
                        ':',
                        host_with_port@.len() as int,
                    );
                }
                let potential_port = host_with_port.substring_char(colon + 1, chars.len());
                if parse_u16_str(potential_port).is_some() {
                    return host_with_port.substring_char(0, colon).to_string();
                }
            },
            None => {},
        }
        host_with_port.to_string()
    }

    /// Checks each header in turn and reports the first problem found.
    pub fn validate_headers(&self, headers: &[(&str, &str)]) -> (checked: Result<(), String>)
        ensures
            match checked {
                Ok(_) => first_header_problem(headers.deep_view(), 0) is None,
                Err(reason) => first_header_problem(headers.deep_view(), 0) == Some(reason@),
            },
    {
        broadcast use group_string_axioms;

        let mut i: usize = 0;
        while i < headers.len()
            invariant
                i <= headers@.len(),
                first_header_problem(headers.deep_view(), 0) == first_header_problem(
                    headers.deep_view(),
                    i as int,
                ),
            decreases headers@.len() - i,
        {
            let (name, value) = headers[i];
            proof {
                reveal_strlit(":method");
                reveal_strlit(":scheme");
                reveal_strlit(":path");
                lemma_pseudo_headers_hold_no_whitespace();
            }
            if name.is_empty() {
                return Err("Header name cannot be empty".to_string());
            }
            if str_eq(name, ":method") {
                if !str_eq(value, "GET") && !str_eq(value, "POST") {
                    return Err("Only GET and POST methods are supported".to_string());
                }
            } else if str_eq(name, ":scheme") {
                if !str_eq(value, "https") && !str_eq(value, "http") {
                    return Err("Only HTTP and HTTPS schemes are supported".to_string());
                }
            } else if str_eq(name, ":path") {
                if !starts_with_char(value, '/') {
                    return Err("Path must start with '/'".to_string());
                }
            } else if str_has_whitespace(name) {
                return Err("Invalid header name: ".to_string().concat(name));
            }
            if str_has_forbidden_control(value) {
                return Err("Invalid header value for ".to_string().concat(name));
            }
            i = i + 1;
        }
        Ok(())
    }

    /// The headers that open every call to the auth service.
    pub fn build_auth_headers(
        &self,
        method: &str,
        path: &str,
        authority: &str,
        scheme: &str,
    ) -> (headers: Vec<(&'static str, String)>)
        ensures
            headers.deep_view() == auth_headers(method@, path@, authority@, scheme@),
    {
        broadcast use group_string_axioms;

        let mut headers: Vec<(&'static str, String)> = Vec::new();
        headers.push((":method", method.to_string()));
        headers.push((":path", path.to_string()));
        headers.push((":authority", authority.to_string()));
        headers.push((":scheme", scheme.to_string()));
        headers.push(("user-agent", USER_AGENT.to_string()));
        headers
    }
}

} // verus!
