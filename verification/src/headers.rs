//! Header policy: which header names may be forwarded, which values are
//! safe, which identity headers the auth service may set on the forwarded
//! request, and where the client's address is looked for.

use vstd::prelude::*;
use vstd::string::*;
use crate::text::{
    byte_len, chars_of, contains, eq_ignore_ascii_case, find_char, find_char_in, find_in,
    has_forbidden_control, lowercase, starts_with_char, str_byte_len, str_eq,
    str_eq_ignore_ascii_case, str_has_forbidden_control, to_lowercase, trim, trim_str,
};

verus! {

/// Longest header value, in bytes, that is accepted.
pub const MAX_HEADER_VALUE_BYTES: usize = 8192;

/// Longest client address, in characters, that is accepted: the length of
/// the longest textual IPv6 address.
pub const MAX_IP_CHARS: usize = 45;

/// Whether `name` is one of the hop-by-hop headers that are never forwarded.
pub open spec fn blocked_header(name: Seq<char>) -> bool {
    ||| name == "connection"@
    ||| name == "upgrade"@
    ||| name == "proxy-connection"@
    ||| name == "proxy-authenticate"@
    ||| name == "proxy-authorization"@
    ||| name == "te"@
    ||| name == "trailers"@
    ||| name == "transfer-encoding"@
}

/// The forwardable form of a header name that is already in lower case: the
/// name without surrounding whitespace, unless that is empty, a
/// pseudo-header (it starts with `:`) or a blocked header.
pub open spec fn sanitized_name(lowered: Seq<char>) -> Option<Seq<char>> {
    let cleaned = trim(lowered);
    if cleaned.len() == 0 || cleaned[0] == ':' || blocked_header(cleaned) {
        None
    } else {
        Some(cleaned)
    }
}

/// Whether `value` may stand in a header: it holds no control character but
/// the tab and takes at most 8192 bytes.
pub open spec fn header_value_ok(value: Seq<char>) -> bool {
    &&& !has_forbidden_control(value)
    &&& byte_len(value) <= MAX_HEADER_VALUE_BYTES
}

/// The value of the first header from position `i` on whose name is `name`,
/// in any ASCII case.
pub open spec fn lookup_from(headers: Seq<(Seq<char>, Seq<char>)>, name: Seq<char>, i: int)
    -> Option<Seq<char>>
    decreases headers.len() - i,
{
    if i < 0 || i >= headers.len() {
        None
    } else if eq_ignore_ascii_case(headers[i].0, name) {
        Some(headers[i].1)
    } else {
        lookup_from(headers, name, i + 1)
    }
}

/// The value of the first header whose name is `name`, in any ASCII case.
pub open spec fn lookup(headers: Seq<(Seq<char>, Seq<char>)>, name: Seq<char>) -> Option<
    Seq<char>,
> {
    lookup_from(headers, name, 0)
}

/// The identity header `name` as it is copied from the auth response: once,
/// with the value of its first occurrence, if that value is acceptable.
pub open spec fn user_header(headers: Seq<(Seq<char>, Seq<char>)>, name: Seq<char>) -> Seq<
    (Seq<char>, Seq<char>),
> {
    match lookup(headers, name) {
        Some(value) => if header_value_ok(value) {
            seq![(name, value)]
        } else {
            Seq::empty()
        },
        None => Seq::empty(),
    }
}

/// The identity headers that the auth response sets on the forwarded request.
pub open spec fn user_headers(headers: Seq<(Seq<char>, Seq<char>)>) -> Seq<
    (Seq<char>, Seq<char>),
> {
    user_header(headers, "x-forwarded-user"@) + user_header(headers, "x-forwarded-email"@)
        + user_header(headers, "x-forwarded-access-token"@) + user_header(
        headers,
        "x-forwarded-groups"@,
    ) + user_header(headers, "gap-auth"@)
}

/// Whether `ip` looks like an address: not empty, at most 45 characters, no
/// `..` in it and no `.` at either end. This is a heuristic, not a parser.
pub open spec fn plausible_ip(ip: Seq<char>) -> bool {
    &&& 0 < ip.len() <= MAX_IP_CHARS
    &&& !contains(ip, ".."@)
    &&& ip.first() != '.'
    &&& ip.last() != '.'
}

/// What stands before the first comma of `value`, or all of it.
pub open spec fn first_segment(value: Seq<char>) -> Seq<char> {
    match find_char(value, ',') {
        Some(comma) => value.subrange(0, comma),
        None => value,
    }
}

/// The client address that the header `name` offers, if it offers a plausible
/// one. Of a forwarding list only the first entry counts.
pub open spec fn ip_candidate(
    headers: Seq<(Seq<char>, Seq<char>)>,
    name: Seq<char>,
    forwarding_list: bool,
) -> Option<Seq<char>> {
    match lookup(headers, name) {
        Some(value) => {
            let ip = trim(
                if forwarding_list {
                    first_segment(value)
                } else {
                    value
                },
            );
            if plausible_ip(ip) {
                Some(ip)
            } else {
                None
            }
        },
        None => None,
    }
}

/// The client's address: the first plausible candidate among `x-real-ip`,
/// `x-forwarded-for`, `x-client-ip`, `cf-connecting-ip` and `true-client-ip`,
/// in this order.
pub open spec fn client_ip(headers: Seq<(Seq<char>, Seq<char>)>) -> Option<Seq<char>> {
    if ip_candidate(headers, "x-real-ip"@, false) is Some {
        ip_candidate(headers, "x-real-ip"@, false)
    } else if ip_candidate(headers, "x-forwarded-for"@, true) is Some {
        ip_candidate(headers, "x-forwarded-for"@, true)
    } else if ip_candidate(headers, "x-client-ip"@, false) is Some {
        ip_candidate(headers, "x-client-ip"@, false)
    } else if ip_candidate(headers, "cf-connecting-ip"@, false) is Some {
        ip_candidate(headers, "cf-connecting-ip"@, false)
    } else {
        ip_candidate(headers, "true-client-ip"@, false)
    }
}

/// A name that comes out of sanitizing is not empty, no pseudo-header and
/// not blocked, and sanitizing it again changes nothing.
pub proof fn lemma_sanitized_name(lowered: Seq<char>)
    ensures
        match sanitized_name(lowered) {
            Some(cleaned) => {
                &&& cleaned.len() > 0
                &&& cleaned[0] != ':'
                &&& !blocked_header(cleaned)
                &&& sanitized_name(cleaned) == Some(cleaned)
            },
            None => true,
        },
{
    crate::text::lemma_trim_is_idempotent(lowered);
}

/// Whether `name` is one of the five identity headers.
pub open spec fn is_identity_header(name: Seq<char>) -> bool {
    ||| name == "x-forwarded-user"@
    ||| name == "x-forwarded-email"@
    ||| name == "x-forwarded-access-token"@
    ||| name == "x-forwarded-groups"@
    ||| name == "gap-auth"@
}

/// Nothing but identity headers is copied from the auth response, each at
/// most once, each with a value that the response holds under that name and
/// that is acceptable.
pub proof fn lemma_user_headers(headers: Seq<(Seq<char>, Seq<char>)>)
    ensures
        user_headers(headers).len() <= 5,
        forall|i: int|
            0 <= i < user_headers(headers).len() ==> {
                let copied = #[trigger] user_headers(headers)[i];
                &&& is_identity_header(copied.0)
                &&& header_value_ok(copied.1)
                &&& lookup(headers, copied.0) == Some(copied.1)
            },
{
}

/// An address that is taken for the client's is plausible.
pub proof fn lemma_client_ip_is_plausible(headers: Seq<(Seq<char>, Seq<char>)>)
    ensures
        match client_ip(headers) {
            Some(ip) => plausible_ip(ip),
            None => true,
        },
{
}

/// The value of the first header whose name is `name`, in any ASCII case.
pub fn find_header<'a>(headers: &[(&'a str, &'a str)], name: &str) -> (value: Option<&'a str>)
    ensures
        match value {
            Some(v) => lookup(headers.deep_view(), name@) == Some(v@),
            None => lookup(headers.deep_view(), name@) is None,
        },
{
    let mut i: usize = 0;
    while i < headers.len()
        invariant
            i <= headers@.len(),
            lookup(headers.deep_view(), name@) == lookup_from(
                headers.deep_view(),
                name@,
                i as int,
            ),
        decreases headers@.len() - i,
    {
        let (header_name, header_value) = headers[i];
        if str_eq_ignore_ascii_case(header_name, name) {
            return Some(header_value);
        }
        i = i + 1;
    }
    None
}

/// Applies the header policy.
pub struct HeaderProcessor {}

impl HeaderProcessor {
    /// A processor. It holds no state.
    pub fn new() -> (processor: Self) {
        Self {  }
    }

    /// The request headers that are handed to the auth service by this
    /// processor itself: none. The request's own headers are captured by the
    /// request context.
    pub fn extract_auth_headers(&self) -> (headers: Vec<(String, String)>)
        ensures
            headers@.len() == 0,
    {
        Vec::new()
    }

    /// The forwardable form of a header name: in lower case and without
    /// surrounding whitespace, or `None` where the name must not be forwarded.
    pub fn sanitize_header_name(&self, name: &str) -> (cleaned: Option<String>)
        ensures
            cleaned.deep_view() == sanitized_name(lowercase(name@)),
    {
        let lowered = to_lowercase(name);
        self.sanitize_lowered_name(lowered.as_str())
    }

    /// The forwardable form of a header name that is already in lower case.
    pub fn sanitize_lowered_name(&self, lowered: &str) -> (cleaned: Option<String>)
        ensures
            cleaned.deep_view() == sanitized_name(lowered@),
    {
        broadcast use group_string_axioms;

        let cleaned = trim_str(lowered);
        if cleaned.is_empty() {
            return None;
        }
        if starts_with_char(cleaned, ':') {
            return None;
        }
        if str_eq(cleaned, "connection") || str_eq(cleaned, "upgrade") || str_eq(
            cleaned,
            "proxy-connection",
        ) || str_eq(cleaned, "proxy-authenticate") || str_eq(cleaned, "proxy-authorization")
            || str_eq(cleaned, "te") || str_eq(cleaned, "trailers") || str_eq(
            cleaned,
            "transfer-encoding",
        ) {
            return None;
        }
        Some(cleaned.to_string())
    }

    /// Whether `value` may stand in a header.
    pub fn validate_header_value(&self, value: &str) -> (ok: bool)
        ensures
            ok == header_value_ok(value@),
    {
        if str_has_forbidden_control(value) {
            return false;
        }
        if str_byte_len(value) > MAX_HEADER_VALUE_BYTES {
            return false;
        }
        true
    }

    fn push_user_header(
        &self,
        copied: &mut Vec<(String, String)>,
        auth_response_headers: &[(&str, &str)],
        name: &str,
    )
        ensures
            final(copied).deep_view() == old(copied).deep_view() + user_header(
                auth_response_headers.deep_view(),
                name@,
            ),
    {
        broadcast use group_string_axioms;

        match find_header(auth_response_headers, name) {
            Some(value) => {
                if self.validate_header_value(value) {
                    copied.push((name.to_string(), value.to_string()));
                }
            },
            None => {},
        }
    }

    /// The identity headers that the auth response sets on the forwarded
    /// request: each of the five known headers that the response holds with
    /// an acceptable value, under the same name.
    pub fn build_user_headers(&self, auth_response_headers: &[(&str, &str)]) -> (copied: Vec<
        (String, String),
    >)
        ensures
            copied.deep_view() == user_headers(auth_response_headers.deep_view()),
    {
        let mut copied: Vec<(String, String)> = Vec::new();
        self.push_user_header(&mut copied, auth_response_headers, "x-forwarded-user");
        self.push_user_header(&mut copied, auth_response_headers, "x-forwarded-email");
        self.push_user_header(&mut copied, auth_response_headers, "x-forwarded-access-token");
        self.push_user_header(&mut copied, auth_response_headers, "x-forwarded-groups");
        self.push_user_header(&mut copied, auth_response_headers, "gap-auth");
        copied
    }

    fn ip_from_header(&self, headers: &[(&str, &str)], name: &str, forwarding_list: bool) -> (ip:
        Option<String>)
        ensures
            ip.deep_view() == ip_candidate(headers.deep_view(), name@, forwarding_list),
    {
        broadcast use group_string_axioms;

        match find_header(headers, name) {
            Some(value) => {
                let entry = if forwarding_list {
                    let chars = chars_of(value);
                    match find_char_in(&chars, ',', 0) {
                        Some(comma) => {
                            proof {
                                crate::text::lemma_find_char_from_is_first(value@, ',', 0);
                            }
                            value.substring_char(0, comma)
                        },
                        None => value,
                    }
                } else {
                    value
                };
                let ip = trim_str(entry);
                if !ip.is_empty() && self.is_valid_ip(ip) {
                    Some(ip.to_string())
                } else {
                    None
                }
            },
            None => None,
        }
    }

    /// The client's address as the request's headers give it.
    pub fn extract_client_ip(&self, headers: &[(&str, &str)]) -> (ip: Option<String>)
        ensures
            ip.deep_view() == client_ip(headers.deep_view()),
    {
        let real_ip = self.ip_from_header(headers, "x-real-ip", false);
        if real_ip.is_some() {
            return real_ip;
        }
        let forwarded_for = self.ip_from_header(headers, "x-forwarded-for", true);
        if forwarded_for.is_some() {
            return forwarded_for;
        }
        let client = self.ip_from_header(headers, "x-client-ip", false);
        if client.is_some() {
            return client;
        }
        let connecting = self.ip_from_header(headers, "cf-connecting-ip", false);
        if connecting.is_some() {
            return connecting;
        }
        self.ip_from_header(headers, "true-client-ip", false)
    }

    /// Whether `ip` looks like an address.
    pub fn is_valid_ip(&self, ip: &str) -> (ok: bool)
        ensures
            ok == plausible_ip(ip@),
    {
        let chars = chars_of(ip);
        let n: usize = chars.len();
        if n == 0 || n > MAX_IP_CHARS {
            return false;
        }
        let dots = chars_of("..");
        if find_in(&chars, &dots, 0).is_some() {
            return false;
        }
        if chars[0] == '.' || chars[n - 1] == '.' {
            return false;
        }
        true
    }
}

/// Access to the headers of the request in flight and of the auth response.
pub trait HeaderAccess {
    fn get_request_header(&self, name: &str) -> Option<String>;

    fn set_request_header(&mut self, name: &str, value: Option<&str>);

    fn get_response_header(&self, name: &str) -> Option<String>;
}

} // verus!
