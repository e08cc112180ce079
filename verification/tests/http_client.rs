use auth_gateway::http_client::{HttpClient, USER_AGENT};

#[test]
fn test_parse_endpoint_https() {
    let client = HttpClient::new();
    let result = client.parse_endpoint("https://example.com:443");
    assert!(result.is_ok());
    let (scheme, host) = result.unwrap();
    assert_eq!(scheme, "https");
    // Calls are addressed to a cluster, so the port does not stay in the host.
    assert_eq!(host, "example.com");
    assert_ne!(host, "example.com:443");
}

#[test]
fn test_parse_endpoint_invalid() {
    let client = HttpClient::new();
    let result = client.parse_endpoint("invalid-url");
    assert!(result.is_err());
}

#[test]
fn test_extract_hostname() {
    let client = HttpClient::new();
    assert_eq!(
        client.extract_hostname("example.com:8080"),
        "example.com"
    );
    assert_eq!(
        client.extract_hostname("example.com"),
        "example.com"
    );
    assert_eq!(
        client.extract_hostname("[::1]:8080"),
        "[::1]"
    );
}

#[test]
fn test_validate_headers() {
    let client = HttpClient::new();
    let headers = vec![
        (":method", "GET"),
        (":path", "/auth"),
        (":authority", "example.com"),
        (":scheme", "https"),
    ];
    assert!(client.validate_headers(&headers).is_ok());
}

#[test]
fn parse_endpoint_strips_the_port() {
    let client = HttpClient::new();
    assert_eq!(
        client.parse_endpoint("https://auth.svc:4180"),
        Ok(("https".to_string(), "auth.svc".to_string()))
    );
    assert_eq!(
        client.parse_endpoint("http://auth.svc"),
        Ok(("http".to_string(), "auth.svc".to_string()))
    );
    // What follows the host's first colon is dropped, whatever it is.
    assert_eq!(
        client.parse_endpoint("https://auth.svc:4180/path:x"),
        Ok(("https".to_string(), "auth.svc".to_string()))
    );
    assert_eq!(
        client.parse_endpoint("https://auth.svc/verify"),
        Ok(("https".to_string(), "auth.svc/verify".to_string()))
    );
}

#[test]
fn parse_endpoint_errors() {
    let client = HttpClient::new();
    assert_eq!(
        client.parse_endpoint("invalid-url"),
        Err("Invalid endpoint format: must include scheme (https://)".to_string())
    );
    assert_eq!(client.parse_endpoint(""), client.parse_endpoint("invalid-url"));
    assert_eq!(client.parse_endpoint("ftp://x"), Err("Unsupported scheme: ftp".to_string()));
    assert_eq!(client.parse_endpoint("HTTPS://x"), Err("Unsupported scheme: HTTPS".to_string()));
    assert_eq!(client.parse_endpoint("://x"), Err("Unsupported scheme: ".to_string()));
    assert_eq!(client.parse_endpoint("https://"), Err("Host part cannot be empty".to_string()));
    assert_eq!(client.parse_endpoint("https://:4180"), Err("Host part cannot be empty".to_string()));
    // An IPv6 literal loses everything from its first colon on.
    assert_eq!(
        client.parse_endpoint("https://[::1]:8080"),
        Ok(("https".to_string(), "[".to_string()))
    );
}

#[test]
fn parse_endpoint_splits_at_the_first_separator() {
    let client = HttpClient::new();
    assert_eq!(
        client.parse_endpoint("http://a://b"),
        Ok(("http".to_string(), "a".to_string()))
    );
    assert_eq!(
        client.parse_endpoint("x:/y://z"),
        Err("Unsupported scheme: x:/y".to_string())
    );
}

#[test]
fn extract_hostname_needs_a_port_after_the_last_colon() {
    let client = HttpClient::new();
    assert_eq!(client.extract_hostname("auth.svc:4180"), "auth.svc");
    assert_eq!(client.extract_hostname("auth.svc"), "auth.svc");
    assert_eq!(client.extract_hostname("auth.svc:"), "auth.svc:");
    assert_eq!(client.extract_hostname("auth.svc:http"), "auth.svc:http");
    assert_eq!(client.extract_hostname("auth.svc:65535"), "auth.svc");
    assert_eq!(client.extract_hostname("auth.svc:65536"), "auth.svc:65536");
    assert_eq!(client.extract_hostname("auth.svc:+80"), "auth.svc");
    assert_eq!(client.extract_hostname("auth.svc:-80"), "auth.svc:-80");
    assert_eq!(client.extract_hostname("auth.svc:0080"), "auth.svc");
    assert_eq!(client.extract_hostname("[::1]"), "[::1]");
    // The text after the last colon of a bare IPv6 address may look like a port.
    assert_eq!(client.extract_hostname("::1"), ":");
    assert_eq!(client.extract_hostname("fe80::abcd"), "fe80::abcd");
    assert_eq!(client.extract_hostname(""), "");
    assert_eq!(client.extract_hostname(":80"), "");
}

#[test]
fn extract_hostname_agrees_with_std() {
    let client = HttpClient::new();
    for input in ["a:1", "a:b:2", "a:", ":", "a:99999", "a: 1", "a:1 ", "ä:12", "a:１２", "a:+", "a:1_0"] {
        let expected = match input.rfind(':') {
            Some(colon) if input[colon + 1..].parse::<u16>().is_ok() => input[..colon].to_string(),
            _ => input.to_string(),
        };
        assert_eq!(client.extract_hostname(input), expected, "input {:?}", input);
    }
}

#[test]
fn validate_headers_reports_the_first_problem() {
    let client = HttpClient::new();
    assert_eq!(client.validate_headers(&[]), Ok(()));
    assert_eq!(
        client.validate_headers(&[("", "x")]),
        Err("Header name cannot be empty".to_string())
    );
    assert_eq!(
        client.validate_headers(&[(":method", "DELETE")]),
        Err("Only GET and POST methods are supported".to_string())
    );
    assert_eq!(client.validate_headers(&[(":method", "POST")]), Ok(()));
    assert_eq!(
        client.validate_headers(&[(":scheme", "ftp")]),
        Err("Only HTTP and HTTPS schemes are supported".to_string())
    );
    assert_eq!(client.validate_headers(&[(":scheme", "http")]), Ok(()));
    assert_eq!(
        client.validate_headers(&[(":path", "auth")]),
        Err("Path must start with '/'".to_string())
    );
    assert_eq!(
        client.validate_headers(&[(":path", "")]),
        Err("Path must start with '/'".to_string())
    );
    assert_eq!(
        client.validate_headers(&[("x custom", "v")]),
        Err("Invalid header name: x custom".to_string())
    );
    assert_eq!(
        client.validate_headers(&[("x\tcustom", "v")]),
        Err("Invalid header name: x\tcustom".to_string())
    );
    assert_eq!(
        client.validate_headers(&[("x\u{a0}custom", "v")]),
        Err("Invalid header name: x\u{a0}custom".to_string())
    );
    assert_eq!(
        client.validate_headers(&[("x\ncustom", "v")]),
        Err("Invalid header name: x\ncustom".to_string())
    );
    assert_eq!(
        client.validate_headers(&[("cookie", "a\nb")]),
        Err("Invalid header value for cookie".to_string())
    );
    assert_eq!(client.validate_headers(&[("cookie", "a\tb")]), Ok(()));
    assert_eq!(
        client.validate_headers(&[(":path", "/\u{1}")]),
        Err("Invalid header value for :path".to_string())
    );
    assert_eq!(
        client.validate_headers(&[("ok", "fine"), ("bad name", "x"), ("", "y")]),
        Err("Invalid header name: bad name".to_string())
    );
}

#[test]
fn build_auth_headers_lists_the_pseudo_headers_and_the_agent() {
    let client = HttpClient::new();
    let headers = client.build_auth_headers("GET", "/auth", "auth.svc", "https");
    assert_eq!(
        headers,
        vec![
            (":method", "GET".to_string()),
            (":path", "/auth".to_string()),
            (":authority", "auth.svc".to_string()),
            (":scheme", "https".to_string()),
            ("user-agent", "BYOIDC-WASM-Plugin/1.0".to_string()),
        ]
    );
    assert_eq!(USER_AGENT, "BYOIDC-WASM-Plugin/1.0");
}
