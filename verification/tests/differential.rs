//! The library's answers on many generated inputs, held against the same
//! rules written with the standard library's string functions.

use auth_gateway::headers::HeaderProcessor;
use auth_gateway::http_client::HttpClient;
use auth_gateway::metrics::MetricsCollector;
use auth_gateway::responses::ResponseHandler;
use auth_gateway::text::{chars_of, find_in, parse_u16_str, trim_str};

const ALPHABET: [char; 24] = [
    ' ', '\t', '\n', '\u{a0}', 'a', 'b', 'A', 'Z', 'é', 'İ', ':', '/', ',', '.', '=', '+', '-', '0',
    '6', '9', '[', ']', '\u{7f}', 'x',
];

struct Generator(u64);

impl Generator {
    fn next(&mut self) -> u64 {
        self.0 = self.0.wrapping_mul(6364136223846793005).wrapping_add(1442695040888963407);
        self.0 >> 33
    }

    fn text(&mut self, max_len: u64) -> String {
        let len = self.next() % (max_len + 1);
        (0..len).map(|_| ALPHABET[(self.next() % ALPHABET.len() as u64) as usize]).collect()
    }

    fn pick(&mut self, choices: &[&str]) -> String {
        choices[(self.next() % choices.len() as u64) as usize].to_string()
    }
}

#[test]
fn trimming_and_searching_on_generated_text() {
    let mut generator = Generator(1);
    for _ in 0..3000 {
        let text = generator.text(12);
        assert_eq!(trim_str(&text), text.trim(), "{:?}", text);

        let pattern = generator.text(3);
        let expected = text.find(&pattern).map(|byte| text[..byte].chars().count());
        assert_eq!(
            find_in(&chars_of(&text), &chars_of(&pattern), 0),
            expected,
            "{:?} {:?}",
            text,
            pattern
        );
    }
}

#[test]
fn number_parsing_on_generated_text() {
    let mut generator = Generator(2);
    let digits = ['0', '1', '5', '6', '9', '+', '-', ' ', 'a'];
    for _ in 0..5000 {
        let len = generator.next() % 8;
        let text: String =
            (0..len).map(|_| digits[(generator.next() % digits.len() as u64) as usize]).collect();
        assert_eq!(parse_u16_str(&text), text.parse::<u16>().ok(), "{:?}", text);
    }
}

#[test]
fn header_names_on_generated_text() {
    let processor = HeaderProcessor::new();
    let blocked = [
        "connection",
        "upgrade",
        "proxy-connection",
        "proxy-authenticate",
        "proxy-authorization",
        "te",
        "trailers",
        "transfer-encoding",
    ];
    let mut generator = Generator(3);
    for round in 0..3000 {
        let name = if round % 3 == 0 {
            format!("{}{}{}", generator.text(2), generator.pick(&blocked).to_uppercase(), generator.text(2))
        } else {
            generator.text(8)
        };
        let cleaned = name.to_lowercase().trim().to_string();
        let expected = if cleaned.is_empty()
            || cleaned.starts_with(':')
            || blocked.contains(&cleaned.as_str())
        {
            None
        } else {
            Some(cleaned)
        };
        assert_eq!(processor.sanitize_header_name(&name), expected, "{:?}", name);
    }
}

#[test]
fn header_values_on_generated_text() {
    let processor = HeaderProcessor::new();
    let mut generator = Generator(4);
    for _ in 0..3000 {
        let value = generator.text(10);
        let expected = !value.chars().any(|c| c.is_control() && c != '\t') && value.len() <= 8192;
        assert_eq!(processor.validate_header_value(&value), expected, "{:?}", value);
    }
}

fn plausible(ip: &str) -> bool {
    !(ip.is_empty()
        || ip.chars().count() > 45
        || ip.contains("..")
        || ip.starts_with('.')
        || ip.ends_with('.'))
}

fn expected_client_ip(headers: &[(&str, &str)]) -> Option<String> {
    for name in ["x-real-ip", "x-forwarded-for", "x-client-ip", "cf-connecting-ip", "true-client-ip"] {
        if let Some((_, value)) = headers.iter().find(|(n, _)| n.eq_ignore_ascii_case(name)) {
            let candidate = if name == "x-forwarded-for" {
                value.split(',').next().unwrap_or("")
            } else {
                value
            };
            let ip = candidate.trim();
            if !ip.is_empty() && plausible(ip) {
                return Some(ip.to_string());
            }
        }
    }
    None
}

fn expected_user_headers(headers: &[(&str, &str)]) -> Vec<(String, String)> {
    let mut copied = Vec::new();
    for name in
        ["x-forwarded-user", "x-forwarded-email", "x-forwarded-access-token", "x-forwarded-groups", "gap-auth"]
    {
        if let Some((_, value)) = headers.iter().find(|(n, _)| n.eq_ignore_ascii_case(name)) {
            if !value.chars().any(|c| c.is_control() && c != '\t') && value.len() <= 8192 {
                copied.push((name.to_string(), value.to_string()));
            }
        }
    }
    copied
}

#[test]
fn header_lists_on_generated_text() {
    let processor = HeaderProcessor::new();
    let handler = ResponseHandler::new();
    let names = [
        "x-real-ip",
        "X-Real-IP",
        "x-forwarded-for",
        "X-Forwarded-For",
        "x-client-ip",
        "cf-connecting-ip",
        "true-client-ip",
        "x-forwarded-user",
        "X-Forwarded-Email",
        "x-forwarded-access-token",
        "x-forwarded-groups",
        "Gap-Auth",
        "location",
        "Location",
        "cookie",
    ];
    let values = ["1.2.3.4", " 10.0.0.1 , 10.0.0.2", ".1", "1..2", "", "  ", "/login", "https://x/", "a\nb", "a\tb", "::1", ",x"];
    let mut generator = Generator(5);
    for _ in 0..3000 {
        let count = generator.next() % 5;
        let owned: Vec<(String, String)> = (0..count)
            .map(|_| {
                let value = if generator.next() % 4 == 0 {
                    generator.text(6)
                } else {
                    generator.pick(&values)
                };
                (generator.pick(&names), value)
            })
            .collect();
        let headers: Vec<(&str, &str)> =
            owned.iter().map(|(n, v)| (n.as_str(), v.as_str())).collect();

        assert_eq!(processor.extract_client_ip(&headers), expected_client_ip(&headers), "{:?}", headers);
        assert_eq!(processor.build_user_headers(&headers), expected_user_headers(&headers), "{:?}", headers);

        let expected_redirect = headers
            .iter()
            .find(|(n, v)| {
                n.eq_ignore_ascii_case("location") && !v.is_empty() && v.len() <= 2048 && v.starts_with('/')
            })
            .map(|(_, v)| v.to_string());
        assert_eq!(handler.extract_redirect_url(&headers), expected_redirect, "{:?}", headers);
    }
}

fn expected_endpoint(endpoint: &str) -> Result<(String, String), String> {
    match endpoint.find("://") {
        Some(pos) => {
            let scheme = &endpoint[..pos];
            let host_part = &endpoint[pos + 3..];
            if scheme != "https" && scheme != "http" {
                return Err(format!("Unsupported scheme: {}", scheme));
            }
            let host = match host_part.find(':') {
                Some(colon) => &host_part[..colon],
                None => host_part,
            };
            if host.is_empty() {
                return Err("Host part cannot be empty".to_string());
            }
            Ok((scheme.to_string(), host.to_string()))
        }
        None => Err("Invalid endpoint format: must include scheme (https://)".to_string()),
    }
}

#[test]
fn endpoints_on_generated_text() {
    let client = HttpClient::new();
    let pieces = ["https", "http", "ftp", "://", ":", "/", "auth.svc", "é", "4180", "[::1]", "", " "];
    let mut generator = Generator(6);
    for _ in 0..5000 {
        let count = generator.next() % 6;
        let endpoint: String = (0..count).map(|_| generator.pick(&pieces)).collect();
        assert_eq!(client.parse_endpoint(&endpoint), expected_endpoint(&endpoint), "{:?}", endpoint);

        let expected_host = match endpoint.rfind(':') {
            Some(colon) if endpoint[colon + 1..].parse::<u16>().is_ok() => endpoint[..colon].to_string(),
            _ => endpoint.clone(),
        };
        assert_eq!(client.extract_hostname(&endpoint), expected_host, "{:?}", endpoint);
    }
}

fn expected_header_check(headers: &[(&str, &str)]) -> Result<(), String> {
    for (name, value) in headers {
        if name.is_empty() {
            return Err("Header name cannot be empty".to_string());
        }
        match *name {
            ":method" => {
                if *value != "GET" && *value != "POST" {
                    return Err("Only GET and POST methods are supported".to_string());
                }
            }
            ":scheme" => {
                if *value != "https" && *value != "http" {
                    return Err("Only HTTP and HTTPS schemes are supported".to_string());
                }
            }
            ":path" => {
                if !value.starts_with('/') {
                    return Err("Path must start with '/'".to_string());
                }
            }
            _ => {
                if name.chars().any(char::is_whitespace) {
                    return Err(format!("Invalid header name: {}", name));
                }
            }
        }
        if value.chars().any(|c| c.is_control() && c != '\t') {
            return Err(format!("Invalid header value for {}", name));
        }
    }
    Ok(())
}

#[test]
fn outbound_headers_on_generated_text() {
    let client = HttpClient::new();
    let names = [":method", ":scheme", ":path", ":authority", "cookie", "x y", "", "x\ty", "é"];
    let values = ["GET", "POST", "PUT", "https", "http", "/", "/auth", "auth", "", "a\nb", "a\tb"];
    let mut generator = Generator(7);
    for _ in 0..5000 {
        let count = generator.next() % 5;
        let owned: Vec<(String, String)> =
            (0..count).map(|_| (generator.pick(&names), generator.pick(&values))).collect();
        let headers: Vec<(&str, &str)> =
            owned.iter().map(|(n, v)| (n.as_str(), v.as_str())).collect();
        assert_eq!(client.validate_headers(&headers), expected_header_check(&headers), "{:?}", headers);
    }
}

#[test]
fn counters_on_generated_events() {
    let names = ["requests", "errors", "reloads"];
    let labels = ["status", "type", "route"];
    let values = ["202", "401", "api", ""];
    let mut generator = Generator(8);
    let mut collector = MetricsCollector::new();
    let mut expected: Vec<(String, u64)> = Vec::new();
    for _ in 0..2000 {
        let name = generator.pick(&names);
        let count = generator.next() % 3;
        let owned: Vec<(String, String)> =
            (0..count).map(|_| (generator.pick(&labels), generator.pick(&values))).collect();
        let borrowed: Vec<(&str, &str)> =
            owned.iter().map(|(n, v)| (n.as_str(), v.as_str())).collect();
        collector.increment_counter(&name, &borrowed);

        let key = if owned.is_empty() {
            name.clone()
        } else {
            let joined: Vec<String> = owned.iter().map(|(n, v)| format!("{}={}", n, v)).collect();
            format!("{}:{}", name, joined.join(","))
        };
        assert_eq!(collector.build_metric_key(&name, &borrowed), key);
        match expected.iter_mut().find(|(k, _)| *k == key) {
            Some((_, count)) => *count += 1,
            None => expected.push((key, 1)),
        }
        let (_, count) = expected.iter().find(|(k, _)| *k == collector.build_metric_key(&name, &borrowed)).unwrap();
        assert_eq!(collector.get_counter(&name, &borrowed), *count);
    }
    assert_eq!(collector.recorded(), 2000);
    for name in names {
        let total: u64 = expected
            .iter()
            .filter(|(k, _)| k.split(':').next().unwrap() == name)
            .map(|(_, count)| *count)
            .sum();
        assert_eq!(collector.total(name), total);
    }

    let mut exposition = String::new();
    let mut seen: Vec<&str> = Vec::new();
    for (key, _) in &expected {
        let name = key.split(':').next().unwrap();
        if seen.contains(&name) {
            continue;
        }
        seen.push(name);
        exposition.push_str(&format!("# HELP {} BYOIDC WASM Plugin metric\n", name));
        exposition.push_str(&format!("# TYPE {} counter\n", name));
        for (other, count) in expected.iter().filter(|(k, _)| k.split(':').next().unwrap() == name) {
            match other.find(':') {
                Some(colon) if colon + 1 < other.len() => {
                    let shown: Vec<String> = other[colon + 1..]
                        .split(',')
                        .map(|label| match label.find('=') {
                            Some(eq) => format!("{}=\"{}\"", &label[..eq], &label[eq + 1..]),
                            None => format!("label=\"{}\"", label),
                        })
                        .collect();
                    exposition.push_str(&format!("{}{{{}}} {}\n", name, shown.join(","), count));
                }
                _ => exposition.push_str(&format!("{} {}\n", name, count)),
            }
        }
        exposition.push('\n');
    }
    assert_eq!(collector.export_prometheus_format(), exposition);
}
