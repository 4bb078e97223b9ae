use httpsling::client::client::Client;
use httpsling::headers::is_valid_header_name;
use httpsling::headers::is_valid_header_value;
use httpsling::request::HttpError;
use httpsling::Sling;
use httpsling::SlingBuilder;

#[test]
fn method_case_and_empty_path_normalized() {
    let client = Client::default();
    let result = client.build_http_req("get", "http://localhost:8888").unwrap();
    let want = "GET / HTTP/1.1\r\nHost: localhost:8888\r\nAccept: */*\r\n\r\n";
    assert_eq!(result, want);
}

#[test]
fn format_request_is_idempotent() {
    let client = Client::default();
    let first = client.build_http_req("GET", "http://localhost:8888/a?b=c");
    let second = client.build_http_req("GET", "http://localhost:8888/a?b=c");
    assert_eq!(first, second);
}

#[test]
fn query_is_kept_after_path() {
    let client = Client::default();
    let result = client.build_http_req("GET", "http://example.org:81/p?q=1").unwrap();
    let want = "GET /p?q=1 HTTP/1.1\r\nHost: example.org:81\r\nAccept: */*\r\n\r\n";
    assert_eq!(result, want);
}

#[test]
fn query_alone_gets_root_path() {
    let client = Client::default();
    let result = client.build_http_req("GET", "http://example.org:81?q=1").unwrap();
    let want = "GET /?q=1 HTTP/1.1\r\nHost: example.org:81\r\nAccept: */*\r\n\r\n";
    assert_eq!(result, want);
}

#[test]
fn scheme_less_authority_formats() {
    let client = Client::default();
    let result = client.build_http_req("GET", "localhost:8888").unwrap();
    let want = "GET / HTTP/1.1\r\nHost: localhost:8888\r\nAccept: */*\r\n\r\n";
    assert_eq!(result, want);
}

#[test]
fn empty_url_is_invalid() {
    let client = Client::default();
    let err = client.build_http_req("GET", "").unwrap_err();
    assert_eq!(err, HttpError::InvalidUrl);
    assert_eq!(err.message(), "invalid url supplied");
}

#[test]
fn url_without_host_is_rejected() {
    let client = Client::default();
    let err = client.build_http_req("GET", "/foo").unwrap_err();
    assert_eq!(err, HttpError::MissingHost);
    assert_eq!(err.message(), "invalid host provided");
}

#[test]
fn url_without_port_is_rejected() {
    let client = Client::default();
    let err = client.build_http_req("GET", "http://localhost/").unwrap_err();
    assert_eq!(err, HttpError::MissingPort);
    assert_eq!(err.message(), "invalid port supplied");
}

#[test]
fn bare_word_never_formats() {
    let client = Client::default();
    let err = client.build_http_req("GET", "home").unwrap_err();
    assert!(err == HttpError::MissingHost || err == HttpError::MissingPort);
}

#[test]
fn doubled_separator_is_deduplicated() {
    let mut client = Client::default();
    let addr = String::from("http://localhost:8080/");
    client.address(&addr);
    let result = client.http_req_from_path("GET", "/x").unwrap();
    let want = "GET /x HTTP/1.1\r\nHost: localhost:8080\r\nAccept: */*\r\n\r\n";
    assert_eq!(result, want);
}

#[test]
fn missing_separator_is_inserted() {
    let mut client = Client::default();
    let addr = String::from("http://localhost:8080");
    client.address(&addr);
    let result = client.http_req_from_path("GET", "x").unwrap();
    let want = "GET /x HTTP/1.1\r\nHost: localhost:8080\r\nAccept: */*\r\n\r\n";
    assert_eq!(result, want);
}

#[test]
fn empty_base_gives_error_not_panic() {
    let client = Client::default();
    let err = client.http_req_from_path("GET", "/").unwrap_err();
    assert_eq!(err, HttpError::MissingHost);
}

#[test]
fn connect_address_strips_scheme_prefix() {
    let mut client = Client::default();
    let addr = String::from("http://localhost:8888");
    client.address(&addr);
    assert_eq!(client.connect_address(), "localhost:8888");
}

#[test]
fn connect_address_passes_bare_address_through() {
    let mut client = Client::default();
    let addr = String::from("localhost:8888");
    client.address(&addr);
    assert_eq!(client.connect_address(), "localhost:8888");
}

#[test]
fn connect_address_strips_only_one_prefix() {
    let mut client = Client::default();
    let addr = String::from("http://http://x");
    client.address(&addr);
    assert_eq!(client.connect_address(), "http://x");
}

#[test]
fn header_names_are_case_insensitive() {
    let sling = SlingBuilder::default()
        .set_header("Accept", "text/plain")
        .set_header("ACCEPT", "application/json");
    assert_eq!(sling.header.len(), 1);
}

#[test]
fn distinct_header_names_accumulate() {
    let sling = SlingBuilder::default()
        .set_header("accept", "application/json")
        .set_header("content-type", "text/plain");
    assert_eq!(sling.header.len(), 2);
}

#[test]
fn header_name_validation() {
    assert!(is_valid_header_name("Content-Type"));
    assert!(!is_valid_header_name(""));
    assert!(!is_valid_header_name("bad name"));
    assert!(!is_valid_header_name("bad:name"));
}

#[test]
fn header_value_validation() {
    assert!(is_valid_header_value("application/json"));
    assert!(is_valid_header_value(""));
    assert!(is_valid_header_value("with space\tand tab"));
    assert!(!is_valid_header_value("line\nbreak"));
}

#[test]
fn set_body_stores_bytes() {
    let sling = SlingBuilder::default().set_body(vec![1u8, 2, 3]).build();
    assert_eq!(sling.body, vec![1u8, 2, 3]);
}

#[test]
fn getters_echo_configuration() {
    let sling = Sling::builder()
        .set_read_timeout(25)
        .set_uri(String::from("http://localhost:9000"))
        .build();
    assert_eq!(sling.raw_uri(), "http://localhost:9000");
    let client = sling.http_client();
    assert_eq!(client.get_address(), "http://localhost:9000");
    assert_eq!(client.read_timeout(), 25);
}

#[test]
fn sling_builds_requests_like_its_client() {
    let sling = Sling::builder().set_uri(String::from("http://localhost:8080")).build();
    let from_path = sling.build_request_with_path("GET", "/").unwrap();
    let from_url = sling.build_http_request("GET", "http://localhost:8080/").unwrap();
    assert_eq!(from_path, from_url);
}
