use http::Uri;
use httpsling::client::client::Client;
use httpsling::headers::Headers;
use httpsling::Sling;
use httpsling::SlingBuilder;

#[test]
fn sling_test() {
    let result = SlingBuilder::new().build();
    assert_eq!(
        result,
        Sling {
            read_timeout_ms: 10,
            raw_url: "".to_string(),
            header: Headers::new(),
            body: Vec::new(),
            http_client: Client::default(),
        }
    );
}

#[test]
fn set_uri() {
    let url_value = String::from("rul");
    let sling = Sling::builder().set_uri(url_value.clone());
    assert_eq!(sling.raw_url, url_value)
}

#[test]
fn set_header() {
    let header_key = "accept";
    let header_value = "application/json";
    let sling = SlingBuilder::default().set_header(&header_key, &header_value);
    assert_eq!(sling.header.len(), 1);
}

#[test]
fn builder() {
    let sling = Sling::default();
    let sling_from_builder = SlingBuilder::new().set_read_timeout(0).build();
    assert_eq!(sling_from_builder, sling);
}

#[test]
fn url() {
    let url: Uri = "localhost:8888".parse().unwrap();
    let host = url.host().expect("invalid host provided");
    println!("uri:{:?}", host);
    assert_eq!(host, "localhost");
    let port = url.port().expect("invalid port supplied");
    println!("port:{:?}", port.as_str());
    assert_eq!(port.as_str(), "8888");
}
