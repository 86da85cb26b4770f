use httpclient::headers::Header;
use httpclient::attempt::jurisdiction_url;
use httpclient::attempt::attempt_timestamp;
use httpclient::attempt::BaseUrl;
use httpclient::request::Progress;
use httpclient::signing::UnsignedRequest;
use httpclient::signing::CONTENT_TYPE;
use httpclient::request::HTTP_URL;
use httpclient::request::HTTP_URL_CN;
use httpclient::signing::REQUEST_TIMEOUT_SECS;
use httpclient::signing::USER_AGENT;
use httpclient::HttpClient;
use httpclient::HttpClientConfig;
use httpclient::HttpClientError;
use httpclient::Json;
use httpclient::Method;
use httpclient::ToPayload;
use reqwest::header::HeaderMap;
use reqwest::header::HeaderName;
use reqwest::header::HeaderValue;

const BASE: &str = "https://openapi.example.com";
const TS: &str = "1700000000.000";

fn config() -> HttpClientConfig {
    HttpClientConfig {
        app_key: "key-1".to_string(),
        app_secret: "secret-1".to_string(),
        access_token: "token-1".to_string(),
        http_url: None,
    }
}

fn client() -> HttpClient {
    HttpClient::new(config(), HeaderMap::new())
}

fn client_with_defaults(pairs: &[(&str, &str)]) -> HttpClient {
    let mut defaults = HeaderMap::new();
    for (name, value) in pairs {
        defaults.append(HeaderName::from_bytes(name.as_bytes()).unwrap(), HeaderValue::from_str(value).unwrap());
    }
    HttpClient::new(config(), defaults)
}

/// The values that a header list gives for a name, in list order.
fn values(headers: &[Header], name: &str) -> Vec<Vec<u8>> {
    headers.iter().filter(|h| h.name == name).map(|h| h.value.clone()).collect()
}

fn one(value: &str) -> Vec<Vec<u8>> {
    vec![value.as_bytes().to_vec()]
}

fn prepared(result: Result<Option<UnsignedRequest>, HttpClientError>) -> UnsignedRequest {
    result.expect("no error").expect("a request")
}

/// A body whose encoding always fails.
#[derive(Debug)]
struct Unencodable;

impl ToPayload for Unencodable {
    fn to_bytes(&self) -> Result<Vec<u8>, String> {
        Err("cannot encode".to_string())
    }
}

#[test]
fn constants_of_the_protocol() {
    assert_eq!(HTTP_URL, "https://openapi.longportapp.com");
    assert_eq!(HTTP_URL_CN, "https://openapi.longportapp.cn");
    assert_eq!(USER_AGENT, "openapi-sdk");
    assert_eq!(CONTENT_TYPE, "application/json; charset=utf-8");
    assert_eq!(REQUEST_TIMEOUT_SECS, 30);
}

#[test]
fn method_is_carried_through() {
    let client = client();
    let extension = Method::from_bytes(b"PURGE").unwrap();
    let unsigned = prepared(client.request(extension.clone(), "/v1/cache").prepare(TS, BASE, None));
    assert_eq!(unsigned.signing.method, extension);
    assert_eq!(unsigned.sign("s").expect("a signed request").method, extension);
}

#[test]
fn new_request_has_only_the_fixed_headers() {
    let client = client();
    let request = prepared(client.request(Method::GET, "/v1/ping").prepare(TS, BASE, None));
    assert_eq!(request.headers.len(), 5);
    assert_eq!(request.signing.method, Method::GET);
    assert_eq!(request.signing.url, "https://openapi.example.com/v1/ping");
    assert_eq!(request.signing.body, None);
    assert_eq!(request.signing.app_key, "key-1");
    assert_eq!(request.signing.access_token, "token-1");
    assert_eq!(request.signing.app_secret, "secret-1");
    assert_eq!(request.signing.timestamp, TS);
}

#[test]
fn fixed_headers_carry_their_values() {
    let client = client();
    let request = prepared(client.request(Method::GET, "/v1/ping").prepare(TS, BASE, None));
    assert_eq!(values(&request.headers, "user-agent"), one("openapi-sdk"));
    assert_eq!(values(&request.headers, "x-api-key"), one("key-1"));
    assert_eq!(values(&request.headers, "authorization"), one("token-1"));
    assert_eq!(values(&request.headers, "x-timestamp"), one(TS));
    assert_eq!(values(&request.headers, "content-type"), one("application/json; charset=utf-8"));
    assert!(values(&request.headers, "x-api-signature").is_empty());
}

#[test]
fn header_is_transmitted_under_its_lower_case_name() {
    let client = client();
    let request = prepared(client.request(Method::GET, "/v1/ping").header("X-Custom", "Value 1").prepare(TS, BASE, None));
    assert_eq!(values(&request.headers, "x-custom"), one("Value 1"));
    assert!(values(&request.headers, "X-Custom").is_empty());
    assert_eq!(request.headers.len(), 6);
}

#[test]
fn invalid_header_name_changes_nothing() {
    let client = client();
    let request = prepared(
        client
            .request(Method::GET, "/v1/ping")
            .header("x-first", "1")
            .header("bad name", "2")
            .header("", "3")
            .header("x-sec\u{e9}nd", "4")
            .header("x:third", "5")
            .prepare(TS, BASE, None),
    );
    assert_eq!(values(&request.headers, "x-first"), one("1"));
    assert_eq!(request.headers.len(), 6);
}

#[test]
fn invalid_header_value_changes_nothing() {
    let client = client();
    let request = prepared(
        client
            .request(Method::GET, "/v1/ping")
            .header("x-first", "1")
            .header("x-first", "line\nbreak")
            .header("x-second", "nul\u{0}")
            .header("x-third", "del\u{7f}")
            .prepare(TS, BASE, None),
    );
    assert_eq!(values(&request.headers, "x-first"), one("1"));
    assert!(values(&request.headers, "x-second").is_empty());
    assert!(values(&request.headers, "x-third").is_empty());
    assert_eq!(request.headers.len(), 6);
}

#[test]
fn header_value_may_hold_tab_and_non_ascii() {
    let client = client();
    let request = prepared(
        client.request(Method::GET, "/v1/ping").header("x-tab", "a\tb").header("x-name", "caf\u{e9}").prepare(TS, BASE, None),
    );
    assert_eq!(values(&request.headers, "x-tab"), one("a\tb"));
    assert_eq!(values(&request.headers, "x-name"), vec![vec![0x63, 0x61, 0x66, 0xc3, 0xa9]]);
}

#[test]
fn longest_header_name_is_accepted() {
    let client = client();
    let longest = "a".repeat(65535);
    let too_long = "a".repeat(65536);
    let request = prepared(
        client.request(Method::GET, "/v1/ping").header(&longest, "1").header(&too_long, "2").prepare(TS, BASE, None),
    );
    assert_eq!(values(&request.headers, &longest), one("1"));
    assert!(values(&request.headers, &too_long).is_empty());
}

#[test]
fn every_token_character_is_accepted_in_a_name() {
    let client = client();
    let name = "!#$%&'*+-.^_`|~0123456789abcdefghijklmnopqrstuvwxyz";
    let request = prepared(client.request(Method::GET, "/v1/ping").header(name, "1").prepare(TS, BASE, None));
    assert_eq!(values(&request.headers, name), one("1"));
}

#[test]
fn resetting_a_header_keeps_the_newest_value() {
    let client = client();
    let request = prepared(
        client
            .request(Method::GET, "/v1/ping")
            .header("x-custom", "old")
            .header("x-other", "kept")
            .header("X-CUSTOM", "new")
            .prepare(TS, BASE, None),
    );
    assert_eq!(values(&request.headers, "x-custom"), one("new"));
    assert_eq!(values(&request.headers, "x-other"), one("kept"));
    assert_eq!(request.headers.len(), 7);
}

#[test]
fn fixed_headers_override_request_headers() {
    let client = client();
    let request = prepared(
        client
            .request(Method::POST, "/v1/order")
            .header("User-Agent", "mine")
            .header("X-Api-Key", "stolen")
            .header("Authorization", "forged")
            .header("X-Timestamp", "1.000")
            .header("Content-Type", "text/plain")
            .prepare(TS, BASE, None),
    );
    assert_eq!(values(&request.headers, "user-agent"), one("openapi-sdk"));
    assert_eq!(values(&request.headers, "x-api-key"), one("key-1"));
    assert_eq!(values(&request.headers, "authorization"), one("token-1"));
    assert_eq!(values(&request.headers, "x-timestamp"), one(TS));
    assert_eq!(values(&request.headers, "content-type"), one("application/json; charset=utf-8"));
    assert_eq!(request.headers.len(), 5);
}

#[test]
fn fixed_headers_override_default_headers() {
    let client = client_with_defaults(&[("user-agent", "default-agent"), ("user-agent", "second"), ("content-type", "text/html")]);
    let request = prepared(client.request(Method::GET, "/v1/ping").prepare(TS, BASE, None));
    assert_eq!(values(&request.headers, "user-agent"), one("openapi-sdk"));
    assert_eq!(values(&request.headers, "content-type"), one("application/json; charset=utf-8"));
    assert_eq!(request.headers.len(), 5);
}

#[test]
fn request_headers_override_default_headers() {
    let client = client_with_defaults(&[("accept-language", "en"), ("accept-language", "fr"), ("x-region", "hk")]);
    let request = prepared(client.request(Method::GET, "/v1/ping").header("Accept-Language", "zh").prepare(TS, BASE, None));
    assert_eq!(values(&request.headers, "accept-language"), one("zh"));
    assert_eq!(values(&request.headers, "x-region"), one("hk"));
    assert_eq!(request.headers.len(), 7);
}

#[test]
fn default_headers_keep_all_their_values() {
    let client = client_with_defaults(&[("accept-language", "en"), ("x-region", "hk"), ("accept-language", "fr")]);
    let request = prepared(client.request(Method::GET, "/v1/ping").prepare(TS, BASE, None));
    assert_eq!(values(&request.headers, "accept-language"), vec![b"en".to_vec(), b"fr".to_vec()]);
    assert_eq!(values(&request.headers, "x-region"), one("hk"));
    assert_eq!(request.headers.len(), 8);
}

#[test]
fn preset_timestamp_is_read_from_the_header() {
    let client = client();
    assert_eq!(client.request(Method::GET, "/v1/ping").preset_timestamp(), None);
    assert_eq!(
        client.request(Method::GET, "/v1/ping").header("x-timestamp", "1700000000.123").preset_timestamp(),
        Some("1700000000.123".to_string())
    );
    assert_eq!(
        client.request(Method::GET, "/v1/ping").header("X-TIMESTAMP", "soon").header("x-other", "1").preset_timestamp(),
        Some("soon".to_string())
    );
}

#[test]
fn preset_timestamp_that_is_not_visible_ascii_is_not_read() {
    let client = client();
    assert_eq!(client.request(Method::GET, "/v1/ping").header("x-timestamp", "17\u{e9}").preset_timestamp(), None);
}

#[test]
fn attempt_timestamp_prefers_the_preset() {
    assert_eq!(attempt_timestamp(Some("1.000".to_string()), "2.000".to_string()), "1.000");
    assert_eq!(attempt_timestamp(None, "2.000".to_string()), "2.000");
}

#[test]
fn configured_base_url_is_used_without_asking() {
    let mut config = config();
    config.http_url = Some("https://gateway.example.com".to_string());
    let client = HttpClient::new(config, HeaderMap::new());
    match client.request(Method::GET, "/v1/ping").http_url() {
        BaseUrl::Configured(url) => assert_eq!(url, "https://gateway.example.com"),
        BaseUrl::ByJurisdiction => panic!("the jurisdiction was asked for"),
    }
}

#[test]
fn base_url_goes_by_jurisdiction_without_configuration() {
    let client = client();
    assert!(matches!(client.request(Method::GET, "/v1/ping").http_url(), BaseUrl::ByJurisdiction));
    assert_eq!(jurisdiction_url(true), "https://openapi.longportapp.cn");
    assert_eq!(jurisdiction_url(false), "https://openapi.longportapp.com");
}

#[test]
fn invalid_api_key_is_refused() {
    let mut config = config();
    config.app_key = "key\n1".to_string();
    let client = HttpClient::new(config, HeaderMap::new());
    let builder = client.request(Method::GET, "/v1/ping");
    assert_eq!(builder.check_credentials(), Err(HttpClientError::InvalidApiKey));
    assert!(matches!(builder.prepare(TS, BASE, None), Err(HttpClientError::InvalidApiKey)));
}

#[test]
fn invalid_access_token_is_refused() {
    let mut config = config();
    config.access_token = "token\r\n".to_string();
    let client = HttpClient::new(config, HeaderMap::new());
    let builder = client.request(Method::GET, "/v1/ping");
    assert_eq!(builder.check_credentials(), Err(HttpClientError::InvalidAccessToken));
    assert!(matches!(builder.prepare(TS, BASE, None), Err(HttpClientError::InvalidAccessToken)));
}

#[test]
fn invalid_api_key_comes_before_invalid_access_token() {
    let mut config = config();
    config.app_key = "\u{1}".to_string();
    config.access_token = "\u{2}".to_string();
    let client = HttpClient::new(config, HeaderMap::new());
    let builder = client.request(Method::GET, "/v1/ping").body(Unencodable);
    assert_eq!(builder.check_credentials(), Err(HttpClientError::InvalidApiKey));
    assert!(matches!(builder.prepare(TS, "not a url", None), Err(HttpClientError::InvalidApiKey)));
}

#[test]
fn valid_credentials_pass() {
    let client = client();
    assert_eq!(client.request(Method::GET, "/v1/ping").check_credentials(), Ok(()));
}

#[test]
fn body_that_cannot_be_encoded_is_a_serialize_error() {
    let client = client();
    let result = client.request(Method::POST, "/v1/order").body(Unencodable).prepare(TS, BASE, None);
    assert!(matches!(result, Err(HttpClientError::SerializeRequestBody(message)) if message == "cannot encode"));
}

#[test]
fn serialize_error_comes_before_an_invalid_address() {
    let client = client();
    let result = client.request(Method::POST, "/v1/order").body(Unencodable).prepare(TS, "not a url", None);
    assert!(matches!(result, Err(HttpClientError::SerializeRequestBody(_))));
}

#[test]
fn string_body_is_signed_as_its_bytes() {
    let client = client();
    let request = prepared(client.request(Method::POST, "/v1/order").body("{\"qty\":1}".to_string()).prepare(TS, BASE, None));
    assert_eq!(request.signing.body, Some(b"{\"qty\":1}".to_vec()));
    assert_eq!(request.signing.method, Method::POST);
}

#[test]
fn unit_body_is_an_empty_body() {
    let client = client();
    let request = prepared(client.request(Method::POST, "/v1/order").body(()).prepare(TS, BASE, None));
    assert_eq!(request.signing.body, Some(Vec::new()));
}

#[test]
fn json_body_is_signed_as_its_text() {
    let client = client();
    let body = Json(serde_json::Value::from(vec![1, 2, 3]));
    let request = prepared(client.request(Method::POST, "/v1/order").body(body).prepare(TS, BASE, None));
    assert_eq!(request.signing.body, Some(b"[1,2,3]".to_vec()));
}

#[test]
fn later_body_replaces_the_earlier() {
    let client = client();
    let request = prepared(
        client.request(Method::POST, "/v1/order").body(Unencodable).body("second".to_string()).prepare(TS, BASE, None),
    );
    assert_eq!(request.signing.body, Some(b"second".to_vec()));
}

#[test]
fn prepare_encoded_takes_the_encoding_as_given() {
    let client = client();
    let builder = client.request(Method::POST, "/v1/order");
    let request = prepared(builder.prepare_encoded(TS, BASE, None, Some(Ok(vec![1, 2, 3]))));
    assert_eq!(request.signing.body, Some(vec![1, 2, 3]));
    let failed = builder.prepare_encoded(TS, BASE, None, Some(Err("broken".to_string())));
    assert!(matches!(failed, Err(HttpClientError::SerializeRequestBody(message)) if message == "broken"));
    let none = prepared(builder.prepare_encoded(TS, BASE, None, None));
    assert_eq!(none.signing.body, None);
}

#[test]
fn query_is_attached_to_the_address() {
    let client = client();
    let request = prepared(
        client.request(Method::GET, "/v1/quote").query_params(("symbol", "700.HK")).prepare(TS, BASE, Some("symbol=700.HK&count=10")),
    );
    assert_eq!(request.signing.url, "https://openapi.example.com/v1/quote?symbol=700.HK&count=10");
}

#[test]
fn query_is_not_attached_without_query_parameters() {
    let client = client();
    let request = prepared(client.request(Method::GET, "/v1/quote").prepare(TS, BASE, Some("symbol=700.HK")));
    assert_eq!(request.signing.url, "https://openapi.example.com/v1/quote");
    let request = prepared(client.request(Method::GET, "/v1/quote").query_params(()).prepare(TS, BASE, None));
    assert_eq!(request.signing.url, "https://openapi.example.com/v1/quote");
}

#[test]
fn later_query_parameters_replace_the_earlier() {
    let client = client();
    let builder = client.request(Method::GET, "/v1/quote").query_params("first").query_params(vec![2u8]);
    assert_eq!(builder.query_ref(), Some(&vec![2u8]));
}

#[test]
fn address_that_is_no_url_leaves_no_request() {
    let client = client();
    assert!(matches!(client.request(Method::GET, "/v1/ping").prepare(TS, "not a url", None), Ok(None)));
    assert!(matches!(client.request(Method::GET, "/v1/ping").prepare(TS, "", Some("a=1")), Ok(None)));
}

#[test]
fn timestamp_that_is_no_header_value_leaves_no_request() {
    let client = client();
    assert!(matches!(client.request(Method::GET, "/v1/ping").prepare("17\n00", BASE, None), Ok(None)));
}

#[test]
fn response_type_changes_nothing_of_the_request() {
    let client = client();
    let request = prepared(
        client
            .request(Method::PUT, "/v1/watchlist")
            .header("x-custom", "1")
            .body("body".to_string())
            .query_params(vec![("a", 1)])
            .response::<String>()
            .prepare(TS, BASE, Some("a=1")),
    );
    assert_eq!(request.signing.method, Method::PUT);
    assert_eq!(request.signing.url, "https://openapi.example.com/v1/watchlist?a=1");
    assert_eq!(request.signing.body, Some(b"body".to_vec()));
    assert_eq!(values(&request.headers, "x-custom"), one("1"));
}

#[test]
fn signature_is_attached_as_a_header() {
    let client = client();
    let unsigned = prepared(client.request(Method::POST, "/v1/order").body("{}".to_string()).query_params(("a", 1)).prepare(TS, BASE, Some("a=1")));
    let signed = unsigned.sign("HMAC-SHA256 SignedHeaders=authorization;x-api-key;x-timestamp, Signature=abc").expect("a signed request");
    assert_eq!(
        values(&signed.headers, "x-api-signature"),
        one("HMAC-SHA256 SignedHeaders=authorization;x-api-key;x-timestamp, Signature=abc")
    );
    assert_eq!(signed.headers.len(), 6);
    assert_eq!(signed.method, Method::POST);
    assert_eq!(signed.url, "https://openapi.example.com/v1/order?a=1");
    assert_eq!(signed.body, Some(b"{}".to_vec()));
    assert_eq!(signed.timeout_secs, 30);
    assert_eq!(values(&signed.headers, "user-agent"), one("openapi-sdk"));
    assert_eq!(values(&signed.headers, "x-timestamp"), one(TS));
}

#[test]
fn signature_overrides_a_signature_header_of_the_request() {
    let client = client();
    let unsigned = prepared(client.request(Method::GET, "/v1/ping").header("X-Api-Signature", "forged").prepare(TS, BASE, None));
    assert_eq!(values(&unsigned.headers, "x-api-signature"), one("forged"));
    let signed = unsigned.sign("genuine").expect("a signed request");
    assert_eq!(values(&signed.headers, "x-api-signature"), one("genuine"));
    assert_eq!(signed.headers.len(), 6);
}

#[test]
fn signature_that_is_no_header_value_leaves_no_request() {
    let client = client();
    let unsigned = prepared(client.request(Method::GET, "/v1/ping").prepare(TS, BASE, None));
    assert!(unsigned.sign("bad\nsignature").is_none());
}

#[test]
fn send_keeps_the_request_and_starts_without_retries() {
    let client = client();
    let sending = client.request(Method::GET, "/v1/ping").header("x-custom", "1").response::<String>().send();
    assert_eq!(sending.retries_made(), 0);
    let request = prepared(sending.request().prepare(TS, BASE, None));
    assert_eq!(values(&request.headers, "x-custom"), one("1"));
    assert_eq!(request.signing.url, "https://openapi.example.com/v1/ping");
}

#[test]
fn retry_keeps_the_request() {
    let client = client();
    let sending = client.request(Method::POST, "/v1/order").header("x-custom", "1").body("b".to_string()).response::<String>().send();
    match sending.judge(Err(HttpClientError::BadStatus(429))) {
        Progress::RetryAfter { delay_ms, sending } => {
            assert_eq!(delay_ms, 100);
            assert_eq!(sending.retries_made(), 1);
            let request = prepared(sending.request().prepare(TS, BASE, None));
            assert_eq!(values(&request.headers, "x-custom"), one("1"));
            assert_eq!(request.signing.body, Some(b"b".to_vec()));
            assert_eq!(request.signing.method, Method::POST);
        }
        Progress::Done(_) => panic!("the send ended on a rate limit"),
    }
}

#[test]
fn getters_give_what_the_builder_took() {
    let client = client();
    let builder = client.request(Method::DELETE, "/v1/watchlist/7").header("x-custom", "1").body("b".to_string()).query_params(vec![("id", 7)]);
    assert_eq!(builder.method(), &Method::DELETE);
    assert_eq!(builder.path(), "/v1/watchlist/7");
    assert_eq!(builder.headers().get("X-Custom").map(|value| value.as_bytes()), Some(&b"1"[..]));
    assert_eq!(builder.headers().len(), 1);
    assert_eq!(builder.body_ref(), Some(&"b".to_string()));
    assert_eq!(builder.query_ref(), Some(&vec![("id", 7)]));
    assert_eq!(builder.client().config.app_key, "key-1");
    let bare = client.request(Method::GET, "/v1/ping");
    assert_eq!(bare.body_ref(), None);
    assert_eq!(bare.query_ref(), None);
    assert!(bare.headers().is_empty());
}

#[test]
fn header_on_a_full_map_changes_nothing() {
    let client = client();
    let mut builder = client.request(Method::GET, "/v1/ping");
    for i in 0..40000 {
        builder = builder.header(&format!("x-h{}", i), "old");
    }
    let held = builder.headers().len();
    assert!(held >= 1 && held <= 32768, "the map holds {} headers", held);
    assert_eq!(builder.headers().get("x-h0").map(|value| value.as_bytes()), Some(&b"old"[..]));
    let builder = builder.header("x-one-more", "1").header("x-h0", "new");
    assert_eq!(builder.headers().len(), held);
    assert!(builder.headers().get("x-one-more").is_none());
    assert_eq!(builder.headers().get("x-h0").map(|value| value.as_bytes()), Some(&b"old"[..]));
    let request = prepared(builder.prepare(TS, BASE, None));
    assert_eq!(request.headers.len(), held + 5);
}
