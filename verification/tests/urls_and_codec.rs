use verder_helpen::baseurl::{BaseUrl, BaseUrlError, BaseUrlParseError};
use verder_helpen::codec::{decode_base64url, encode_base64url, json_decode_strings, json_encode_strings, utf8_to_string};
use verder_helpen::text::{concatenate, str_eq};
use verder_helpen::weburl::WebUrl;

#[test]
fn parse_normalizes_and_rejects() {
    let u = WebUrl::parse("HTTPS://Example.com").unwrap();
    assert_eq!(u.as_str(), "https://example.com/");
    assert_eq!(u.to_string(), "https://example.com/");
    assert!(WebUrl::parse("not a url").is_none());
    assert!(WebUrl::parse("/relative/path").is_none());
}

#[test]
fn join_resolves_relative_and_absolute() {
    let base = WebUrl::parse("https://alice.com/a/b").unwrap();
    assert_eq!(base.join("c.png").unwrap().as_str(), "https://alice.com/a/c.png");
    assert_eq!(base.join("/v1/meta").unwrap().as_str(), "https://alice.com/v1/meta");
    assert_eq!(base.join("http://eve.com/b").unwrap().as_str(), "http://eve.com/b");
}

#[test]
fn query_pair_is_appended() {
    let u = WebUrl::parse("https://example.com/client_url").unwrap();
    assert_eq!(u.with_query_pair("result", "test").as_str(), "https://example.com/client_url?result=test");
    let twice = u.with_query_pair("a", "1").with_query_pair("b", "2");
    assert_eq!(twice.as_str(), "https://example.com/client_url?a=1&b=2");
}

#[test]
fn clone_keeps_the_url() {
    let u = WebUrl::parse("https://example.com/x").unwrap();
    assert_eq!(u.clone(), u);
    assert_eq!(u.duplicate(), u);
}

#[test]
fn base_urls_must_be_able_to_be_a_base() {
    let b = BaseUrl::parse("https://example.com/base/").unwrap();
    assert_eq!(b.to_string(), "https://example.com/base/");
    assert_eq!(b.as_ref().as_str(), "https://example.com/base/");
    assert_eq!(b.join("start").as_str(), "https://example.com/base/start");
    assert_eq!(b.try_join("session/update").unwrap().as_str(), "https://example.com/base/session/update");
    assert_eq!(b.clone(), b);
    assert_eq!(
        BaseUrl::parse("data:text/plain,Stuff").unwrap_err(),
        BaseUrlParseError::Validate(BaseUrlError::PredicateViolated)
    );
    assert_eq!(BaseUrl::parse("nope").unwrap_err(), BaseUrlParseError::Parse);
    let data = WebUrl::parse("mailto:someone@example.com").unwrap();
    assert!(data.cannot_be_a_base());
    assert_eq!(BaseUrl::try_new(data).unwrap_err(), BaseUrlError::PredicateViolated);
}

#[test]
fn base64_round_trips() {
    assert_eq!(encode_base64url(b"hello"), "aGVsbG8");
    assert_eq!(encode_base64url(&[0xfb, 0xff]), "-_8");
    assert_eq!(decode_base64url("aGVsbG8").unwrap(), b"hello".to_vec());
    assert_eq!(decode_base64url("aGVsbG8=").unwrap(), b"hello".to_vec());
    assert!(decode_base64url("!!").is_err());
}

#[test]
fn json_strings_round_trip() {
    let names = vec!["email".to_string(), "na\"me".to_string()];
    let json = json_encode_strings(&names).unwrap();
    assert_eq!(json, br#"["email","na\"me"]"#.to_vec());
    assert_eq!(json_decode_strings(&json).unwrap(), names);
    assert!(json_decode_strings(b"{\"a\":1}").is_err());
    assert!(json_decode_strings(b"[1,2]").is_err());
}

#[test]
fn utf8_is_checked() {
    assert_eq!(utf8_to_string("héllo".as_bytes().to_vec()).unwrap(), "héllo");
    assert!(utf8_to_string(vec![0xff, 0xfe]).is_none());
}

#[test]
fn text_helpers() {
    assert!(str_eq("application/json", "application/json"));
    assert!(!str_eq("application/json", "application/jwt"));
    assert!(!str_eq("a", "ab"));
    assert_eq!(concatenate("ab", "cd"), "abcd");
}
