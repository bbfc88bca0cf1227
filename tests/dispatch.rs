use mammut::response::resolve;
use mammut::session::{Body, BodyKind, Data, Mastodon, Method, Param, Request, ResponseKind, Route};
use mammut::text::decimal_string;
use mammut::{ApiError, Error};

fn data(token: &str) -> Data {
    Data {
        base: "https://ex.social".to_string(),
        client_id: "abc".to_string(),
        client_secret: "xyz".to_string(),
        redirect: "urn:ietf:wg:oauth:2.0:oob".to_string(),
        token: token.to_string(),
    }
}

fn client() -> Mastodon {
    Mastodon::from_data(data("tok123"))
}

fn url_of(r: Result<Request, Error>) -> String {
    match r {
        Ok(q) => q.url,
        Err(e) => panic!("unexpected error {:?}", e),
    }
}

#[derive(Debug, PartialEq, Clone)]
struct Account {
    id: u64,
    name: String,
}

#[test]
fn success_body_returned_unchanged() {
    let account = Account { id: 7, name: "alice".to_string() };
    let body = br#"{"id":7,"name":"alice"}"#;
    let r = resolve(false, 200, body, Ok(account.clone()));
    assert_eq!(r.unwrap(), account);
    let r = resolve(true, 201, body, Ok(account.clone()));
    assert_eq!(r.unwrap(), account);
}

#[test]
fn error_payload_gives_api_error_with_fields() {
    let body = br#"{"error":"invalid_token","error_description":"The token is gone"}"#;
    for status in [200u16, 401, 404, 500] {
        let r: Result<Account, Error> = resolve(false, status, body, Err("missing field `id`".to_string()));
        match r {
            Err(Error::Api(ApiError { error, error_description })) => {
                assert_eq!(error, "invalid_token");
                assert_eq!(error_description, Some("The token is gone".to_string()));
            }
            other => panic!("expected an API error, got {:?}", other),
        }
    }
}

#[test]
fn error_payload_without_description() {
    let body = br#"{"error":"Record not found"}"#;
    let r: Result<Account, Error> = resolve(false, 200, body, Err("bad".to_string()));
    match r {
        Err(Error::Api(a)) => {
            assert_eq!(a.error, "Record not found");
            assert_eq!(a.error_description, None);
            assert_eq!(Error::Api(a).description(), "Record not found");
        }
        other => panic!("expected an API error, got {:?}", other),
    }
}

#[test]
fn client_status_decides_before_body() {
    let r: Result<Account, Error> = resolve(true, 404, b"<html>gone</html>", Err("expected value".to_string()));
    assert!(matches!(r, Err(Error::Client(404))));
    let body = br#"{"error":"nope"}"#;
    let r: Result<Account, Error> = resolve(true, 422, body, Err("x".to_string()));
    assert!(matches!(r, Err(Error::Client(422))));
}

#[test]
fn server_status_decides_before_body() {
    let r: Result<Account, Error> = resolve(true, 503, b"", Err("EOF".to_string()));
    assert!(matches!(r, Err(Error::Server(503))));
}

#[test]
fn unchecked_request_reads_body_whatever_the_status() {
    let r: Result<Account, Error> = resolve(false, 404, b"<html>", Err("expected value".to_string()));
    match r {
        Err(Error::Serde(m)) => assert_eq!(m, "expected value"),
        other => panic!("expected a decode error, got {:?}", other),
    }
}

#[test]
fn neither_shape_keeps_first_failure() {
    let r: Result<Account, Error> = resolve(true, 200, br#"{"unexpected":true}"#, Err("missing field `id`".to_string()));
    match r {
        Err(Error::Serde(m)) => assert_eq!(m, "missing field `id`"),
        other => panic!("expected a decode error, got {:?}", other),
    }
}

#[test]
fn resolving_twice_gives_equal_results() {
    let body = br#"{"id":7,"name":"alice"}"#;
    let a = Account { id: 7, name: "alice".to_string() };
    let r1 = resolve(false, 200, body, Ok(a.clone())).unwrap();
    let r2 = resolve(false, 200, body, Ok(a.clone())).unwrap();
    assert_eq!(r1, r2);
    let m = client();
    assert_eq!(m.get_public_timeline(true).unwrap(), m.get_public_timeline(true).unwrap());
}

#[test]
fn route_prefixes_base() {
    assert_eq!(client().route("/api/v1/instance"), "https://ex.social/api/v1/instance");
}

#[test]
fn public_timeline_urls() {
    let m = client();
    let q = m.get_public_timeline(false).unwrap();
    assert_eq!(q.url, "https://ex.social/api/v1/timelines/public");
    assert_eq!(q.method, Method::Get);
    assert_eq!(q.bearer, Some("tok123".to_string()));
    assert_eq!(q.body, Body::Empty);
    assert!(!q.checks_status);
    assert_eq!(url_of(m.get_public_timeline(true)), "https://ex.social/api/v1/timelines/public?local=1");
}

#[test]
fn tagged_timeline_urls() {
    let m = client();
    assert_eq!(url_of(m.get_tagged_timeline("coffee".to_string(), false)), "https://ex.social/api/v1/timelines/tag/coffee");
    assert_eq!(url_of(m.get_tagged_timeline("coffee".to_string(), true)), "https://ex.social/api/v1/timelines/tag/coffee?local=1");
}

#[test]
fn statuses_filters_in_order() {
    let m = client();
    assert_eq!(url_of(m.statuses(42, false, false, None, None)), "https://ex.social/api/v1/accounts/42/statuses");
    assert_eq!(
        url_of(m.statuses(42, true, true, Some(10), Some(99))),
        "https://ex.social/api/v1/accounts/42/statuses?only_media=1&exclude_replies=1&since_id=10&max_id=99"
    );
    assert_eq!(url_of(m.statuses(0, false, true, None, Some(5))), "https://ex.social/api/v1/accounts/0/statuses?exclude_replies=1&max_id=5");
}

#[test]
fn relationships_queries() {
    let m = client();
    assert_eq!(url_of(m.relationships(&[])), "https://ex.social/api/v1/accounts/relationships");
    assert_eq!(url_of(m.relationships(&[7])), "https://ex.social/api/v1/accounts/relationships?id=7");
    assert_eq!(url_of(m.relationships(&[1, 22, 333])), "https://ex.social/api/v1/accounts/relationships?id[]=1&id[]=22&id[]=333");
}

#[test]
fn search_accounts_sends_query_as_given() {
    assert_eq!(url_of(client().search_accounts("bob@ex.social")), "https://ex.social/api/v1/accounts/search?q=bob@ex.social");
}

#[test]
fn missing_token_fails_before_any_request() {
    let m = Mastodon::from_data(data(""));
    assert!(matches!(m.get_public_timeline(false), Err(Error::AccessTokenRequired)));
    assert!(matches!(m.relationships(&[1]), Err(Error::AccessTokenRequired)));
    assert_eq!(Error::AccessTokenRequired.description(), "AccessTokenRequired");
}

#[test]
fn dispatch_substitutes_id_and_query() {
    let m = client();
    let route = Route { method: Method::Get, path: "accounts/{}/followers".to_string(), body: BodyKind::Empty, response: ResponseKind::Collection };
    let q = m.dispatch(&route, Some(1234), &vec![("limit".to_string(), "40".to_string()), ("q".to_string(), "a b&c".to_string())], Body::Empty).unwrap();
    assert_eq!(q.url, "https://ex.social/api/v1/accounts/1234/followers?limit=40&q=a+b%26c");
    assert!(!q.checks_status);
    let post = Route { method: Method::Post, path: "domain_blocks".to_string(), body: BodyKind::Json, response: ResponseKind::SingleObject };
    let body = Body::Json(vec![("domain".to_string(), Param::Text("spam.example".to_string()))]);
    let q = m.dispatch(&post, None, &vec![], body.clone()).unwrap();
    assert_eq!(q.url, "https://ex.social/api/v1/domain_blocks");
    assert_eq!(q.method, Method::Post);
    assert_eq!(q.body, body);
    assert!(q.checks_status);
}

#[test]
fn decimal_rendering() {
    assert_eq!(decimal_string(0), "0");
    assert_eq!(decimal_string(9), "9");
    assert_eq!(decimal_string(10), "10");
    assert_eq!(decimal_string(18446744073709551615), "18446744073709551615");
}

#[test]
fn status_descriptions() {
    assert_eq!(Error::Client(404).description(), "Not Found");
    assert_eq!(Error::Server(503).description(), "Service Unavailable");
    assert_eq!(Error::Client(499).description(), "Unknown Status code");
    assert_eq!(Error::Protocol("client_id".to_string()).description(), "missing field: client_id");
}

#[test]
fn error_payload_with_non_text_description_is_no_payload() {
    let body = br#"{"error":"x","error_description":5}"#;
    let r: Result<Account, Error> = resolve(false, 200, body, Err("first".to_string()));
    match r {
        Err(Error::Serde(m)) => assert_eq!(m, "first"),
        other => panic!("expected a decode error, got {:?}", other),
    }
    let body = br#"{"error":"x","error_description":null}"#;
    let r: Result<Account, Error> = resolve(false, 200, body, Err("first".to_string()));
    assert!(matches!(r, Err(Error::Api(ApiError { error_description: None, .. }))));
}
