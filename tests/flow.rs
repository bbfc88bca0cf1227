use mammut::endpoints::{CredientialsBuilder, StatusBuilder, Visibility};
use mammut::page::{find_rel_link, Page};
use mammut::registration::{AppBuilder, Registered, Registration, Scopes};
use mammut::session::{Body, Data, Mastodon, Method, Param, Part};
use mammut::response::resolve;
use mammut::Error;

fn app() -> AppBuilder {
    AppBuilder {
        client_name: "mammut_test".to_string(),
        redirect_uris: "urn:ietf:wg:oauth:2.0:oob".to_string(),
        scopes: Scopes::Read,
        website: None,
    }
}

fn registered() -> Registered {
    Registration::new("https://ex.social".to_string())
        .register(&app(), br#"{"client_id":"abc","client_secret":"xyz"}"#)
        .unwrap()
}

fn client() -> Mastodon {
    Mastodon::from_data(Data {
        base: "https://ex.social".to_string(),
        client_id: "abc".to_string(),
        client_secret: "xyz".to_string(),
        redirect: "urn:ietf:wg:oauth:2.0:oob".to_string(),
        token: "tok123".to_string(),
    })
}

#[test]
fn register_takes_client_credentials() {
    let r = registered();
    assert_eq!(r.base, "https://ex.social");
    assert_eq!(r.client_id, "abc");
    assert_eq!(r.client_secret, "xyz");
    assert_eq!(r.redirect, "urn:ietf:wg:oauth:2.0:oob");
    assert_eq!(r.scopes, Scopes::Read);
}

#[test]
fn register_reports_missing_fields() {
    let reg = Registration::new("https://ex.social".to_string());
    match reg.register(&app(), br#"{"client_secret":"xyz"}"#) {
        Err(Error::Protocol(f)) => assert_eq!(f, "client_id"),
        other => panic!("unexpected {:?}", other),
    }
    match reg.register(&app(), br#"{"client_id":"abc"}"#) {
        Err(Error::Protocol(f)) => assert_eq!(f, "client_secret"),
        other => panic!("unexpected {:?}", other),
    }
    assert!(matches!(reg.register(&app(), b"not json"), Err(Error::Protocol(_))));
}

#[test]
fn register_request_form() {
    let mut a = app();
    a.website = Some("https://mammut.example".to_string());
    let q = Registration::new("https://ex.social".to_string()).register_request(&a);
    assert_eq!(q.url, "https://ex.social/api/v1/apps");
    assert_eq!(q.method, Method::Post);
    assert_eq!(q.bearer, None);
    assert_eq!(
        q.body,
        Body::Form(vec![
            ("client_name".to_string(), "mammut_test".to_string()),
            ("redirect_uris".to_string(), "urn:ietf:wg:oauth:2.0:oob".to_string()),
            ("scopes".to_string(), "read".to_string()),
            ("website".to_string(), "https://mammut.example".to_string()),
        ])
    );
}

#[test]
fn exchange_code_carries_registration_over() {
    let r = registered();
    let data = r.exchange_code(br#"{"access_token":"tok123"}"#).unwrap();
    assert_eq!(data.token, "tok123");
    assert_eq!(data.base, "https://ex.social");
    assert_eq!(data.client_id, "abc");
    assert_eq!(data.client_secret, "xyz");
    assert_eq!(data.redirect, "urn:ietf:wg:oauth:2.0:oob");
}

#[test]
fn exchange_code_reports_api_error() {
    let r = registered();
    match r.exchange_code(br#"{"error":"invalid_grant","error_description":"expired code"}"#) {
        Err(Error::Api(a)) => {
            assert_eq!(a.error, "invalid_grant");
            assert_eq!(a.error_description, Some("expired code".to_string()));
        }
        other => panic!("unexpected {:?}", other),
    }
    match r.exchange_code(br#"{"token_type":"Bearer"}"#) {
        Err(Error::Protocol(f)) => assert_eq!(f, "access_token"),
        other => panic!("unexpected {:?}", other),
    }
}

#[test]
fn token_request_form_and_preconditions() {
    let r = registered();
    let q = r.token_request("CODE").unwrap();
    assert_eq!(q.url, "https://ex.social/oauth/token");
    assert_eq!(q.method, Method::Post);
    assert_eq!(
        q.body,
        Body::Form(vec![
            ("client_id".to_string(), "abc".to_string()),
            ("client_secret".to_string(), "xyz".to_string()),
            ("code".to_string(), "CODE".to_string()),
            ("grant_type".to_string(), "authorization_code".to_string()),
            ("redirect_uri".to_string(), "urn:ietf:wg:oauth:2.0:oob".to_string()),
        ])
    );
    let mut no_secret = registered();
    no_secret.client_secret = String::new();
    assert!(matches!(no_secret.token_request("CODE"), Err(Error::ClientSecretRequired)));
    let mut no_id = registered();
    no_id.client_id = String::new();
    assert!(matches!(no_id.token_request("CODE"), Err(Error::ClientIdRequired)));
    assert!(matches!(no_id.authorize_url(), Err(Error::ClientIdRequired)));
}

#[test]
fn authorize_url_holds_encoded_parameters() {
    let url = registered().authorize_url().unwrap();
    assert!(url.starts_with("https://ex.social/oauth/authorize?"));
    assert!(url.contains("client_id=abc"));
    assert!(url.contains("redirect_uri=urn%3Aietf%3Awg%3Aoauth%3A2.0%3Aoob"));
    assert!(url.contains("response_type=code"));
    assert!(url.contains("scope=read"));
}

#[test]
fn authorize_url_encodes_all_scopes() {
    let mut r = registered();
    r.scopes = Scopes::All;
    let url = r.authorize_url().unwrap();
    assert_eq!(
        url,
        "https://ex.social/oauth/authorize?client_id=abc&redirect_uri=urn%3Aietf%3Awg%3Aoauth%3A2.0%3Aoob&response_type=code&scope=read+write+follow"
    );
}

#[test]
fn next_link_is_kept_verbatim() {
    let header = r#"<https://ex.social/api/v1/x?max_id=5>; rel="next""#;
    let page = Page::from_response(Ok(vec![1u64, 2, 3]), Some(header)).unwrap();
    assert_eq!(page.items, vec![1, 2, 3]);
    assert_eq!(page.next, Some("https://ex.social/api/v1/x?max_id=5".to_string()));
    assert_eq!(page.prev, None);
    let q = page.next_page(&client()).unwrap().unwrap();
    assert_eq!(q.method, Method::Get);
    assert_eq!(q.url, "https://ex.social/api/v1/x?max_id=5");
    assert_eq!(q.bearer, Some("tok123".to_string()));
}

#[test]
fn no_link_means_no_request() {
    let page = Page::from_response(Ok(vec![1u64]), None).unwrap();
    assert!(page.next_page(&client()).unwrap().is_none());
    assert!(page.prev_page(&client()).unwrap().is_none());
}

#[test]
fn both_links_found_in_any_order() {
    let header = r#"<https://ex.social/api/v1/x?since_id=9>; rel="prev", <https://ex.social/api/v1/x?max_id=3>; rel="next""#;
    assert_eq!(find_rel_link(header, "next"), Some("https://ex.social/api/v1/x?max_id=3".to_string()));
    assert_eq!(find_rel_link(header, "prev"), Some("https://ex.social/api/v1/x?since_id=9".to_string()));
    assert_eq!(find_rel_link(header, "last"), None);
    let q = Page::from_response(Ok(Vec::<u64>::new()), Some(header)).unwrap().prev_page(&client()).unwrap().unwrap();
    assert_eq!(q.url, "https://ex.social/api/v1/x?since_id=9");
}

#[test]
fn page_passes_failure_on() {
    let r = Page::<u64>::from_response(Err(Error::Client(401)), Some(r#"<u>; rel="next""#));
    assert!(matches!(r, Err(Error::Client(401))));
}

#[test]
fn new_status_members() {
    let s = StatusBuilder {
        status: "hello".to_string(),
        in_reply_to_id: Some(3),
        media_ids: None,
        sensitive: Some(true),
        spoiler_text: None,
        visibility: Some(Visibility::Unlisted),
    };
    let q = client().new_status(s).unwrap();
    assert_eq!(q.url, "https://ex.social/api/v1/statuses");
    assert_eq!(q.method, Method::Post);
    assert!(!q.checks_status);
    assert_eq!(
        q.body,
        Body::Json(vec![
            ("status".to_string(), Param::Text("hello".to_string())),
            ("in_reply_to_id".to_string(), Param::Number(3)),
            ("sensitive".to_string(), Param::Flag(true)),
            ("visibility".to_string(), Param::Text("unlisted".to_string())),
        ])
    );
}

#[test]
fn update_credentials_parts() {
    let c = CredientialsBuilder {
        display_name: Some("Alice".to_string()),
        note: None,
        avatar: Some("/tmp/a.png".to_string()),
        header: None,
    };
    let q = client().update_credentials(c).unwrap();
    assert_eq!(q.url, "https://ex.social/api/v1/accounts/update_credentials");
    assert_eq!(q.method, Method::Patch);
    assert!(q.checks_status);
    assert_eq!(
        q.body,
        Body::Multipart(vec![
            Part::Text("display_name".to_string(), "Alice".to_string()),
            Part::File("avatar".to_string(), "/tmp/a.png".to_string()),
        ])
    );
}

#[test]
fn new_status_answer_decided_by_body() {
    let s = StatusBuilder {
        status: "hi".to_string(),
        in_reply_to_id: None,
        media_ids: None,
        sensitive: None,
        spoiler_text: None,
        visibility: None,
    };
    let q = client().new_status(s).unwrap();
    let body = br#"{"error":"Validation failed","error_description":"Text too long"}"#;
    let r: Result<u64, Error> = resolve(q.checks_status, 422, body, Err("invalid type".to_string()));
    match r {
        Err(Error::Api(a)) => {
            assert_eq!(a.error, "Validation failed");
            assert_eq!(a.error_description, Some("Text too long".to_string()));
        }
        other => panic!("expected an API error, got {:?}", other),
    }
    let r: Result<u64, Error> = resolve(q.checks_status, 404, b"17", Ok(17));
    assert_eq!(r.unwrap(), 17);
}

#[test]
fn update_credentials_answer_decided_by_status() {
    let c = CredientialsBuilder { display_name: Some("A".to_string()), note: None, avatar: None, header: None };
    let q = client().update_credentials(c).unwrap();
    let body = br#"{"error":"Unauthorized"}"#;
    let r: Result<u64, Error> = resolve(q.checks_status, 401, body, Err("invalid type".to_string()));
    assert!(matches!(r, Err(Error::Client(401))));
}
