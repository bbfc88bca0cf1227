//! The three stages of registering an application with an instance:
//! unregistered, registered, and authorized (a session record).
use vstd::prelude::*;
use vstd::string::*;
use vstd::utf8::encode_utf8;
use crate::error::Error;
use crate::json::{api_error_fields, decode_api_error, json_string_member, string_member};
use crate::session::{Body, Data, Method, Request, pairs_view};
use crate::text::{form_encode, form_encoded};

verus! {

/// The permissions an application asks for.
#[derive(Clone, Copy, Debug, PartialEq, Eq, Structural)]
pub enum Scopes {
    All,
    Read,
    Write,
    Follow,
}

/// The text a set of scopes is sent as.
pub open spec fn scopes_text(s: Scopes) -> Seq<char> {
    match s {
        Scopes::All => "read write follow"@,
        Scopes::Read => "read"@,
        Scopes::Write => "write"@,
        Scopes::Follow => "follow"@,
    }
}

impl Scopes {
    /// The text these scopes are sent as.
    pub fn as_text(&self) -> (r: String)
        ensures
            r@ == scopes_text(*self),
    {
        match self {
            Scopes::All => String::from_str("read write follow"),
            Scopes::Read => String::from_str("read"),
            Scopes::Write => String::from_str("write"),
            Scopes::Follow => String::from_str("follow"),
        }
    }
}

/// The description of an application to register.
#[derive(Clone, Debug, PartialEq)]
pub struct AppBuilder {
    pub client_name: String,
    pub redirect_uris: String,
    pub scopes: Scopes,
    pub website: Option<String>,
}

/// An application not yet registered with the instance at `base`.
#[derive(Clone, Debug, PartialEq)]
pub struct Registration {
    pub base: String,
}

/// An application registered with an instance, not yet authorized.
#[derive(Clone, Debug, PartialEq)]
pub struct Registered {
    pub base: String,
    pub client_id: String,
    pub client_secret: String,
    pub redirect: String,
    pub scopes: Scopes,
}

/// The fields of a registration, in order; the website only where given.
pub open spec fn app_fields(app: AppBuilder) -> Seq<(Seq<char>, Seq<char>)> {
    seq![
        ("client_name"@, app.client_name@),
        ("redirect_uris"@, app.redirect_uris@),
        ("scopes"@, scopes_text(app.scopes)),
    ] + match app.website {
        Some(w) => seq![("website"@, w@)],
        None => Seq::empty(),
    }
}

/// Form-encoding of the text `s`.
pub open spec fn enc(s: Seq<char>) -> Seq<char> {
    form_encoded(encode_utf8(s))
}

/// The user-facing authorization url of a registered application.
pub open spec fn authorize_url_of(r: Registered) -> Seq<char> {
    r.base@ + "/oauth/authorize?client_id="@ + enc(r.client_id@) + "&redirect_uri="@ + enc(
        r.redirect@,
    ) + "&response_type=code&scope="@ + enc(scopes_text(r.scopes))
}

/// The fields of an authorization-code exchange, in order.
pub open spec fn token_fields(r: Registered, code: Seq<char>) -> Seq<(Seq<char>, Seq<char>)> {
    seq![
        ("client_id"@, r.client_id@),
        ("client_secret"@, r.client_secret@),
        ("code"@, code),
        ("grant_type"@, "authorization_code"@),
        ("redirect_uri"@, r.redirect@),
    ]
}

impl Registration {
    /// Starts registering with the instance at `base`.
    pub fn new(base: String) -> (r: Registration)
        ensures
            r.base == base,
    {
        Registration { base }
    }

    /// The request that registers `app`: an unauthenticated form post to
    /// the instance's app endpoint.
    pub fn register_request(&self, app: &AppBuilder) -> (r: Request)
        ensures
            r.method == Method::Post,
            r.url@ == self.base@ + "/api/v1/apps"@,
            r.bearer is None,
            !r.checks_status,
            r.body matches Body::Form(f) && pairs_view(f@) == app_fields(*app),
    {
        let mut fields: Vec<(String, String)> = Vec::new();
        fields.push((String::from_str("client_name"), app.client_name.clone()));
        fields.push((String::from_str("redirect_uris"), app.redirect_uris.clone()));
        fields.push((String::from_str("scopes"), app.scopes.as_text()));
        if let Some(w) = &app.website {
            fields.push((String::from_str("website"), w.clone()));
        }
        assert(pairs_view(fields@) =~= app_fields(*app));
        let url = self.base.clone().concat("/api/v1/apps");
        Request { method: Method::Post, url, bearer: None, body: Body::Form(fields), checks_status: false }
    }

    /// Takes the instance's answer `body` to the registration of `app`: the
    /// registered application where it holds a client id and secret, else
    /// the missing field.
    pub fn register(&self, app: &AppBuilder, body: &[u8]) -> (r: Result<Registered, Error>)
        ensures
            match (json_string_member(body@, "client_id"@), json_string_member(body@, "client_secret"@)) {
                (Some(id), Some(secret)) => match r {
                    Ok(g) => g.base == self.base && g.client_id@ == id && g.client_secret@ == secret
                        && g.redirect == app.redirect_uris && g.scopes == app.scopes,
                    Err(_) => false,
                },
                (None, _) => r matches Err(Error::Protocol(f)) && f@ == "client_id"@,
                (Some(_), None) => r matches Err(Error::Protocol(f)) && f@ == "client_secret"@,
            },
    {
        let client_id = match string_member(body, "client_id") {
            Some(id) => id,
            None => return Err(Error::Protocol(String::from_str("client_id"))),
        };
        let client_secret = match string_member(body, "client_secret") {
            Some(s) => s,
            None => return Err(Error::Protocol(String::from_str("client_secret"))),
        };
        Ok(Registered {
            base: self.base.clone(),
            client_id,
            client_secret,
            redirect: app.redirect_uris.clone(),
            scopes: app.scopes,
        })
    }
}

impl Registered {
    /// The url the user opens to authorize the application, which names the
    /// client id, redirect uri, response type and scopes; it needs a client id.
    pub fn authorize_url(&self) -> (r: Result<String, Error>)
        ensures
            self.client_id@.len() == 0 ==> r == Err::<String, Error>(Error::ClientIdRequired),
            self.client_id@.len() > 0 ==> (r matches Ok(u) && u@ == authorize_url_of(*self)),
    {
        if self.client_id.unicode_len() == 0 {
            return Err(Error::ClientIdRequired);
        }
        let mut url = self.base.clone().concat("/oauth/authorize?client_id=");
        let id = form_encode(self.client_id.as_str());
        url.append(id.as_str());
        url.append("&redirect_uri=");
        let redirect = form_encode(self.redirect.as_str());
        url.append(redirect.as_str());
        url.append("&response_type=code&scope=");
        let scopes = self.scopes.as_text();
        let scope = form_encode(scopes.as_str());
        url.append(scope.as_str());
        Ok(url)
    }

    /// The request that exchanges the authorization `code` for a token; it
    /// needs a client id and a client secret.
    pub fn token_request(&self, code: &str) -> (r: Result<Request, Error>)
        ensures
            self.client_id@.len() == 0 ==> r == Err::<Request, Error>(Error::ClientIdRequired),
            self.client_id@.len() > 0 && self.client_secret@.len() == 0 ==> r == Err::<
                Request,
                Error,
            >(Error::ClientSecretRequired),
            self.client_id@.len() > 0 && self.client_secret@.len() > 0 ==> match r {
                Ok(q) => {
                    &&& q.method == Method::Post
                    &&& q.url@ == self.base@ + "/oauth/token"@
                    &&& q.bearer is None
                    &&& !q.checks_status
                    &&& q.body matches Body::Form(f) && pairs_view(f@) == token_fields(*self, code@)
                },
                Err(_) => false,
            },
    {
        if self.client_id.unicode_len() == 0 {
            return Err(Error::ClientIdRequired);
        }
        if self.client_secret.unicode_len() == 0 {
            return Err(Error::ClientSecretRequired);
        }
        let mut fields: Vec<(String, String)> = Vec::new();
        fields.push((String::from_str("client_id"), self.client_id.clone()));
        fields.push((String::from_str("client_secret"), self.client_secret.clone()));
        fields.push((String::from_str("code"), String::from_str(code)));
        fields.push((String::from_str("grant_type"), String::from_str("authorization_code")));
        fields.push((String::from_str("redirect_uri"), self.redirect.clone()));
        assert(pairs_view(fields@) =~= token_fields(*self, code@));
        let url = self.base.clone().concat("/oauth/token");
        Ok(Request { method: Method::Post, url, bearer: None, body: Body::Form(fields), checks_status: false })
    }

    /// Takes the instance's answer `body` to the code exchange: the session
    /// record with the access token and this registration's fields, else the
    /// API error the body holds, else the missing token field.
    pub fn exchange_code(&self, body: &[u8]) -> (r: Result<Data, Error>)
        ensures
            match json_string_member(body@, "access_token"@) {
                Some(t) => match r {
                    Ok(d) => d.base == self.base && d.client_id == self.client_id
                        && d.client_secret == self.client_secret && d.redirect == self.redirect
                        && d.token@ == t,
                    Err(_) => false,
                },
                None => match api_error_fields(body@) {
                    Some(fields) => r matches Err(Error::Api(a)) && fields == (
                        a.error@,
                        crate::error::opt_view(a.error_description),
                    ),
                    None => r matches Err(Error::Protocol(f)) && f@ == "access_token"@,
                },
            },
    {
        match string_member(body, "access_token") {
            Some(token) => Ok(Data {
                base: self.base.clone(),
                client_id: self.client_id.clone(),
                client_secret: self.client_secret.clone(),
                redirect: self.redirect.clone(),
                token,
            }),
            None => match decode_api_error(body) {
                Some(a) => Err(Error::Api(a)),
                None => Err(Error::Protocol(String::from_str("access_token"))),
            },
        }
    }
}

} // verus!
