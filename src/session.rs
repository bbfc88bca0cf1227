//! The session record and the authenticated request plans built from it.
use vstd::prelude::*;
use vstd::string::*;
use vstd::utf8::encode_utf8;
use crate::error::Error;
use crate::text::{decimal, decimal_string, form_encode, form_encoded, find_char, find_from, lemma_find_from_bounds};

verus! {

/// Raw data about a Mastodon app: the unit that is saved between runs so
/// that the app need not authenticate every time.
#[derive(Clone, Debug, PartialEq, Eq)]
pub struct Data {
    /// Base url of instance eg. `https://mastodon.social`.
    pub base: String,
    /// The client's id given by the instance.
    pub client_id: String,
    /// The client's secret given by the instance.
    pub client_secret: String,
    /// Url to redirect back to the application from the instance signup.
    pub redirect: String,
    /// The client's access token; empty until authorization completes.
    pub token: String,
}

impl Data {
    /// A record with a token may be used for authenticated calls.
    pub open spec fn is_authenticated(&self) -> bool {
        self.token@.len() > 0
    }
}

/// An HTTP method.
#[derive(Clone, Copy, Debug, PartialEq, Eq, Structural)]
pub enum Method {
    Get,
    Post,
    Patch,
    Delete,
}

/// A value of a JSON request body.
#[derive(Clone, Debug, PartialEq)]
pub enum Param {
    Text(String),
    Number(u64),
    Numbers(Vec<u64>),
    Flag(bool),
}

/// A part of a multipart form: a named text value, or a named file given by
/// its path.
#[derive(Clone, Debug, PartialEq)]
pub enum Part {
    Text(String, String),
    File(String, String),
}

/// The body of a request.
#[derive(Clone, Debug, PartialEq)]
pub enum Body {
    /// No body.
    Empty,
    /// A JSON object with the given members, in order.
    Json(Vec<(String, Param)>),
    /// A multipart form with the given parts, in order.
    Multipart(Vec<Part>),
    /// An url-encoded form with the given fields, in order.
    Form(Vec<(String, String)>),
}


/// One HTTP call to be made: method, absolute url, bearer token to attach,
/// body, and whether the response's status class decides before its body
/// (each operation sets this itself).
#[derive(Clone, Debug, PartialEq)]
pub struct Request {
    pub method: Method,
    pub url: String,
    pub bearer: Option<String>,
    pub body: Body,
    pub checks_status: bool,
}

/// The shape of a route's request body.
#[derive(Clone, Copy, Debug, PartialEq, Eq, Structural)]
pub enum BodyKind {
    Empty,
    Json,
    Multipart,
}

/// The shape of a route's successful response.
#[derive(Clone, Copy, Debug, PartialEq, Eq, Structural)]
pub enum ResponseKind {
    SingleObject,
    Collection,
    PaginatedCollection,
}

/// A route descriptor: one operation of the API.
#[derive(Clone, Debug, PartialEq)]
pub struct Route {
    pub method: Method,
    /// Path under `/api/v1/`, with at most one `{}` placeholder for an id.
    pub path: String,
    pub body: BodyKind,
    pub response: ResponseKind,
}

/// Whether a route's response has its status class inspected before its
/// body: routes that send a JSON or multipart body do.
pub open spec fn route_checks_status(kind: BodyKind) -> bool {
    kind is Json || kind is Multipart
}

/// The kind of a body.
pub open spec fn kind_of(body: Body) -> BodyKind {
    match body {
        Body::Json(_) => BodyKind::Json,
        Body::Multipart(_) => BodyKind::Multipart,
        _ => BodyKind::Empty,
    }
}

/// The absolute url of `path` under the API root of `base`.
pub open spec fn api_url(base: Seq<char>, path: Seq<char>) -> Seq<char> {
    base + "/api/v1/"@ + path
}

/// `path` with its first `{}` replaced by the decimal `id`, where an id is
/// given and the path has a placeholder.
pub open spec fn expand(path: Seq<char>, id: Option<u64>) -> Seq<char> {
    match id {
        None => path,
        Some(n) => match find_from(path, '{', 0) {
            Some(p) => if p + 1 < path.len() && path[p + 1] == '}' {
                path.subrange(0, p) + decimal(n as nat) + path.subrange(p + 2, path.len() as int)
            } else {
                path
            },
            None => path,
        },
    }
}

/// One `key=value` pair of a query, both form-encoded.
pub open spec fn query_pair(pair: (Seq<char>, Seq<char>)) -> Seq<char> {
    form_encoded(encode_utf8(pair.0)) + "="@ + form_encoded(encode_utf8(pair.1))
}

/// The query string of `pairs`: empty for none, else `?` and the encoded
/// pairs joined by `&`.
pub open spec fn query_string(pairs: Seq<(Seq<char>, Seq<char>)>) -> Seq<char>
    decreases pairs.len(),
{
    if pairs.len() == 0 {
        Seq::empty()
    } else if pairs.len() == 1 {
        "?"@ + query_pair(pairs[0])
    } else {
        query_string(pairs.drop_last()) + "&"@ + query_pair(pairs.last())
    }
}

/// The views of query pairs.
pub open spec fn pairs_view(v: Seq<(String, String)>) -> Seq<(Seq<char>, Seq<char>)> {
    v.map_values(|p: (String, String)| (p.0@, p.1@))
}

/// Builds the query string of `pairs`.
pub fn build_query(pairs: &Vec<(String, String)>) -> (r: String)
    ensures
        r@ == query_string(pairs_view(pairs@)),
{
    let mut s = String::from_str("");
    let mut i: usize = 0;
    proof {
        reveal_strlit("");
        assert(pairs_view(pairs@.subrange(0, 0)).len() == 0);
    }
    while i < pairs.len()
        invariant
            i <= pairs@.len(),
            s@ == query_string(pairs_view(pairs@.subrange(0, i as int))),
        decreases pairs@.len() - i,
    {
        proof {
            let pre = pairs@.subrange(0, i as int);
            let next = pairs@.subrange(0, i + 1);
            assert(next.drop_last() =~= pre);
            assert(pairs_view(next).drop_last() =~= pairs_view(pre));
        }
        if i == 0 {
            s.append("?");
        } else {
            s.append("&");
        }
        let k = form_encode(pairs[i].0.as_str());
        let v = form_encode(pairs[i].1.as_str());
        s.append(k.as_str());
        s.append("=");
        s.append(v.as_str());
        i = i + 1;
    }
    assert(pairs@.subrange(0, pairs@.len() as int) =~= pairs@);
    s
}

/// The Mastodon client: holds the session record, and turns each operation
/// into an authenticated request plan.
#[derive(Clone, Debug)]
pub struct Mastodon {
    /// Raw data about the Mastodon instance.
    pub data: Data,
}

/// Whether `r` is an authenticated request of `data` with this method, url
/// and status check, or the failure for a record without a token.
pub open spec fn authorized_call(
    data: Data,
    method: Method,
    url: Seq<char>,
    checks_status: bool,
    r: Result<Request, Error>,
) -> bool {
    if data.is_authenticated() {
        match r {
            Ok(q) => q.method == method && q.url@ == url && q.bearer == Some(data.token)
                && q.checks_status == checks_status,
            Err(_) => false,
        }
    } else {
        r == Err::<Request, Error>(Error::AccessTokenRequired)
    }
}

/// Whether `r` is the authenticated request of `data` with this method,
/// url, body and status check, or the failure for a record without a token.
pub open spec fn authorized_request(
    data: Data,
    method: Method,
    url: Seq<char>,
    body: Body,
    checks_status: bool,
    r: Result<Request, Error>,
) -> bool {
    &&& authorized_call(data, method, url, checks_status, r)
    &&& r matches Ok(q) ==> q.body == body
}

/// Building the request of one operation twice, from the same record and
/// arguments, gives equal requests: nothing is carried between calls.
pub proof fn lemma_request_deterministic(
    data: Data,
    method: Method,
    url: Seq<char>,
    body: Body,
    checks_status: bool,
    r1: Result<Request, Error>,
    r2: Result<Request, Error>,
)
    requires
        authorized_request(data, method, url, body, checks_status, r1),
        authorized_request(data, method, url, body, checks_status, r2),
    ensures
        match (r1, r2) {
            (Ok(q1), Ok(q2)) => q1.method == q2.method && q1.url@ == q2.url@ && q1.bearer
                == q2.bearer && q1.body == q2.body && q1.checks_status == q2.checks_status,
            (Err(e1), Err(e2)) => e1 == e2,
            _ => false,
        },
{
}

impl Mastodon {
    /// Creates a client from the saved data.
    pub fn from_data(data: Data) -> (r: Mastodon)
        ensures
            r.data == data,
    {
        Mastodon { data }
    }

    /// The base url followed by `url`.
    pub fn route(&self, url: &str) -> (r: String)
        ensures
            r@ == self.data.base@ + url@,
    {
        self.data.base.clone().concat(url)
    }

    /// The request of `method` to `url` with `body`, carrying the token;
    /// `checks_status` says whether the answer's status class decides first.
    pub fn request(&self, method: Method, url: String, body: Body, checks_status: bool) -> (r:
        Result<Request, Error>)
        ensures
            authorized_request(self.data, method, url@, body, checks_status, r),
    {
        if self.data.token.unicode_len() == 0 {
            return Err(Error::AccessTokenRequired);
        }
        Ok(Request { method, url, bearer: Some(self.data.token.clone()), body, checks_status })
    }
}

/// Expands the id placeholder of `path`.
pub fn expand_path(path: &str, id: Option<u64>) -> (r: String)
    ensures
        r@ == expand(path@, id),
{
    match id {
        None => String::from_str(path),
        Some(n) => {
            let len = path.unicode_len();
            match find_char(path, '{', 0) {
                Some(p) => {
                    proof { lemma_find_from_bounds(path@, '{', 0); }
                    if p + 1 < len && path.get_char(p + 1) == '}' {
                        let head = path.substring_char(0, p);
                        let tail = path.substring_char(p + 2, len);
                        let mut s = String::from_str(head);
                        let d = decimal_string(n);
                        s.append(d.as_str());
                        s.append(tail);
                        s
                    } else {
                        String::from_str(path)
                    }
                },
                None => String::from_str(path),
            }
        },
    }
}

impl Mastodon {
    /// The request for `route`: the id substituted into its path, the
    /// query appended, the body sent as given, and the token attached.
    pub fn dispatch(
        &self,
        route: &Route,
        id: Option<u64>,
        query: &Vec<(String, String)>,
        body: Body,
    ) -> (r: Result<Request, Error>)
        requires
            kind_of(body) == route.body,
        ensures
            authorized_request(
                self.data,
                route.method,
                api_url(self.data.base@, expand(route.path@, id)) + query_string(pairs_view(query@)),
                body,
                route_checks_status(route.body),
                r,
            ),
    {
        let path = expand_path(route.path.as_str(), id);
        let q = build_query(query);
        let url = self.route("/api/v1/").concat(path.as_str()).concat(q.as_str());
        let checks_status = match route.body {
            BodyKind::Json | BodyKind::Multipart => true,
            BodyKind::Empty => false,
        };
        self.request(route.method, url, body, checks_status)
    }
}

} // verus!
