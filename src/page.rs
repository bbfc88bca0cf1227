//! Walking a list endpoint page by page, following the `next` and `prev`
//! links of each response's `Link` header.
use vstd::prelude::*;
use vstd::string::*;
use crate::error::Error;
use crate::session::{Body, Mastodon, Method, Request, authorized_request};
use crate::text::{contains_within, find_char, find_from, lemma_find_from_bounds, occurs_within};

verus! {

/// The end of the link entry whose parameters start at `from`: the next
/// comma, or the end of the header.
pub open spec fn entry_end(h: Seq<char>, from: int) -> int {
    match find_from(h, ',', from) {
        Some(c) => c,
        None => h.len() as int,
    }
}

/// The target of the first link entry at or after position `i` of the
/// header `h` whose parameters hold `param`. An entry is `<target>`
/// followed by parameters up to the next comma.
pub open spec fn link_with(h: Seq<char>, param: Seq<char>, i: int) -> Option<Seq<char>>
    decreases h.len() - i,
    via link_with_decreases
{
    match find_from(h, '<', i) {
        None => None,
        Some(a) => match find_from(h, '>', a + 1) {
            None => None,
            Some(b) => {
                let end = entry_end(h, b + 1);
                if occurs_within(h, param, b + 1, end) {
                    Some(h.subrange(a + 1, b))
                } else if end < h.len() {
                    link_with(h, param, end + 1)
                } else {
                    None
                }
            },
        },
    }
}

#[via_fn]
proof fn link_with_decreases(h: Seq<char>, param: Seq<char>, i: int) {
    lemma_find_from_bounds(h, '<', i);
    if let Some(a) = find_from(h, '<', i) {
        lemma_find_from_bounds(h, '>', a + 1);
        if let Some(b) = find_from(h, '>', a + 1) {
            lemma_find_from_bounds(h, ',', b + 1);
        }
    }
}

/// The parameter that marks a link of relation `rel`.
pub open spec fn rel_param(rel: Seq<char>) -> Seq<char> {
    "rel=\""@ + rel + "\""@
}

/// The target of the first link of relation `rel` in the `Link` header `h`.
pub open spec fn rel_link(h: Seq<char>, rel: Seq<char>) -> Option<Seq<char>> {
    link_with(h, rel_param(rel), 0)
}

/// The view of an optional string.
pub open spec fn opt_view(o: Option<String>) -> Option<Seq<char>> {
    crate::error::opt_view(o)
}

/// Finds the target of the first link of relation `rel` in a `Link`
/// header value.
pub fn find_rel_link(header: &str, rel: &str) -> (r: Option<String>)
    ensures
        opt_view(r) == rel_link(header@, rel@),
{
    let param = String::from_str("rel=\"").concat(rel).concat("\"");
    let n = header.unicode_len();
    let mut i: usize = 0;
    loop
        invariant
            n == header@.len(),
            param@ == rel_param(rel@),
            i <= n,
            link_with(header@, param@, i as int) == rel_link(header@, rel@),
        decreases n - i,
    {
        let a = match find_char(header, '<', i) {
            Some(a) => a,
            None => return None,
        };
        proof { lemma_find_from_bounds(header@, '<', i as int); }
        let b = match find_char(header, '>', a + 1) {
            Some(b) => b,
            None => return None,
        };
        proof { lemma_find_from_bounds(header@, '>', a + 1); }
        let end = match find_char(header, ',', b + 1) {
            Some(c) => c,
            None => n,
        };
        proof { lemma_find_from_bounds(header@, ',', b + 1); }
        if contains_within(header, param.as_str(), b + 1, end) {
            return Some(String::from_str(header.substring_char(a + 1, b)));
        }
        if end < n {
            i = end + 1;
        } else {
            return None;
        }
    }
}

proof fn lemma_find_first(s: Seq<char>, c: char, i: int, p: int)
    requires
        0 <= i <= p < s.len(),
        s[p] == c,
        forall|j: int| i <= j < p ==> s[j] != c,
    ensures
        find_from(s, c, i) == Some(p),
    decreases p - i,
{
    if i < p {
        lemma_find_first(s, c, i + 1, p);
    }
}

proof fn lemma_find_none(s: Seq<char>, c: char, i: int)
    requires
        0 <= i,
        forall|j: int| i <= j < s.len() ==> s[j] != c,
    ensures
        find_from(s, c, i) is None,
    decreases s.len() - i,
{
    if i < s.len() {
        lemma_find_none(s, c, i + 1);
    }
}

/// The `Link` header of one entry, `<url>; rel="rel"`.
pub open spec fn single_link(url: Seq<char>, rel: Seq<char>) -> Seq<char> {
    seq!['<'] + url + ">; "@ + rel_param(rel)
}

/// A header whose one entry links `url` with relation `rel` exposes exactly
/// `url` as the link of that relation, where `url` holds no `>` and `rel` no
/// comma.
pub proof fn lemma_single_link(url: Seq<char>, rel: Seq<char>)
    requires
        forall|j: int| 0 <= j < url.len() ==> url[j] != '>',
        forall|j: int| 0 <= j < rel.len() ==> rel[j] != ',',
    ensures
        rel_link(single_link(url, rel), rel) == Some(url),
{
    reveal_strlit(">; ");
    reveal_strlit("rel=\"");
    reveal_strlit("\"");
    let h = single_link(url, rel);
    let param = rel_param(rel);
    let b = url.len() as int + 1;
    assert(h[0] == '<');
    lemma_find_first(h, '<', 0, 0);
    assert forall|j: int| 1 <= j < b implies h[j] != '>' by {
        assert(h[j] == url[j - 1]);
    }
    assert(h[b] == '>');
    lemma_find_first(h, '>', 1, b);
    assert(h.len() == b + 3 + param.len());
    assert forall|j: int| b + 1 <= j < h.len() implies h[j] != ',' by {
        if j >= b + 3 + 5 && j < b + 3 + 5 + rel.len() {
            assert(h[j] == rel[j - b - 8]);
        }
    }
    lemma_find_none(h, ',', b + 1);
    assert(h.subrange(b + 3, b + 3 + param.len()) =~= param);
    assert(occurs_within(h, param, b + 1, h.len() as int));
    assert(h.subrange(1, b) =~= url);
}

/// One page of a list endpoint: its items, in the server's order, and the
/// links to the next and previous pages where the response gave them.
#[derive(Clone, Debug)]
pub struct Page<T> {
    pub items: Vec<T>,
    pub next: Option<String>,
    pub prev: Option<String>,
}

impl<T> Page<T> {
    /// Builds a page from the resolved items of a response and the value of
    /// its `Link` header, if it had one; a failure is passed on.
    pub fn from_response(items: Result<Vec<T>, Error>, link: Option<&str>) -> (r: Result<Page<T>, Error>)
        ensures
            match items {
                Err(e) => r == Err::<Page<T>, Error>(e),
                Ok(v) => match r {
                    Ok(p) => p.items == v && match link {
                        Some(h) => opt_view(p.next) == rel_link(h@, "next"@) && opt_view(p.prev)
                            == rel_link(h@, "prev"@),
                        None => p.next is None && p.prev is None,
                    },
                    Err(_) => false,
                },
            },
    {
        let items = match items {
            Ok(v) => v,
            Err(e) => return Err(e),
        };
        match link {
            Some(h) => {
                let next = find_rel_link(h, "next");
                let prev = find_rel_link(h, "prev");
                Ok(Page { items, next, prev })
            },
            None => Ok(Page { items, next: None, prev: None }),
        }
    }

    /// The request for the next page: none at the end of the results,
    /// else an authenticated GET of exactly the `next` link.
    pub fn next_page(&self, client: &Mastodon) -> (r: Result<Option<Request>, Error>)
        ensures
            match self.next {
                None => r == Ok::<Option<Request>, Error>(None),
                Some(u) => follows(client, u, r),
            },
    {
        match &self.next {
            None => Ok(None),
            Some(u) => follow(client, u),
        }
    }

    /// The request for the previous page: none at the start of the results,
    /// else an authenticated GET of exactly the `prev` link.
    pub fn prev_page(&self, client: &Mastodon) -> (r: Result<Option<Request>, Error>)
        ensures
            match self.prev {
                None => r == Ok::<Option<Request>, Error>(None),
                Some(u) => follows(client, u, r),
            },
    {
        match &self.prev {
            None => Ok(None),
            Some(u) => follow(client, u),
        }
    }
}

/// Whether `r` is the authenticated GET of exactly `url`, or the failure
/// of a record without a token.
pub open spec fn follows(client: &Mastodon, url: String, r: Result<Option<Request>, Error>) -> bool {
    match r {
        Ok(Some(q)) => authorized_request(client.data, Method::Get, url@, Body::Empty, false, Ok(q)),
        Ok(None) => false,
        Err(e) => authorized_request(client.data, Method::Get, url@, Body::Empty, false, Err(e)),
    }
}

fn follow(client: &Mastodon, url: &String) -> (r: Result<Option<Request>, Error>)
    ensures
        follows(client, *url, r),
{
    match client.request(Method::Get, url.clone(), Body::Empty, false) {
        Ok(q) => Ok(Some(q)),
        Err(e) => Err(e),
    }
}

} // verus!
