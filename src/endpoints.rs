//! The operations of the client that take their own arguments: timelines,
//! account statuses, relationships, search, posting and profile updates.
use vstd::prelude::*;
use vstd::string::*;
use crate::error::Error;
use crate::session::{
    Body, Mastodon, Method, Param, Part, Request, authorized_call, authorized_request,
    build_query, pairs_view, query_string,
};
use crate::text::{decimal, decimal_string};

verus! {

/// The visibility of a status.
#[derive(Clone, Copy, Debug, PartialEq, Eq, Structural)]
pub enum Visibility {
    Direct,
    Private,
    Unlisted,
    Public,
}

/// The name a visibility is sent under.
pub open spec fn visibility_name(v: Visibility) -> Seq<char> {
    match v {
        Visibility::Direct => "direct"@,
        Visibility::Private => "private"@,
        Visibility::Unlisted => "unlisted"@,
        Visibility::Public => "public"@,
    }
}

fn visibility_text(v: Visibility) -> (r: String)
    ensures
        r@ == visibility_name(v),
{
    match v {
        Visibility::Direct => String::from_str("direct"),
        Visibility::Private => String::from_str("private"),
        Visibility::Unlisted => String::from_str("unlisted"),
        Visibility::Public => String::from_str("public"),
    }
}

/// A status to post.
#[derive(Clone, Debug, PartialEq)]
pub struct StatusBuilder {
    pub status: String,
    pub in_reply_to_id: Option<u64>,
    pub media_ids: Option<Vec<u64>>,
    pub sensitive: Option<bool>,
    pub spoiler_text: Option<String>,
    pub visibility: Option<Visibility>,
}

/// Changes to the account's profile; the images are given by file path.
#[derive(Clone, Debug, PartialEq)]
pub struct CredientialsBuilder {
    pub display_name: Option<String>,
    pub note: Option<String>,
    pub avatar: Option<String>,
    pub header: Option<String>,
}

/// The mathematical value of a JSON body member.
pub enum ParamView {
    Text(Seq<char>),
    Number(u64),
    Numbers(Seq<u64>),
    Flag(bool),
}

/// The view of a JSON body member.
pub open spec fn param_view(p: Param) -> ParamView {
    match p {
        Param::Text(s) => ParamView::Text(s@),
        Param::Number(n) => ParamView::Number(n),
        Param::Numbers(v) => ParamView::Numbers(v@),
        Param::Flag(b) => ParamView::Flag(b),
    }
}

/// The views of the members of a JSON body.
pub open spec fn members_view(m: Seq<(String, Param)>) -> Seq<(Seq<char>, ParamView)> {
    m.map_values(|p: (String, Param)| (p.0@, param_view(p.1)))
}

/// The members of a status, in order, each optional one only where given.
pub open spec fn status_members(s: StatusBuilder) -> Seq<(Seq<char>, ParamView)> {
    seq![("status"@, ParamView::Text(s.status@))]
        + match s.in_reply_to_id {
            Some(n) => seq![("in_reply_to_id"@, ParamView::Number(n))],
            None => Seq::empty(),
        }
        + match s.media_ids {
            Some(v) => seq![("media_ids"@, ParamView::Numbers(v@))],
            None => Seq::empty(),
        }
        + match s.sensitive {
            Some(b) => seq![("sensitive"@, ParamView::Flag(b))],
            None => Seq::empty(),
        }
        + match s.spoiler_text {
            Some(t) => seq![("spoiler_text"@, ParamView::Text(t@))],
            None => Seq::empty(),
        }
        + match s.visibility {
            Some(v) => seq![("visibility"@, ParamView::Text(visibility_name(v)))],
            None => Seq::empty(),
        }
}

/// The mathematical value of a multipart part.
pub enum PartView {
    Text(Seq<char>, Seq<char>),
    File(Seq<char>, Seq<char>),
}

/// The views of the parts of a multipart form.
pub open spec fn parts_view(p: Seq<Part>) -> Seq<PartView> {
    p.map_values(
        |q: Part|
            match q {
                Part::Text(n, v) => PartView::Text(n@, v@),
                Part::File(n, f) => PartView::File(n@, f@),
            },
    )
}

/// The parts of a profile update, in order, each only where given.
pub open spec fn credential_parts(c: CredientialsBuilder) -> Seq<PartView> {
    (match c.display_name {
        Some(t) => seq![PartView::Text("display_name"@, t@)],
        None => Seq::empty(),
    }) + match c.note {
        Some(t) => seq![PartView::Text("note"@, t@)],
        None => Seq::empty(),
    } + match c.avatar {
        Some(f) => seq![PartView::File("avatar"@, f@)],
        None => Seq::empty(),
    } + match c.header {
        Some(f) => seq![PartView::File("header"@, f@)],
        None => Seq::empty(),
    }
}

/// The `local=1` filter where asked for.
pub open spec fn local_filter(local: bool) -> Seq<char> {
    if local {
        "?local=1"@
    } else {
        Seq::empty()
    }
}

/// The read filters of an account's statuses, in order.
pub open spec fn statuses_filters(
    only_media: bool,
    exclude_replies: bool,
    since_id: Option<u64>,
    max_id: Option<u64>,
) -> Seq<(Seq<char>, Seq<char>)> {
    (if only_media {
        seq![("only_media"@, "1"@)]
    } else {
        Seq::empty()
    }) + (if exclude_replies {
        seq![("exclude_replies"@, "1"@)]
    } else {
        Seq::empty()
    }) + match since_id {
        Some(n) => seq![("since_id"@, decimal(n as nat))],
        None => Seq::empty(),
    } + match max_id {
        Some(n) => seq![("max_id"@, decimal(n as nat))],
        None => Seq::empty(),
    }
}

/// `id[]=a&id[]=b...` for two or more ids.
pub open spec fn id_list(ids: Seq<u64>) -> Seq<char>
    decreases ids.len(),
{
    if ids.len() <= 1 {
        if ids.len() == 0 {
            Seq::empty()
        } else {
            "id[]="@ + decimal(ids[0] as nat)
        }
    } else {
        id_list(ids.drop_last()) + "&id[]="@ + decimal(ids.last() as nat)
    }
}

/// The query of a relationships lookup: nothing for no ids, `?id=n` for one,
/// `?id[]=a&id[]=b...` for more.
pub open spec fn relationship_query(ids: Seq<u64>) -> Seq<char> {
    if ids.len() == 0 {
        Seq::empty()
    } else if ids.len() == 1 {
        "?id="@ + decimal(ids[0] as nat)
    } else {
        "?"@ + id_list(ids)
    }
}

impl Mastodon {
    /// Gets the federated timeline for the instance, or the local one.
    pub fn get_public_timeline(&self, local: bool) -> (r: Result<Request, Error>)
        ensures
            authorized_request(
                self.data,
                Method::Get,
                self.data.base@ + "/api/v1/timelines/public"@ + local_filter(local),
                Body::Empty,
                false,
                r,
            ),
    {
        let mut url = self.route("/api/v1/timelines/public");
        if local {
            url.append("?local=1");
        } else {
            proof { reveal_strlit(""); }
            assert(url@ + Seq::<char>::empty() =~= url@);
        }
        self.request(Method::Get, url, Body::Empty, false)
    }

    /// Gets the timeline of a hashtag (eg. `coffee`), locally or federated.
    pub fn get_tagged_timeline(&self, hashtag: String, local: bool) -> (r: Result<Request, Error>)
        ensures
            authorized_request(
                self.data,
                Method::Get,
                self.data.base@ + "/api/v1/timelines/tag/"@ + hashtag@ + local_filter(local),
                Body::Empty,
                false,
                r,
            ),
    {
        let mut url = self.route("/api/v1/timelines/tag/");
        url.append(hashtag.as_str());
        if local {
            url.append("?local=1");
        } else {
            assert(url@ + Seq::<char>::empty() =~= url@);
        }
        self.request(Method::Get, url, Body::Empty, false)
    }

    /// Gets the statuses of one account, optionally only those with media,
    /// without replies, or within an id range.
    pub fn statuses(
        &self,
        id: u64,
        only_media: bool,
        exclude_replies: bool,
        since_id: Option<u64>,
        max_id: Option<u64>,
    ) -> (r: Result<Request, Error>)
        ensures
            authorized_request(
                self.data,
                Method::Get,
                self.data.base@ + "/api/v1/accounts/"@ + decimal(id as nat) + "/statuses"@
                    + query_string(statuses_filters(only_media, exclude_replies, since_id, max_id)),
                Body::Empty,
                false,
                r,
            ),
    {
        let mut params: Vec<(String, String)> = Vec::new();
        let ghost spec_params = statuses_filters(only_media, exclude_replies, since_id, max_id);
        if only_media {
            params.push((String::from_str("only_media"), String::from_str("1")));
        }
        if exclude_replies {
            params.push((String::from_str("exclude_replies"), String::from_str("1")));
        }
        if let Some(n) = since_id {
            params.push((String::from_str("since_id"), decimal_string(n)));
        }
        if let Some(n) = max_id {
            params.push((String::from_str("max_id"), decimal_string(n)));
        }
        assert(pairs_view(params@) =~= spec_params);
        let mut url = self.route("/api/v1/accounts/");
        let d = decimal_string(id);
        url.append(d.as_str());
        url.append("/statuses");
        let q = build_query(&params);
        url.append(q.as_str());
        self.request(Method::Get, url, Body::Empty, false)
    }

    /// Gets the account's relationships to the accounts of `ids`.
    pub fn relationships(&self, ids: &[u64]) -> (r: Result<Request, Error>)
        ensures
            authorized_request(
                self.data,
                Method::Get,
                self.data.base@ + "/api/v1/accounts/relationships"@ + relationship_query(ids@),
                Body::Empty,
                false,
                r,
            ),
    {
        let mut url = self.route("/api/v1/accounts/relationships");
        let ghost start = url@;
        if ids.len() == 1 {
            url.append("?id=");
            let d = decimal_string(ids[0]);
            url.append(d.as_str());
            assert(url@ =~= start + relationship_query(ids@));
        } else if ids.len() > 1 {
            url.append("?");
            let mut i: usize = 0;
            proof {
                reveal_strlit("");
                assert(id_list(ids@.subrange(0, 0)) =~= Seq::<char>::empty());
                assert(url@ =~= start + "?"@ + id_list(ids@.subrange(0, 0)));
            }
            while i < ids.len()
                invariant
                    i <= ids@.len(),
                    ids@.len() > 1,
                    url@ == start + "?"@ + id_list(ids@.subrange(0, i as int)),
                decreases ids@.len() - i,
            {
                let ghost before = url@;
                let d = decimal_string(ids[i]);
                if i > 0 {
                    url.append("&id[]=");
                } else {
                    url.append("id[]=");
                }
                url.append(d.as_str());
                proof {
                    let next = ids@.subrange(0, i + 1);
                    assert(next.drop_last() =~= ids@.subrange(0, i as int));
                    assert(next.last() == ids@[i as int]);
                    if i == 0 {
                        assert(next[0] == ids@[0]);
                        assert(id_list(next) == "id[]="@ + decimal(ids@[0] as nat));
                    }
                    assert(url@ =~= start + "?"@ + id_list(next));
                }
                i = i + 1;
            }
            assert(ids@.subrange(0, ids@.len() as int) =~= ids@);
            assert(url@ =~= start + relationship_query(ids@));
        } else {
            assert(url@ =~= start + relationship_query(ids@));
        }
        self.request(Method::Get, url, Body::Empty, false)
    }

    /// Searches for accounts by name; the query is sent as given.
    pub fn search_accounts(&self, query: &str) -> (r: Result<Request, Error>)
        ensures
            authorized_request(
                self.data,
                Method::Get,
                self.data.base@ + "/api/v1/accounts/search?q="@ + query@,
                Body::Empty,
                false,
                r,
            ),
    {
        let mut url = self.route("/api/v1/accounts/search?q=");
        url.append(query);
        self.request(Method::Get, url, Body::Empty, false)
    }

    /// Posts a new status to the account. The answer's body decides the
    /// result whatever its status.
    pub fn new_status(&self, status: StatusBuilder) -> (r: Result<Request, Error>)
        ensures
            authorized_call(self.data, Method::Post, self.data.base@ + "/api/v1/statuses"@, false, r),
            r matches Ok(q) ==> !q.checks_status,
            r matches Ok(q) ==> (q.body matches Body::Json(m) && members_view(m@) == status_members(status)),
    {
        let ghost original = status;
        let StatusBuilder { status, in_reply_to_id, media_ids, sensitive, spoiler_text, visibility } =
            status;
        let mut members: Vec<(String, Param)> = Vec::new();
        members.push((String::from_str("status"), Param::Text(status)));
        if let Some(n) = in_reply_to_id {
            members.push((String::from_str("in_reply_to_id"), Param::Number(n)));
        }
        if let Some(v) = media_ids {
            members.push((String::from_str("media_ids"), Param::Numbers(v)));
        }
        if let Some(b) = sensitive {
            members.push((String::from_str("sensitive"), Param::Flag(b)));
        }
        if let Some(t) = spoiler_text {
            members.push((String::from_str("spoiler_text"), Param::Text(t)));
        }
        if let Some(v) = visibility {
            members.push((String::from_str("visibility"), Param::Text(visibility_text(v))));
        }
        assert(members_view(members@) =~= status_members(original));
        let url = self.route("/api/v1/statuses");
        self.request(Method::Post, url, Body::Json(members), false)
    }

    /// Updates the account's profile with the given changes. A 4xx or 5xx
    /// answer decides the result before its body.
    pub fn update_credentials(&self, changes: CredientialsBuilder) -> (r: Result<Request, Error>)
        ensures
            authorized_call(
                self.data,
                Method::Patch,
                self.data.base@ + "/api/v1/accounts/update_credentials"@,
                true,
                r,
            ),
            r matches Ok(q) ==> q.checks_status,
            r matches Ok(q) ==> (q.body matches Body::Multipart(p) && parts_view(p@) == credential_parts(changes)),
    {
        let ghost original = changes;
        let CredientialsBuilder { display_name, note, avatar, header } = changes;
        let mut parts: Vec<Part> = Vec::new();
        if let Some(t) = display_name {
            parts.push(Part::Text(String::from_str("display_name"), t));
        }
        if let Some(t) = note {
            parts.push(Part::Text(String::from_str("note"), t));
        }
        if let Some(f) = avatar {
            parts.push(Part::File(String::from_str("avatar"), f));
        }
        if let Some(f) = header {
            parts.push(Part::File(String::from_str("header"), f));
        }
        assert(parts_view(parts@) =~= credential_parts(original));
        let url = self.route("/api/v1/accounts/update_credentials");
        self.request(Method::Patch, url, Body::Multipart(parts), true)
    }
}

} // verus!
