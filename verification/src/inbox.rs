//! The inbox endpoint: fetching message summaries for an inbox, with
//! optional pagination, sorting and subject-decoding query parameters.
//!
//! The query string is rendered exactly: present fields appear in
//! declaration order as `key=value` pairs joined by `&`, and absent fields
//! leave no trace. A request that renders no pair — whether it carries no
//! parameters or parameters whose every field is absent — has no `?` at
//! all.

use vstd::prelude::*;
use vstd::string::StringExecFns;
use crate::digits::{spec_dec, usize_to_dec};
use crate::json::{
    JsonV, JsonValue, parse_json_text, json_of_text, spec_req_str, spec_opt_str, spec_opt_u64,
    spec_req_arr, get_req_str, get_opt_str, get_opt_u64, get_req_arr, lemma_obj_view,
};
use crate::http::{HttpMethod, HttpPlan, RequestBody};

verus! {

/// The order message summaries come back in.
#[derive(Clone, Copy, Debug, PartialEq, Eq, Structural)]
pub enum Sorting {
    Ascending,
    Descending,
}

/// The wire word for a sort order.
pub open spec fn spec_sorting_str(s: Sorting) -> Seq<char> {
    match s {
        Sorting::Ascending => "ascending"@,
        Sorting::Descending => "descending"@,
    }
}

fn sorting_str(s: &Sorting) -> (r: &'static str)
    ensures
        r@ == spec_sorting_str(*s),
{
    match s {
        Sorting::Ascending => "ascending",
        Sorting::Descending => "descending",
    }
}

/// The optional query parameters of an inbox fetch.
#[derive(Clone, Copy, Debug)]
pub struct FetchInboxRequestQueryParams {
    pub skip: Option<usize>,
    pub limit: Option<usize>,
    pub sort: Option<Sorting>,
    pub decode_subject: Option<bool>,
}

impl DeepView for FetchInboxRequestQueryParams {
    type V = FetchInboxRequestQueryParams;

    open spec fn deep_view(&self) -> FetchInboxRequestQueryParams {
        *self
    }
}

/// The rendered `key=value` pairs of the present fields, in field order.
pub open spec fn spec_query_parts(q: FetchInboxRequestQueryParams) -> Seq<Seq<char>> {
    let a: Seq<Seq<char>> = if q.skip is Some {
        seq!["skip="@ + spec_dec(q.skip.unwrap() as nat)]
    } else {
        Seq::empty()
    };
    let b: Seq<Seq<char>> = if q.limit is Some {
        seq!["limit="@ + spec_dec(q.limit.unwrap() as nat)]
    } else {
        Seq::empty()
    };
    let c: Seq<Seq<char>> = if q.sort is Some {
        seq!["sort="@ + spec_sorting_str(q.sort.unwrap())]
    } else {
        Seq::empty()
    };
    let d: Seq<Seq<char>> = if q.decode_subject is Some {
        seq![
            "decode_subject="@ + if q.decode_subject.unwrap() {
                "true"@
            } else {
                "false"@
            },
        ]
    } else {
        Seq::empty()
    };
    a + b + c + d
}

/// Pieces joined with `&` between each two, nothing before or after.
pub open spec fn spec_amp_join(parts: Seq<Seq<char>>) -> Seq<char>
    decreases parts.len(),
{
    if parts.len() == 0 {
        Seq::empty()
    } else if parts.len() == 1 {
        parts[0]
    } else {
        parts[0] + "&"@ + spec_amp_join(parts.drop_first())
    }
}

/// The whole query string of the parameters.
pub open spec fn spec_query_string(q: FetchInboxRequestQueryParams) -> Seq<char> {
    spec_amp_join(spec_query_parts(q))
}

/// Joining one more piece appends a separator and the piece, except to
/// nothing.
proof fn lemma_amp_join_push(parts: Seq<Seq<char>>, x: Seq<char>)
    ensures
        spec_amp_join(parts.push(x)) == if parts.len() == 0 {
            x
        } else {
            spec_amp_join(parts) + "&"@ + x
        },
    decreases parts.len(),
{
    if parts.len() == 0 {
        assert(parts.push(x)[0] == x);
    } else {
        assert(parts.push(x)[0] == parts[0]);
        assert(parts.push(x).drop_first() =~= parts.drop_first().push(x));
        lemma_amp_join_push(parts.drop_first(), x);
        if parts.len() == 1 {
            assert(spec_amp_join(parts.push(x)) == parts[0] + "&"@ + x);
        } else {
            assert(spec_amp_join(parts) + "&"@ + x =~= parts[0] + "&"@ + (spec_amp_join(
                parts.drop_first(),
            ) + "&"@ + x));
        }
    }
}

fn amp_join(parts: &Vec<String>) -> (r: String)
    ensures
        r@ == spec_amp_join(parts.deep_view()),
{
    let ghost pv = parts.deep_view();
    if parts.len() == 0 {
        return String::new();
    }
    let mut s = parts[0].clone();
    proof {
        assert(pv.take(1) =~= seq![pv[0]]);
        assert(s@ == spec_amp_join(pv.take(1)));
    }
    let mut i: usize = 1;
    while i < parts.len()
        invariant
            1 <= i <= parts.len(),
            pv == parts.deep_view(),
            pv.len() == parts.len(),
            s@ == spec_amp_join(pv.take(i as int)),
        decreases parts.len() - i,
    {
        s.append("&");
        s.append(parts[i].as_str());
        proof {
            assert(pv.take(i as int + 1) =~= pv.take(i as int).push(pv[i as int]));
            lemma_amp_join_push(pv.take(i as int), pv[i as int]);
        }
        i = i + 1;
    }
    proof {
        assert(pv.take(parts.len() as int) =~= pv);
    }
    s
}

impl FetchInboxRequestQueryParams {
    /// Renders the query string: present fields in order, `&`-separated.
    pub fn to_query_string(&self) -> (r: String)
        ensures
            r@ == spec_query_string(*self),
    {
        let mut parts: Vec<String> = Vec::new();
        match self.skip {
            Some(v) => {
                let mut p = "skip=".to_owned();
                p.append(usize_to_dec(v).as_str());
                parts.push(p);
            },
            None => {},
        }
        match self.limit {
            Some(v) => {
                let mut p = "limit=".to_owned();
                p.append(usize_to_dec(v).as_str());
                parts.push(p);
            },
            None => {},
        }
        match &self.sort {
            Some(v) => {
                let mut p = "sort=".to_owned();
                p.append(sorting_str(v));
                parts.push(p);
            },
            None => {},
        }
        match self.decode_subject {
            Some(v) => {
                let mut p = "decode_subject=".to_owned();
                p.append(if v { "true" } else { "false" });
                parts.push(p);
            },
            None => {},
        }
        proof {
            assert(parts.deep_view() =~~= spec_query_parts(*self));
        }
        amp_join(&parts)
    }
}

#[derive(Clone, Copy, Debug)]
pub struct FetchInboxRequestQueryParamsBuilder {
    pub skip: Option<usize>,
    pub limit: Option<usize>,
    pub sort: Option<Sorting>,
    pub decode_subject: Option<bool>,
}

impl Default for FetchInboxRequestQueryParamsBuilder {
    fn default() -> (r: Self)
        ensures
            r.skip is None,
            r.limit is None,
            r.sort is None,
            r.decode_subject is None,
    {
        FetchInboxRequestQueryParamsBuilder {
            skip: None,
            limit: None,
            sort: None,
            decode_subject: None,
        }
    }
}

impl FetchInboxRequestQueryParamsBuilder {
    pub fn skip(self, value: Option<usize>) -> (r: Self)
        ensures
            r == (FetchInboxRequestQueryParamsBuilder { skip: value, ..self }),
    {
        FetchInboxRequestQueryParamsBuilder { skip: value, ..self }
    }

    pub fn limit(self, value: Option<usize>) -> (r: Self)
        ensures
            r == (FetchInboxRequestQueryParamsBuilder { limit: value, ..self }),
    {
        FetchInboxRequestQueryParamsBuilder { limit: value, ..self }
    }

    pub fn sort(self, value: Option<Sorting>) -> (r: Self)
        ensures
            r == (FetchInboxRequestQueryParamsBuilder { sort: value, ..self }),
    {
        FetchInboxRequestQueryParamsBuilder { sort: value, ..self }
    }

    pub fn decode_subject(self, value: Option<bool>) -> (r: Self)
        ensures
            r == (FetchInboxRequestQueryParamsBuilder { decode_subject: value, ..self }),
    {
        FetchInboxRequestQueryParamsBuilder { decode_subject: value, ..self }
    }

    /// Every field is optional; building always succeeds.
    pub fn build(self) -> (r: Result<FetchInboxRequestQueryParams, crate::api::BuildError>)
        ensures
            r is Ok,
            r.unwrap() == (FetchInboxRequestQueryParams {
                skip: self.skip,
                limit: self.limit,
                sort: self.sort,
                decode_subject: self.decode_subject,
            }),
    {
        Ok(
            FetchInboxRequestQueryParams {
                skip: self.skip,
                limit: self.limit,
                sort: self.sort,
                decode_subject: self.decode_subject,
            },
        )
    }
}

pub open spec fn spec_inbox_base_path(domain: Seq<char>, inbox: Seq<char>) -> Seq<char> {
    "/api/v2/domains/"@ + domain + "/inboxes/"@ + inbox
}

/// The inbox fetch path: the base path, plus `?` and the query string when
/// at least one parameter pair renders. When no pair renders — no
/// parameters at all, or parameters whose every field is absent — the path
/// is the bare base path, with no `?`.
pub open spec fn spec_fetch_inbox_path(
    domain: Seq<char>,
    inbox: Seq<char>,
    query_params: Option<FetchInboxRequestQueryParams>,
) -> Seq<char> {
    match query_params {
        None => spec_inbox_base_path(domain, inbox),
        Some(q) => if spec_query_parts(q).len() == 0 {
            spec_inbox_base_path(domain, inbox)
        } else {
            spec_inbox_base_path(domain, inbox) + "?"@ + spec_query_string(q)
        },
    }
}

/// Names the inbox whose message summaries are fetched.
#[derive(Debug, Clone)]
pub struct FetchInboxRequest {
    pub domain: String,
    pub inbox: String,
    pub query_params: Option<FetchInboxRequestQueryParams>,
}

impl FetchInboxRequest {
    pub fn as_url_path(self) -> (r: String)
        ensures
            r@ == spec_fetch_inbox_path(self.domain@, self.inbox@, self.query_params),
    {
        let mut s = "/api/v2/domains/".to_owned();
        s.append(self.domain.as_str());
        s.append("/inboxes/");
        s.append(self.inbox.as_str());
        match &self.query_params {
            Some(q) => {
                if q.skip.is_some() || q.limit.is_some() || q.sort.is_some()
                    || q.decode_subject.is_some() {
                    s.append("?");
                    s.append(q.to_query_string().as_str());
                }
            },
            None => {},
        }
        s
    }
}

#[derive(Debug, Clone)]
pub struct FetchInboxRequestBuilder {
    pub domain: Option<String>,
    pub inbox: Option<String>,
    pub query_params: Option<FetchInboxRequestQueryParams>,
}

impl Default for FetchInboxRequestBuilder {
    fn default() -> (r: Self)
        ensures
            r.domain is None,
            r.inbox is None,
            r.query_params is None,
    {
        FetchInboxRequestBuilder { domain: None, inbox: None, query_params: None }
    }
}

impl FetchInboxRequestBuilder {
    pub fn domain(self, value: String) -> (r: Self)
        ensures
            r.domain == Some(value),
            r.inbox == self.inbox,
            r.query_params == self.query_params,
    {
        FetchInboxRequestBuilder { domain: Some(value), ..self }
    }

    pub fn inbox(self, value: String) -> (r: Self)
        ensures
            r.inbox == Some(value),
            r.domain == self.domain,
            r.query_params == self.query_params,
    {
        FetchInboxRequestBuilder { inbox: Some(value), ..self }
    }

    pub fn query_params(self, value: Option<FetchInboxRequestQueryParams>) -> (r: Self)
        ensures
            r.query_params == value,
            r.domain == self.domain,
            r.inbox == self.inbox,
    {
        FetchInboxRequestBuilder { query_params: value, ..self }
    }

    /// Domain and inbox are required; the query parameters stay optional.
    pub fn build(self) -> (r: Result<FetchInboxRequest, crate::api::BuildError>)
        ensures
            match r {
                Ok(q) => {
                    &&& self.domain is Some
                    &&& self.inbox is Some
                    &&& q.domain == self.domain.unwrap()
                    &&& q.inbox == self.inbox.unwrap()
                    &&& q.query_params == self.query_params
                },
                Err(e) => e == crate::api::BuildError::UninitializedField && (self.domain is None
                    || self.inbox is None),
            },
    {
        let FetchInboxRequestBuilder { domain, inbox, query_params } = self;
        match (domain, inbox) {
            (Some(d), Some(ibx)) => Ok(
                FetchInboxRequest { domain: d, inbox: ibx, query_params },
            ),
            _ => Err(crate::api::BuildError::UninitializedField),
        }
    }
}

/// One message summary of an inbox listing; the API may omit any field.
#[derive(Debug, Clone)]
pub struct Msg {
    pub subject: Option<String>,
    pub domain: Option<String>,
    pub from: Option<String>,
    pub id: Option<String>,
    pub to: Option<String>,
    pub time: Option<u64>,
    pub seconds_ago: Option<u64>,
}

#[verifier::ext_equal]
pub struct MsgView {
    pub subject: Option<Seq<char>>,
    pub domain: Option<Seq<char>>,
    pub from: Option<Seq<char>>,
    pub id: Option<Seq<char>>,
    pub to: Option<Seq<char>>,
    pub time: Option<u64>,
    pub seconds_ago: Option<u64>,
}

impl DeepView for Msg {
    type V = MsgView;

    open spec fn deep_view(&self) -> MsgView {
        MsgView {
            subject: self.subject.deep_view(),
            domain: self.domain.deep_view(),
            from: self.from.deep_view(),
            id: self.id.deep_view(),
            to: self.to.deep_view(),
            time: self.time,
            seconds_ago: self.seconds_ago,
        }
    }
}

/// The summary a document decodes to: every field optional, strings and
/// unsigned numbers only.
pub open spec fn spec_msg_from_json(j: JsonV) -> Option<MsgView> {
    match j {
        JsonV::Obj(fields) => {
            let subject = spec_opt_str(fields, "subject"@);
            let domain = spec_opt_str(fields, "domain"@);
            let from = spec_opt_str(fields, "from"@);
            let id = spec_opt_str(fields, "id"@);
            let to = spec_opt_str(fields, "to"@);
            let time = spec_opt_u64(fields, "time"@);
            let seconds_ago = spec_opt_u64(fields, "seconds_ago"@);
            if subject is Some && domain is Some && from is Some && id is Some && to is Some
                && time is Some && seconds_ago is Some {
                Some(
                    MsgView {
                        subject: subject.unwrap(),
                        domain: domain.unwrap(),
                        from: from.unwrap(),
                        id: id.unwrap(),
                        to: to.unwrap(),
                        time: time.unwrap(),
                        seconds_ago: seconds_ago.unwrap(),
                    },
                )
            } else {
                None
            }
        },
        _ => None,
    }
}

impl Msg {
    pub fn from_json(j: &JsonValue) -> (r: Option<Msg>)
        ensures
            r.deep_view() == spec_msg_from_json(j.deep_view()),
    {
        match j {
            JsonValue::Obj(fields) => {
                proof {
                    lemma_obj_view(*fields);
                }
                let subject = match get_opt_str(fields, "subject") {
                    Some(x) => x,
                    None => {
                        return None;
                    },
                };
                let domain = match get_opt_str(fields, "domain") {
                    Some(x) => x,
                    None => {
                        return None;
                    },
                };
                let from = match get_opt_str(fields, "from") {
                    Some(x) => x,
                    None => {
                        return None;
                    },
                };
                let id = match get_opt_str(fields, "id") {
                    Some(x) => x,
                    None => {
                        return None;
                    },
                };
                let to = match get_opt_str(fields, "to") {
                    Some(x) => x,
                    None => {
                        return None;
                    },
                };
                let time = match get_opt_u64(fields, "time") {
                    Some(x) => x,
                    None => {
                        return None;
                    },
                };
                let seconds_ago = match get_opt_u64(fields, "seconds_ago") {
                    Some(x) => x,
                    None => {
                        return None;
                    },
                };
                Some(Msg { subject, domain, from, id, to, time, seconds_ago })
            },
            _ => None,
        }
    }
}

/// The inbox listing the endpoint answers with.
#[derive(Debug, Clone)]
pub struct FetchInboxResponse {
    pub domain: String,
    pub to: String,
    pub msgs: Vec<Msg>,
}

#[verifier::ext_equal]
pub struct FetchInboxResponseView {
    pub domain: Seq<char>,
    pub to: Seq<char>,
    pub msgs: Seq<MsgView>,
}

impl DeepView for FetchInboxResponse {
    type V = FetchInboxResponseView;

    open spec fn deep_view(&self) -> FetchInboxResponseView {
        FetchInboxResponseView {
            domain: self.domain.deep_view(),
            to: self.to.deep_view(),
            msgs: self.msgs.deep_view(),
        }
    }
}

pub open spec fn spec_msgs_from_json(items: Seq<JsonV>) -> Option<Seq<MsgView>> {
    if forall|i: int| 0 <= i < items.len() ==> (#[trigger] spec_msg_from_json(items[i])) is Some {
        Some(items.map_values(|x: JsonV| spec_msg_from_json(x).unwrap()))
    } else {
        None
    }
}

proof fn lemma_msgs_from_json_some(s: Seq<JsonV>)
    requires
        forall|i: int| 0 <= i < s.len() ==> (#[trigger] spec_msg_from_json(s[i])) is Some,
    ensures
        spec_msgs_from_json(s) is Some,
        spec_msgs_from_json(s).unwrap().len() == s.len(),
        forall|k: int|
            0 <= k < s.len() ==> #[trigger] spec_msgs_from_json(s).unwrap()[k]
                == spec_msg_from_json(s[k]).unwrap(),
{
}

fn msgs_from_json(items: &Vec<JsonValue>) -> (r: Option<Vec<Msg>>)
    ensures
        r.deep_view() == spec_msgs_from_json(items.deep_view()),
{
    let ghost iv = items.deep_view();
    let mut out: Vec<Msg> = Vec::new();
    proof {
        lemma_msgs_from_json_some(iv.take(0));
        assert(spec_msgs_from_json(iv.take(0)).unwrap() =~~= out.deep_view());
    }
    let mut i: usize = 0;
    while i < items.len()
        invariant
            0 <= i <= items.len(),
            iv == items.deep_view(),
            iv.len() == items.len(),
            spec_msgs_from_json(iv.take(i as int)) == Some(out.deep_view()),
        decreases items.len() - i,
    {
        proof {
            assert(iv[i as int] == items@[i as int].deep_view());
        }
        match Msg::from_json(&items[i]) {
            Some(x) => {
                let ghost pre = out.deep_view();
                out.push(x);
                proof {
                    assert forall|j: int| 0 <= j < i + 1 implies (#[trigger] spec_msg_from_json(
                        iv.take(i as int + 1)[j],
                    )) is Some by {
                        assert(iv.take(i as int + 1)[j] == iv[j]);
                        if j < i {
                            assert(spec_msgs_from_json(iv.take(i as int)) is Some);
                            assert(spec_msg_from_json(iv.take(i as int)[j]) is Some);
                        }
                    }
                    lemma_msgs_from_json_some(iv.take(i as int));
                    lemma_msgs_from_json_some(iv.take(i as int + 1));
                    let next = spec_msgs_from_json(iv.take(i as int + 1));
                    assert(out.deep_view() =~~= pre.push(x.deep_view()));
                    assert(next.unwrap() =~~= out.deep_view());
                    assert(next == Some(out.deep_view()));
                }
            },
            None => {
                proof {
                    assert(spec_msg_from_json(iv[i as int]) is None);
                }
                return None;
            },
        }
        i = i + 1;
    }
    proof {
        assert(iv.take(items.len() as int) =~= iv);
    }
    Some(out)
}

/// The listing a document decodes to: `domain` and `to` are required
/// strings, `msgs` a required array of well-formed summaries.
pub open spec fn spec_fetch_inbox_response_from_json(j: JsonV) -> Option<FetchInboxResponseView> {
    match j {
        JsonV::Obj(fields) => {
            let domain = spec_req_str(fields, "domain"@);
            let to = spec_req_str(fields, "to"@);
            let msgs = match spec_req_arr(fields, "msgs"@) {
                Some(items) => spec_msgs_from_json(items),
                None => None,
            };
            if domain is Some && to is Some && msgs is Some {
                Some(
                    FetchInboxResponseView {
                        domain: domain.unwrap(),
                        to: to.unwrap(),
                        msgs: msgs.unwrap(),
                    },
                )
            } else {
                None
            }
        },
        _ => None,
    }
}

pub open spec fn spec_fetch_inbox_response_from_text(s: Seq<char>) -> Option<
    FetchInboxResponseView,
> {
    match json_of_text(s) {
        Some(j) => spec_fetch_inbox_response_from_json(j),
        None => None,
    }
}

impl FetchInboxResponse {
    pub fn from_json(j: &JsonValue) -> (r: Option<FetchInboxResponse>)
        ensures
            r.deep_view() == spec_fetch_inbox_response_from_json(j.deep_view()),
    {
        match j {
            JsonValue::Obj(fields) => {
                proof {
                    lemma_obj_view(*fields);
                }
                let domain = match get_req_str(fields, "domain") {
                    Some(x) => x,
                    None => {
                        return None;
                    },
                };
                let to = match get_req_str(fields, "to") {
                    Some(x) => x,
                    None => {
                        return None;
                    },
                };
                let msgs = match get_req_arr(fields, "msgs") {
                    Some(items) => match msgs_from_json(items) {
                        Some(ms) => ms,
                        None => {
                            return None;
                        },
                    },
                    None => {
                        return None;
                    },
                };
                Some(FetchInboxResponse { domain, to, msgs })
            },
            _ => None,
        }
    }

    /// Decodes an inbox listing from a response body.
    pub fn from_text(body: &str) -> (r: Option<FetchInboxResponse>)
        ensures
            r.deep_view() == spec_fetch_inbox_response_from_text(body@),
    {
        match parse_json_text(body) {
            Some(j) => Self::from_json(&j),
            None => None,
        }
    }
}

/// Plans fetching an inbox's message summaries.
pub fn fetch_inbox(request: FetchInboxRequest) -> (p: HttpPlan)
    ensures
        p.method == HttpMethod::Get,
        p.path@ == spec_fetch_inbox_path(request.domain@, request.inbox@, request.query_params),
        p.body is Empty,
{
    let path = request.as_url_path();
    HttpPlan { method: HttpMethod::Get, path, body: RequestBody::Empty }
}

} // verus!