//! The links endpoint: every link found within a given message.

use vstd::prelude::*;
use vstd::string::StringExecFns;
use crate::json::{
    JsonV, JsonValue, parse_json_text, json_of_text, spec_req_arr, get_req_arr, lemma_obj_view,
};
use crate::http::{HttpMethod, HttpPlan, RequestBody};

verus! {

pub open spec fn spec_fetch_link_path(
    domain: Seq<char>,
    inbox: Seq<char>,
    message_id: Seq<char>,
) -> Seq<char> {
    "/api/v2/domains/"@ + domain + "/inboxes/"@ + inbox + "/messages/"@ + message_id + "/links"@
}

/// Names the message whose links are fetched.
#[derive(Debug, Clone)]
pub struct FetchLinkRequest {
    pub domain: String,
    pub inbox: String,
    pub message_id: String,
}

impl FetchLinkRequest {
    pub fn as_url_path(self) -> (r: String)
        ensures
            r@ == spec_fetch_link_path(self.domain@, self.inbox@, self.message_id@),
    {
        let mut s = "/api/v2/domains/".to_owned();
        s.append(self.domain.as_str());
        s.append("/inboxes/");
        s.append(self.inbox.as_str());
        s.append("/messages/");
        s.append(self.message_id.as_str());
        s.append("/links");
        s
    }
}

#[derive(Debug, Clone)]
pub struct FetchLinkRequestBuilder {
    pub domain: Option<String>,
    pub inbox: Option<String>,
    pub message_id: Option<String>,
}

impl Default for FetchLinkRequestBuilder {
    fn default() -> (r: Self)
        ensures
            r.domain is None,
            r.inbox is None,
            r.message_id is None,
    {
        FetchLinkRequestBuilder { domain: None, inbox: None, message_id: None }
    }
}

impl FetchLinkRequestBuilder {
    pub fn domain(self, value: String) -> (r: Self)
        ensures
            r == (FetchLinkRequestBuilder { domain: Some(value), ..self }),
    {
        FetchLinkRequestBuilder { domain: Some(value), ..self }
    }

    pub fn inbox(self, value: String) -> (r: Self)
        ensures
            r == (FetchLinkRequestBuilder { inbox: Some(value), ..self }),
    {
        FetchLinkRequestBuilder { inbox: Some(value), ..self }
    }

    pub fn message_id(self, value: String) -> (r: Self)
        ensures
            r == (FetchLinkRequestBuilder { message_id: Some(value), ..self }),
    {
        FetchLinkRequestBuilder { message_id: Some(value), ..self }
    }

    pub fn build(self) -> (r: Result<FetchLinkRequest, crate::api::BuildError>)
        ensures
            match r {
                Ok(q) => {
                    &&& self.domain is Some
                    &&& self.inbox is Some
                    &&& self.message_id is Some
                    &&& q.domain == self.domain.unwrap()
                    &&& q.inbox == self.inbox.unwrap()
                    &&& q.message_id == self.message_id.unwrap()
                },
                Err(e) => e == crate::api::BuildError::UninitializedField && (self.domain is None
                    || self.inbox is None || self.message_id is None),
            },
    {
        let FetchLinkRequestBuilder { domain, inbox, message_id } = self;
        match (domain, inbox, message_id) {
            (Some(d), Some(ibx), Some(m)) => Ok(
                FetchLinkRequest { domain: d, inbox: ibx, message_id: m },
            ),
            _ => Err(crate::api::BuildError::UninitializedField),
        }
    }
}

/// The links found within a message.
#[derive(Debug, Clone)]
pub struct FetchLinkResponse {
    pub links: Vec<String>,
}

#[verifier::ext_equal]
pub struct FetchLinkResponseView {
    pub links: Seq<Seq<char>>,
}

impl DeepView for FetchLinkResponse {
    type V = FetchLinkResponseView;

    open spec fn deep_view(&self) -> FetchLinkResponseView {
        FetchLinkResponseView { links: self.links.deep_view() }
    }
}

/// An array of strings, or nothing.
pub open spec fn spec_strings_from_json(items: Seq<JsonV>) -> Option<Seq<Seq<char>>> {
    if forall|i: int| 0 <= i < items.len() ==> (#[trigger] items[i]) is Str {
        Some(items.map_values(|x: JsonV| x->Str_0))
    } else {
        None
    }
}

proof fn lemma_strings_from_json_some(s: Seq<JsonV>)
    requires
        forall|i: int| 0 <= i < s.len() ==> (#[trigger] s[i]) is Str,
    ensures
        spec_strings_from_json(s) is Some,
        spec_strings_from_json(s).unwrap().len() == s.len(),
        forall|k: int|
            0 <= k < s.len() ==> #[trigger] spec_strings_from_json(s).unwrap()[k] == s[k]->Str_0,
{
}

fn strings_from_json(items: &Vec<JsonValue>) -> (r: Option<Vec<String>>)
    ensures
        r.deep_view() == spec_strings_from_json(items.deep_view()),
{
    let ghost iv = items.deep_view();
    let mut out: Vec<String> = Vec::new();
    proof {
        lemma_strings_from_json_some(iv.take(0));
        assert(spec_strings_from_json(iv.take(0)).unwrap() =~~= out.deep_view());
    }
    let mut i: usize = 0;
    while i < items.len()
        invariant
            0 <= i <= items.len(),
            iv == items.deep_view(),
            iv.len() == items.len(),
            spec_strings_from_json(iv.take(i as int)) == Some(out.deep_view()),
        decreases items.len() - i,
    {
        proof {
            assert(iv[i as int] == items@[i as int].deep_view());
        }
        match &items[i] {
            JsonValue::Str(s) => {
                let ghost pre = out.deep_view();
                out.push(s.clone());
                proof {
                    assert forall|j: int| 0 <= j < i + 1 implies (#[trigger] iv.take(
                        i as int + 1,
                    )[j]) is Str by {
                        assert(iv.take(i as int + 1)[j] == iv[j]);
                        if j < i {
                            assert(spec_strings_from_json(iv.take(i as int)) is Some);
                            assert(iv.take(i as int)[j] is Str);
                        }
                    }
                    lemma_strings_from_json_some(iv.take(i as int));
                    lemma_strings_from_json_some(iv.take(i as int + 1));
                    let next = spec_strings_from_json(iv.take(i as int + 1));
                    assert(out.deep_view() =~~= pre.push(s@));
                    assert(next.unwrap() =~~= out.deep_view());
                    assert(next == Some(out.deep_view()));
                }
            },
            _ => {
                proof {
                    assert(!(iv[i as int] is Str));
                }
                return None;
            },
        }
        i = i + 1;
    }
    proof {
        assert(iv.take(items.len() as int) =~= iv);
    }
    Some(out)
}

/// The response a links listing decodes to: an object whose `links` field
/// is an array of strings.
pub open spec fn spec_fetch_link_response_from_json(j: JsonV) -> Option<FetchLinkResponseView> {
    match j {
        JsonV::Obj(fields) => match spec_req_arr(fields, "links"@) {
            Some(items) => match spec_strings_from_json(items) {
                Some(ls) => Some(FetchLinkResponseView { links: ls }),
                None => None,
            },
            None => None,
        },
        _ => None,
    }
}

pub open spec fn spec_fetch_link_response_from_text(s: Seq<char>) -> Option<
    FetchLinkResponseView,
> {
    match json_of_text(s) {
        Some(j) => spec_fetch_link_response_from_json(j),
        None => None,
    }
}

impl FetchLinkResponse {
    pub fn from_json(j: &JsonValue) -> (r: Option<FetchLinkResponse>)
        ensures
            r.deep_view() == spec_fetch_link_response_from_json(j.deep_view()),
    {
        match j {
            JsonValue::Obj(fields) => {
                proof {
                    lemma_obj_view(*fields);
                }
                match get_req_arr(fields, "links") {
                    Some(items) => match strings_from_json(items) {
                        Some(ls) => Some(FetchLinkResponse { links: ls }),
                        None => None,
                    },
                    None => None,
                }
            },
            _ => None,
        }
    }

    /// Decodes a links listing from a response body.
    pub fn from_text(body: &str) -> (r: Option<FetchLinkResponse>)
        ensures
            r.deep_view() == spec_fetch_link_response_from_text(body@),
    {
        match parse_json_text(body) {
            Some(j) => Self::from_json(&j),
            None => None,
        }
    }
}

/// Plans fetching a message's links.
pub fn fetch_links(request: FetchLinkRequest) -> (p: HttpPlan)
    ensures
        p.method == HttpMethod::Get,
        p.path@ == spec_fetch_link_path(request.domain@, request.inbox@, request.message_id@),
        p.body is Empty,
{
    let path = request.as_url_path();
    HttpPlan { method: HttpMethod::Get, path, body: RequestBody::Empty }
}

} // verus!