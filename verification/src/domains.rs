//! The domains endpoint group: listing, fetching, creating and deleting
//! private domains. A domain carries its rules along in the listing.

use vstd::prelude::*;
use vstd::string::StringExecFns;
use crate::json::{
    JsonV, JsonValue, parse_json_text, json_of_text, spec_req_str, spec_req_bool, spec_req_arr,
    get_req_str, get_req_bool, get_req_arr, lemma_obj_view,
};
use crate::rules::{Rule, RuleView, spec_rules_from_json, rules_from_json};
use crate::http::{HttpMethod, HttpPlan, RequestBody};

verus! {

/// One private domain as the API reports it.
#[derive(Debug, Clone)]
pub struct Domain {
    pub _id: String,
    pub description: String,
    pub enabled: bool,
    pub name: String,
    pub ownerid: String,
    pub rules: Vec<Rule>,
}

#[verifier::ext_equal]
pub struct DomainView {
    pub _id: Seq<char>,
    pub description: Seq<char>,
    pub enabled: bool,
    pub name: Seq<char>,
    pub ownerid: Seq<char>,
    pub rules: Seq<RuleView>,
}

impl DeepView for Domain {
    type V = DomainView;

    open spec fn deep_view(&self) -> DomainView {
        DomainView {
            _id: self._id.deep_view(),
            description: self.description.deep_view(),
            enabled: self.enabled,
            name: self.name.deep_view(),
            ownerid: self.ownerid.deep_view(),
            rules: self.rules.deep_view(),
        }
    }
}

/// The domain a document decodes to: every field is required, and each rule
/// in `rules` must be well formed.
pub open spec fn spec_domain_from_json(j: JsonV) -> Option<DomainView> {
    match j {
        JsonV::Obj(fields) => {
            let _id = spec_req_str(fields, "_id"@);
            let description = spec_req_str(fields, "description"@);
            let enabled = spec_req_bool(fields, "enabled"@);
            let name = spec_req_str(fields, "name"@);
            let ownerid = spec_req_str(fields, "ownerid"@);
            let rules = match spec_req_arr(fields, "rules"@) {
                Some(items) => spec_rules_from_json(items),
                None => None,
            };
            if _id is Some && description is Some && enabled is Some && name is Some && ownerid
                is Some && rules is Some {
                Some(
                    DomainView {
                        _id: _id.unwrap(),
                        description: description.unwrap(),
                        enabled: enabled.unwrap(),
                        name: name.unwrap(),
                        ownerid: ownerid.unwrap(),
                        rules: rules.unwrap(),
                    },
                )
            } else {
                None
            }
        },
        _ => None,
    }
}

pub open spec fn spec_domain_from_text(s: Seq<char>) -> Option<DomainView> {
    match json_of_text(s) {
        Some(j) => spec_domain_from_json(j),
        None => None,
    }
}

impl Domain {
    pub fn from_json(j: &JsonValue) -> (r: Option<Domain>)
        ensures
            r.deep_view() == spec_domain_from_json(j.deep_view()),
    {
        match j {
            JsonValue::Obj(fields) => {
                proof {
                    lemma_obj_view(*fields);
                }
                let _id = match get_req_str(fields, "_id") {
                    Some(x) => x,
                    None => {
                        return None;
                    },
                };
                let description = match get_req_str(fields, "description") {
                    Some(x) => x,
                    None => {
                        return None;
                    },
                };
                let enabled = match get_req_bool(fields, "enabled") {
                    Some(x) => x,
                    None => {
                        return None;
                    },
                };
                let name = match get_req_str(fields, "name") {
                    Some(x) => x,
                    None => {
                        return None;
                    },
                };
                let ownerid = match get_req_str(fields, "ownerid") {
                    Some(x) => x,
                    None => {
                        return None;
                    },
                };
                let rules = match get_req_arr(fields, "rules") {
                    Some(items) => match rules_from_json(items) {
                        Some(rs) => rs,
                        None => {
                            return None;
                        },
                    },
                    None => {
                        return None;
                    },
                };
                Some(Domain { _id, description, enabled, name, ownerid, rules })
            },
            _ => None,
        }
    }

    /// Decodes one domain from a response body.
    pub fn from_text(body: &str) -> (r: Option<Domain>)
        ensures
            r.deep_view() == spec_domain_from_text(body@),
    {
        match parse_json_text(body) {
            Some(j) => Self::from_json(&j),
            None => None,
        }
    }
}

/// The list that the all-domains endpoint answers with.
#[derive(Debug, Clone)]
pub struct DomainResponse {
    pub domains: Vec<Domain>,
}

#[verifier::ext_equal]
pub struct DomainResponseView {
    pub domains: Seq<DomainView>,
}

impl DeepView for DomainResponse {
    type V = DomainResponseView;

    open spec fn deep_view(&self) -> DomainResponseView {
        DomainResponseView { domains: self.domains.deep_view() }
    }
}

pub open spec fn spec_domains_from_json(items: Seq<JsonV>) -> Option<Seq<DomainView>> {
    if forall|i: int| 0 <= i < items.len() ==> (#[trigger] spec_domain_from_json(items[i]))
        is Some {
        Some(items.map_values(|x: JsonV| spec_domain_from_json(x).unwrap()))
    } else {
        None
    }
}

proof fn lemma_domains_from_json_some(s: Seq<JsonV>)
    requires
        forall|i: int| 0 <= i < s.len() ==> (#[trigger] spec_domain_from_json(s[i])) is Some,
    ensures
        spec_domains_from_json(s) is Some,
        spec_domains_from_json(s).unwrap().len() == s.len(),
        forall|k: int|
            0 <= k < s.len() ==> #[trigger] spec_domains_from_json(s).unwrap()[k]
                == spec_domain_from_json(s[k]).unwrap(),
{
}

fn domains_from_json(items: &Vec<JsonValue>) -> (r: Option<Vec<Domain>>)
    ensures
        r.deep_view() == spec_domains_from_json(items.deep_view()),
{
    let ghost iv = items.deep_view();
    let mut out: Vec<Domain> = Vec::new();
    proof {
        lemma_domains_from_json_some(iv.take(0));
        assert(spec_domains_from_json(iv.take(0)).unwrap() =~~= out.deep_view());
    }
    let mut i: usize = 0;
    while i < items.len()
        invariant
            0 <= i <= items.len(),
            iv == items.deep_view(),
            iv.len() == items.len(),
            spec_domains_from_json(iv.take(i as int)) == Some(out.deep_view()),
        decreases items.len() - i,
    {
        proof {
            assert(iv[i as int] == items@[i as int].deep_view());
        }
        match Domain::from_json(&items[i]) {
            Some(x) => {
                let ghost pre = out.deep_view();
                out.push(x);
                proof {
                    assert forall|j: int| 0 <= j < i + 1 implies (#[trigger] spec_domain_from_json(
                        iv.take(i as int + 1)[j],
                    )) is Some by {
                        assert(iv.take(i as int + 1)[j] == iv[j]);
                        if j < i {
                            assert(spec_domains_from_json(iv.take(i as int)) is Some);
                            assert(spec_domain_from_json(iv.take(i as int)[j]) is Some);
                        }
                    }
                    lemma_domains_from_json_some(iv.take(i as int));
                    lemma_domains_from_json_some(iv.take(i as int + 1));
                    let next = spec_domains_from_json(iv.take(i as int + 1));
                    assert(out.deep_view() =~~= pre.push(x.deep_view()));
                    assert(next.unwrap() =~~= out.deep_view());
                    assert(next == Some(out.deep_view()));
                }
            },
            None => {
                proof {
                    assert(spec_domain_from_json(iv[i as int]) is None);
                }
                return None;
            },
        }
        i = i + 1;
    }
    proof {
        assert(iv.take(items.len() as int) =~= iv);
    }
    Some(out)
}

/// The response the all-domains listing decodes to: an object whose
/// `domains` field is an array of well-formed domains.
pub open spec fn spec_domain_response_from_json(j: JsonV) -> Option<DomainResponseView> {
    match j {
        JsonV::Obj(fields) => match spec_req_arr(fields, "domains"@) {
            Some(items) => match spec_domains_from_json(items) {
                Some(ds) => Some(DomainResponseView { domains: ds }),
                None => None,
            },
            None => None,
        },
        _ => None,
    }
}

pub open spec fn spec_domain_response_from_text(s: Seq<char>) -> Option<DomainResponseView> {
    match json_of_text(s) {
        Some(j) => spec_domain_response_from_json(j),
        None => None,
    }
}

impl DomainResponse {
    pub fn from_json(j: &JsonValue) -> (r: Option<DomainResponse>)
        ensures
            r.deep_view() == spec_domain_response_from_json(j.deep_view()),
    {
        match j {
            JsonValue::Obj(fields) => {
                proof {
                    lemma_obj_view(*fields);
                }
                match get_req_arr(fields, "domains") {
                    Some(items) => match domains_from_json(items) {
                        Some(ds) => Some(DomainResponse { domains: ds }),
                        None => None,
                    },
                    None => None,
                }
            },
            _ => None,
        }
    }

    /// Decodes the all-domains listing from a response body.
    pub fn from_text(body: &str) -> (r: Option<DomainResponse>)
        ensures
            r.deep_view() == spec_domain_response_from_text(body@),
    {
        match parse_json_text(body) {
            Some(j) => Self::from_json(&j),
            None => None,
        }
    }
}

pub open spec fn spec_domain_request_path(domain: Seq<char>) -> Seq<char> {
    "/api/v2/domains/"@ + domain
}

/// Names one private domain.
#[derive(Debug, Clone)]
pub struct DomainRequest {
    pub domain: String,
}

impl DomainRequest {
    pub fn as_url_path(self) -> (r: String)
        ensures
            r@ == spec_domain_request_path(self.domain@),
    {
        let mut s = "/api/v2/domains/".to_owned();
        s.append(self.domain.as_str());
        s
    }
}

#[derive(Debug, Clone)]
pub struct DomainRequestBuilder {
    pub domain: Option<String>,
}

impl Default for DomainRequestBuilder {
    fn default() -> (r: Self)
        ensures
            r.domain is None,
    {
        DomainRequestBuilder { domain: None }
    }
}

impl DomainRequestBuilder {
    pub fn domain(self, value: String) -> (r: Self)
        ensures
            r.domain == Some(value),
    {
        DomainRequestBuilder { domain: Some(value) }
    }

    pub fn build(self) -> (r: Result<DomainRequest, crate::api::BuildError>)
        ensures
            match r {
                Ok(q) => self.domain is Some && q.domain == self.domain.unwrap(),
                Err(e) => e == crate::api::BuildError::UninitializedField && self.domain is None,
            },
    {
        match self.domain {
            Some(d) => Ok(DomainRequest { domain: d }),
            None => Err(crate::api::BuildError::UninitializedField),
        }
    }
}

/// Plans listing every domain of the team.
pub fn get_all_domains() -> (p: HttpPlan)
    ensures
        p.method == HttpMethod::Get,
        p.path@ == "/domains/"@,
        p.body is Empty,
{
    HttpPlan { method: HttpMethod::Get, path: "/domains/".to_owned(), body: RequestBody::Empty }
}

/// Plans fetching one domain.
pub fn get_domain(request: DomainRequest) -> (p: HttpPlan)
    ensures
        p.method == HttpMethod::Get,
        p.path@ == spec_domain_request_path(request.domain@),
        p.body is Empty,
{
    let path = request.as_url_path();
    HttpPlan { method: HttpMethod::Get, path, body: RequestBody::Empty }
}

/// Plans creating a private domain; the body is an empty byte body, as the
/// endpoint expects.
pub fn create_private_domain(request: DomainRequest) -> (p: HttpPlan)
    ensures
        p.method == HttpMethod::Post,
        p.path@ == spec_domain_request_path(request.domain@),
        p.body is Raw,
        p.body->Raw_0@ == Seq::<u8>::empty(),
{
    let path = request.as_url_path();
    HttpPlan { method: HttpMethod::Post, path, body: RequestBody::Raw(Vec::new()) }
}

/// Plans deleting a private domain.
pub fn delete_private_domain(request: DomainRequest) -> (p: HttpPlan)
    ensures
        p.method == HttpMethod::Delete,
        p.path@ == spec_domain_request_path(request.domain@),
        p.body is Empty,
{
    let path = request.as_url_path();
    HttpPlan { method: HttpMethod::Delete, path, body: RequestBody::Empty }
}

} // verus!