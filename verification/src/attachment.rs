//! The attachment endpoints: listing a message's attachments, and fetching
//! one attachment by its numeric id or by its file name.

use vstd::prelude::*;
use vstd::string::StringExecFns;
use crate::digits::{spec_dec, u64_to_dec};
use crate::json::{
    JsonV, JsonValue, parse_json_text, json_of_text, spec_opt_str, spec_opt_u64, spec_req_arr,
    get_opt_str, get_opt_u64, get_req_arr, lemma_obj_view,
};
use crate::http::{HttpMethod, HttpPlan, RequestBody};

verus! {

pub open spec fn spec_attachments_base_path(
    domain: Seq<char>,
    inbox: Seq<char>,
    message_id: Seq<char>,
) -> Seq<char> {
    "/api/v2/domains/"@ + domain + "/inboxes/"@ + inbox + "/messages/"@ + message_id
        + "/attachments"@
}

/// Names the message whose attachments are listed.
#[derive(Debug, Clone)]
pub struct FetchListOfAttachmentRequest {
    pub domain: String,
    pub inbox: String,
    pub message_id: String,
}

impl FetchListOfAttachmentRequest {
    pub fn as_url_path(self) -> (r: String)
        ensures
            r@ == spec_attachments_base_path(self.domain@, self.inbox@, self.message_id@),
    {
        let mut s = "/api/v2/domains/".to_owned();
        s.append(self.domain.as_str());
        s.append("/inboxes/");
        s.append(self.inbox.as_str());
        s.append("/messages/");
        s.append(self.message_id.as_str());
        s.append("/attachments");
        s
    }
}

#[derive(Debug, Clone)]
pub struct FetchListOfAttachmentRequestBuilder {
    pub domain: Option<String>,
    pub inbox: Option<String>,
    pub message_id: Option<String>,
}

impl Default for FetchListOfAttachmentRequestBuilder {
    fn default() -> (r: Self)
        ensures
            r.domain is None,
            r.inbox is None,
            r.message_id is None,
    {
        FetchListOfAttachmentRequestBuilder { domain: None, inbox: None, message_id: None }
    }
}

impl FetchListOfAttachmentRequestBuilder {
    pub fn domain(self, value: String) -> (r: Self)
        ensures
            r == (FetchListOfAttachmentRequestBuilder { domain: Some(value), ..self }),
    {
        FetchListOfAttachmentRequestBuilder { domain: Some(value), ..self }
    }

    pub fn inbox(self, value: String) -> (r: Self)
        ensures
            r == (FetchListOfAttachmentRequestBuilder { inbox: Some(value), ..self }),
    {
        FetchListOfAttachmentRequestBuilder { inbox: Some(value), ..self }
    }

    pub fn message_id(self, value: String) -> (r: Self)
        ensures
            r == (FetchListOfAttachmentRequestBuilder { message_id: Some(value), ..self }),
    {
        FetchListOfAttachmentRequestBuilder { message_id: Some(value), ..self }
    }

    pub fn build(self) -> (r: Result<FetchListOfAttachmentRequest, crate::api::BuildError>)
        ensures
            match r {
                Ok(q) => {
                    &&& self.domain is Some
                    &&& self.inbox is Some
                    &&& self.message_id is Some
                    &&& q.domain == self.domain.unwrap()
                    &&& q.inbox == self.inbox.unwrap()
                    &&& q.message_id == self.message_id.unwrap()
                },
                Err(e) => e == crate::api::BuildError::UninitializedField && (self.domain is None
                    || self.inbox is None || self.message_id is None),
            },
    {
        let FetchListOfAttachmentRequestBuilder { domain, inbox, message_id } = self;
        match (domain, inbox, message_id) {
            (Some(d), Some(ibx), Some(m)) => Ok(
                FetchListOfAttachmentRequest { domain: d, inbox: ibx, message_id: m },
            ),
            _ => Err(crate::api::BuildError::UninitializedField),
        }
    }
}

/// One attachment as the listing reports it; the API may omit any field.
#[derive(Debug, Clone)]
pub struct Attachment {
    pub filename: Option<String>,
    pub content_disposition: Option<String>,
    pub content_transfer_encoding: Option<String>,
    pub content_type: Option<String>,
    pub attachment_id: Option<u64>,
}

#[verifier::ext_equal]
pub struct AttachmentView {
    pub filename: Option<Seq<char>>,
    pub content_disposition: Option<Seq<char>>,
    pub content_transfer_encoding: Option<Seq<char>>,
    pub content_type: Option<Seq<char>>,
    pub attachment_id: Option<u64>,
}

impl DeepView for Attachment {
    type V = AttachmentView;

    open spec fn deep_view(&self) -> AttachmentView {
        AttachmentView {
            filename: self.filename.deep_view(),
            content_disposition: self.content_disposition.deep_view(),
            content_transfer_encoding: self.content_transfer_encoding.deep_view(),
            content_type: self.content_type.deep_view(),
            attachment_id: self.attachment_id,
        }
    }
}

/// The attachment a document decodes to. The hyphenated wire names map to
/// the underscored fields.
pub open spec fn spec_attachment_from_json(j: JsonV) -> Option<AttachmentView> {
    match j {
        JsonV::Obj(fields) => {
            let filename = spec_opt_str(fields, "filename"@);
            let content_disposition = spec_opt_str(fields, "content-disposition"@);
            let content_transfer_encoding = spec_opt_str(fields, "content-transfer-encoding"@);
            let content_type = spec_opt_str(fields, "content-type"@);
            let attachment_id = spec_opt_u64(fields, "attachment-id"@);
            if filename is Some && content_disposition is Some && content_transfer_encoding
                is Some && content_type is Some && attachment_id is Some {
                Some(
                    AttachmentView {
                        filename: filename.unwrap(),
                        content_disposition: content_disposition.unwrap(),
                        content_transfer_encoding: content_transfer_encoding.unwrap(),
                        content_type: content_type.unwrap(),
                        attachment_id: attachment_id.unwrap(),
                    },
                )
            } else {
                None
            }
        },
        _ => None,
    }
}

impl Attachment {
    pub fn from_json(j: &JsonValue) -> (r: Option<Attachment>)
        ensures
            r.deep_view() == spec_attachment_from_json(j.deep_view()),
    {
        match j {
            JsonValue::Obj(fields) => {
                proof {
                    lemma_obj_view(*fields);
                }
                let filename = match get_opt_str(fields, "filename") {
                    Some(x) => x,
                    None => {
                        return None;
                    },
                };
                let content_disposition = match get_opt_str(fields, "content-disposition") {
                    Some(x) => x,
                    None => {
                        return None;
                    },
                };
                let content_transfer_encoding = match get_opt_str(
                    fields,
                    "content-transfer-encoding",
                ) {
                    Some(x) => x,
                    None => {
                        return None;
                    },
                };
                let content_type = match get_opt_str(fields, "content-type") {
                    Some(x) => x,
                    None => {
                        return None;
                    },
                };
                let attachment_id = match get_opt_u64(fields, "attachment-id") {
                    Some(x) => x,
                    None => {
                        return None;
                    },
                };
                Some(
                    Attachment {
                        filename,
                        content_disposition,
                        content_transfer_encoding,
                        content_type,
                        attachment_id,
                    },
                )
            },
            _ => None,
        }
    }
}

/// The listing the attachments endpoint answers with.
#[derive(Debug, Clone)]
pub struct FetchListOfAttachmentResponse {
    pub attachments: Vec<Attachment>,
}

#[verifier::ext_equal]
pub struct FetchListOfAttachmentResponseView {
    pub attachments: Seq<AttachmentView>,
}

impl DeepView for FetchListOfAttachmentResponse {
    type V = FetchListOfAttachmentResponseView;

    open spec fn deep_view(&self) -> FetchListOfAttachmentResponseView {
        FetchListOfAttachmentResponseView { attachments: self.attachments.deep_view() }
    }
}

pub open spec fn spec_attachments_from_json(items: Seq<JsonV>) -> Option<Seq<AttachmentView>> {
    if forall|i: int|
        0 <= i < items.len() ==> (#[trigger] spec_attachment_from_json(items[i])) is Some {
        Some(items.map_values(|x: JsonV| spec_attachment_from_json(x).unwrap()))
    } else {
        None
    }
}

proof fn lemma_attachments_from_json_some(s: Seq<JsonV>)
    requires
        forall|i: int| 0 <= i < s.len() ==> (#[trigger] spec_attachment_from_json(s[i])) is Some,
    ensures
        spec_attachments_from_json(s) is Some,
        spec_attachments_from_json(s).unwrap().len() == s.len(),
        forall|k: int|
            0 <= k < s.len() ==> #[trigger] spec_attachments_from_json(s).unwrap()[k]
                == spec_attachment_from_json(s[k]).unwrap(),
{
}

fn attachments_from_json(items: &Vec<JsonValue>) -> (r: Option<Vec<Attachment>>)
    ensures
        r.deep_view() == spec_attachments_from_json(items.deep_view()),
{
    let ghost iv = items.deep_view();
    let mut out: Vec<Attachment> = Vec::new();
    proof {
        lemma_attachments_from_json_some(iv.take(0));
        assert(spec_attachments_from_json(iv.take(0)).unwrap() =~~= out.deep_view());
    }
    let mut i: usize = 0;
    while i < items.len()
        invariant
            0 <= i <= items.len(),
            iv == items.deep_view(),
            iv.len() == items.len(),
            spec_attachments_from_json(iv.take(i as int)) == Some(out.deep_view()),
        decreases items.len() - i,
    {
        proof {
            assert(iv[i as int] == items@[i as int].deep_view());
        }
        match Attachment::from_json(&items[i]) {
            Some(x) => {
                let ghost pre = out.deep_view();
                out.push(x);
                proof {
                    assert forall|j: int| 0 <= j < i + 1 implies (
                    #[trigger] spec_attachment_from_json(iv.take(i as int + 1)[j])) is Some by {
                        assert(iv.take(i as int + 1)[j] == iv[j]);
                        if j < i {
                            assert(spec_attachments_from_json(iv.take(i as int)) is Some);
                            assert(spec_attachment_from_json(iv.take(i as int)[j]) is Some);
                        }
                    }
                    lemma_attachments_from_json_some(iv.take(i as int));
                    lemma_attachments_from_json_some(iv.take(i as int + 1));
                    let next = spec_attachments_from_json(iv.take(i as int + 1));
                    assert(out.deep_view() =~~= pre.push(x.deep_view()));
                    assert(next.unwrap() =~~= out.deep_view());
                    assert(next == Some(out.deep_view()));
                }
            },
            None => {
                proof {
                    assert(spec_attachment_from_json(iv[i as int]) is None);
                }
                return None;
            },
        }
        i = i + 1;
    }
    proof {
        assert(iv.take(items.len() as int) =~= iv);
    }
    Some(out)
}

/// The response an attachments listing decodes to.
pub open spec fn spec_attachment_list_from_json(j: JsonV) -> Option<
    FetchListOfAttachmentResponseView,
> {
    match j {
        JsonV::Obj(fields) => match spec_req_arr(fields, "attachments"@) {
            Some(items) => match spec_attachments_from_json(items) {
                Some(ats) => Some(FetchListOfAttachmentResponseView { attachments: ats }),
                None => None,
            },
            None => None,
        },
        _ => None,
    }
}

pub open spec fn spec_attachment_list_from_text(s: Seq<char>) -> Option<
    FetchListOfAttachmentResponseView,
> {
    match json_of_text(s) {
        Some(j) => spec_attachment_list_from_json(j),
        None => None,
    }
}

impl FetchListOfAttachmentResponse {
    pub fn from_json(j: &JsonValue) -> (r: Option<FetchListOfAttachmentResponse>)
        ensures
            r.deep_view() == spec_attachment_list_from_json(j.deep_view()),
    {
        match j {
            JsonValue::Obj(fields) => {
                proof {
                    lemma_obj_view(*fields);
                }
                match get_req_arr(fields, "attachments") {
                    Some(items) => match attachments_from_json(items) {
                        Some(ats) => Some(FetchListOfAttachmentResponse { attachments: ats }),
                        None => None,
                    },
                    None => None,
                }
            },
            _ => None,
        }
    }

    /// Decodes an attachments listing from a response body.
    pub fn from_text(body: &str) -> (r: Option<FetchListOfAttachmentResponse>)
        ensures
            r.deep_view() == spec_attachment_list_from_text(body@),
    {
        match parse_json_text(body) {
            Some(j) => Self::from_json(&j),
            None => None,
        }
    }
}

/// How one attachment is named: by its numeric id, or by its file name.
#[derive(Debug, Clone)]
pub enum LookupField {
    Id(u64),
    Name(String),
}

impl Default for LookupField {
    /// The default lookup is by id zero, as a builder leaves it.
    fn default() -> (r: Self)
        ensures
            r == LookupField::Id(0u64),
    {
        LookupField::Id(0)
    }
}

/// The trailing segment the chosen lookup contributes: the decimal id, or
/// the name verbatim.
pub open spec fn spec_lookup_segment(a: LookupField) -> Seq<char> {
    match a {
        LookupField::Id(id) => spec_dec(id as nat),
        LookupField::Name(name) => name@,
    }
}

pub open spec fn spec_fetch_attachment_path(
    domain: Seq<char>,
    inbox: Seq<char>,
    message_id: Seq<char>,
    attachment: LookupField,
) -> Seq<char> {
    spec_attachments_base_path(domain, inbox, message_id) + "/"@ + spec_lookup_segment(attachment)
}

/// Names one attachment of a message.
#[derive(Debug, Clone)]
pub struct FetchAttachmentRequest {
    pub domain: String,
    pub inbox: String,
    pub message_id: String,
    pub attachment: LookupField,
}

impl FetchAttachmentRequest {
    pub fn as_url_path(self) -> (r: String)
        ensures
            r@ == spec_fetch_attachment_path(
                self.domain@,
                self.inbox@,
                self.message_id@,
                self.attachment,
            ),
    {
        let mut s = "/api/v2/domains/".to_owned();
        s.append(self.domain.as_str());
        s.append("/inboxes/");
        s.append(self.inbox.as_str());
        s.append("/messages/");
        s.append(self.message_id.as_str());
        s.append("/attachments");
        s.append("/");
        match self.attachment {
            LookupField::Id(id) => s.append(u64_to_dec(id).as_str()),
            LookupField::Name(name) => s.append(name.as_str()),
        }
        s
    }
}

#[derive(Debug, Clone)]
pub struct FetchAttachmentRequestBuilder {
    pub domain: Option<String>,
    pub inbox: Option<String>,
    pub message_id: Option<String>,
    pub attachment: Option<LookupField>,
}

impl Default for FetchAttachmentRequestBuilder {
    fn default() -> (r: Self)
        ensures
            r.domain is None,
            r.inbox is None,
            r.message_id is None,
            r.attachment is None,
    {
        FetchAttachmentRequestBuilder {
            domain: None,
            inbox: None,
            message_id: None,
            attachment: None,
        }
    }
}

impl FetchAttachmentRequestBuilder {
    pub fn domain(self, value: String) -> (r: Self)
        ensures
            r == (FetchAttachmentRequestBuilder { domain: Some(value), ..self }),
    {
        FetchAttachmentRequestBuilder { domain: Some(value), ..self }
    }

    pub fn inbox(self, value: String) -> (r: Self)
        ensures
            r == (FetchAttachmentRequestBuilder { inbox: Some(value), ..self }),
    {
        FetchAttachmentRequestBuilder { inbox: Some(value), ..self }
    }

    pub fn message_id(self, value: String) -> (r: Self)
        ensures
            r == (FetchAttachmentRequestBuilder { message_id: Some(value), ..self }),
    {
        FetchAttachmentRequestBuilder { message_id: Some(value), ..self }
    }

    pub fn attachment(self, value: LookupField) -> (r: Self)
        ensures
            r == (FetchAttachmentRequestBuilder { attachment: Some(value), ..self }),
    {
        FetchAttachmentRequestBuilder { attachment: Some(value), ..self }
    }

    pub fn build(self) -> (r: Result<FetchAttachmentRequest, crate::api::BuildError>)
        ensures
            match r {
                Ok(q) => {
                    &&& self.domain is Some
                    &&& self.inbox is Some
                    &&& self.message_id is Some
                    &&& self.attachment is Some
                    &&& q.domain == self.domain.unwrap()
                    &&& q.inbox == self.inbox.unwrap()
                    &&& q.message_id == self.message_id.unwrap()
                    &&& q.attachment == self.attachment.unwrap()
                },
                Err(e) => e == crate::api::BuildError::UninitializedField && (self.domain is None
                    || self.inbox is None || self.message_id is None || self.attachment is None),
            },
    {
        let FetchAttachmentRequestBuilder { domain, inbox, message_id, attachment } = self;
        match (domain, inbox, message_id, attachment) {
            (Some(d), Some(ibx), Some(m), Some(a)) => Ok(
                FetchAttachmentRequest { domain: d, inbox: ibx, message_id: m, attachment: a },
            ),
            _ => Err(crate::api::BuildError::UninitializedField),
        }
    }
}

/// Plans listing a message's attachments.
pub fn fetch_list_of_attachments(request: FetchListOfAttachmentRequest) -> (p: HttpPlan)
    ensures
        p.method == HttpMethod::Get,
        p.path@ == spec_attachments_base_path(request.domain@, request.inbox@, request.message_id@),
        p.body is Empty,
{
    let path = request.as_url_path();
    HttpPlan { method: HttpMethod::Get, path, body: RequestBody::Empty }
}

/// Plans fetching one attachment.
pub fn fetch_attachment(request: FetchAttachmentRequest) -> (p: HttpPlan)
    ensures
        p.method == HttpMethod::Get,
        p.path@ == spec_fetch_attachment_path(
            request.domain@,
            request.inbox@,
            request.message_id@,
            request.attachment,
        ),
        p.body is Empty,
{
    let path = request.as_url_path();
    HttpPlan { method: HttpMethod::Get, path, body: RequestBody::Empty }
}

} // verus!