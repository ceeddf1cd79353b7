//! Response shapes shared by several endpoint groups.

use vstd::prelude::*;
use crate::json::{
    JsonV, JsonValue, parse_json_text, json_of_text, spec_req_str, get_req_str, lemma_obj_view,
};

verus! {

/// Building a request fails only when a required field was never set.
#[derive(Debug, Clone, Copy, PartialEq, Eq, Structural)]
pub enum BuildError {
    UninitializedField,
}

/// The plain status record several endpoints answer with.
#[derive(Debug, Clone)]
pub struct ResponseStatus {
    pub status: String,
}

pub struct ResponseStatusView {
    pub status: Seq<char>,
}

impl DeepView for ResponseStatus {
    type V = ResponseStatusView;

    open spec fn deep_view(&self) -> ResponseStatusView {
        ResponseStatusView { status: self.status.deep_view() }
    }
}

/// The record a status document decodes to: an object with a string field
/// `status`; anything else is rejected.
pub open spec fn spec_response_status_from_json(j: JsonV) -> Option<ResponseStatusView> {
    match j {
        JsonV::Obj(fields) => match spec_req_str(fields, "status"@) {
            Some(s) => Some(ResponseStatusView { status: s }),
            None => None,
        },
        _ => None,
    }
}

/// The record a response body decodes to, if the body parses as JSON and
/// has the status shape.
pub open spec fn spec_response_status_from_text(s: Seq<char>) -> Option<ResponseStatusView> {
    match json_of_text(s) {
        Some(j) => spec_response_status_from_json(j),
        None => None,
    }
}

impl ResponseStatus {
    /// Decodes a status record from a JSON document.
    pub fn from_json(j: &JsonValue) -> (r: Option<ResponseStatus>)
        ensures
            r.deep_view() == spec_response_status_from_json(j.deep_view()),
    {
        match j {
            JsonValue::Obj(fields) => {
                proof {
                    lemma_obj_view(*fields);
                }
                match get_req_str(fields, "status") {
                    Some(s) => Some(ResponseStatus { status: s }),
                    None => None,
                }
            },
            _ => None,
        }
    }

    /// Decodes a status record from a response body.
    pub fn from_text(body: &str) -> (r: Option<ResponseStatus>)
        ensures
            r.deep_view() == spec_response_status_from_text(body@),
    {
        match parse_json_text(body) {
            Some(j) => Self::from_json(&j),
            None => None,
        }
    }
}

} // verus!
