//! The message endpoints: fetching a message (by inbox or by domain alone),
//! SMS messages, deleting messages, and injecting a new email.
//!
//! An `Email` is what the API hands back; a `NewEmail` is what the caller
//! injects. Writing a new email and reading it back as a message keeps
//! every populated field and leaves the absent ones empty — that law is
//! proved here.

use vstd::prelude::*;
use vstd::string::StringExecFns;
use crate::digits::u64_to_dec;
use crate::json::{
    JsonV, JsonValue, parse_json_text, render_json_text, json_of_text, json_text_of, obj_get,
    spec_req_str, spec_opt_str, spec_req_u64, spec_opt_u64, spec_req_arr, spec_opt_str_map,
    spec_str_entries, get_req_str, get_opt_str, get_req_u64, get_opt_u64, get_req_arr,
    get_opt_str_map, lemma_obj_view, lemma_arr_view, lemma_jv_fields,
};
use crate::http::{HttpMethod, HttpPlan, RequestBody};

verus! {

/// One MIME part of a message: its headers and its body, either of which
/// the wire may omit.
#[derive(Debug, Clone)]
pub struct Part {
    pub headers: Option<Vec<(String, String)>>,
    pub body: Option<String>,
}

#[verifier::ext_equal]
pub struct PartView {
    pub headers: Option<Seq<(Seq<char>, Seq<char>)>>,
    pub body: Option<Seq<char>>,
}

impl DeepView for Part {
    type V = PartView;

    open spec fn deep_view(&self) -> PartView {
        PartView { headers: self.headers.deep_view(), body: self.body.deep_view() }
    }
}

/// A header map as a JSON object, bindings in order.
pub open spec fn spec_str_map_json(m: Seq<(Seq<char>, Seq<char>)>) -> Seq<(Seq<char>, JsonV)> {
    m.map_values(|e: (Seq<char>, Seq<char>)| (e.0, JsonV::Str(e.1)))
}

proof fn lemma_str_map_json_index(m: Seq<(Seq<char>, Seq<char>)>)
    ensures
        spec_str_map_json(m).len() == m.len(),
        forall|k: int|
            0 <= k < m.len() ==> #[trigger] spec_str_map_json(m)[k] == (m[k].0, JsonV::Str(m[k].1)),
{
}

/// Reading a header object back gives the bindings it was written from.
proof fn lemma_str_map_round_trip(m: Seq<(Seq<char>, Seq<char>)>)
    ensures
        spec_str_entries(spec_str_map_json(m)) == Some(m),
{
    lemma_str_map_json_index(m);
    let enc = spec_str_map_json(m);
    assert(spec_str_entries(enc) is Some);
    assert(spec_str_entries(enc).unwrap() =~~= m);
}

fn str_map_to_json(m: &Vec<(String, String)>) -> (r: JsonValue)
    ensures
        r.deep_view() == JsonV::Obj(spec_str_map_json(m.deep_view())),
{
    let ghost mv = m.deep_view();
    let mut fields: Vec<(String, JsonValue)> = Vec::new();
    proof {
        lemma_str_map_json_index(mv.take(0));
        lemma_jv_fields(fields@);
        assert(crate::json::jv_fields(fields@) =~~= spec_str_map_json(mv.take(0)));
    }
    let mut i: usize = 0;
    while i < m.len()
        invariant
            0 <= i <= m.len(),
            mv == m.deep_view(),
            mv.len() == m.len(),
            crate::json::jv_fields(fields@) == spec_str_map_json(mv.take(i as int)),
        decreases m.len() - i,
    {
        let ghost prevf = fields@;
        fields.push((m[i].0.clone(), JsonValue::Str(m[i].1.clone())));
        proof {
            assert(mv[i as int] == m@[i as int].deep_view());
            lemma_jv_fields(prevf);
            lemma_jv_fields(fields@);
            lemma_str_map_json_index(mv.take(i as int));
            lemma_str_map_json_index(mv.take(i as int + 1));
            assert(crate::json::jv_fields(fields@).len() == i + 1);
            assert forall|k: int| 0 <= k < i + 1 implies crate::json::jv_fields(fields@)[k]
                == spec_str_map_json(mv.take(i as int + 1))[k] by {
                assert(mv.take(i as int + 1)[k] == mv[k]);
                if k < i {
                    assert(fields@[k] == prevf[k]);
                    assert(crate::json::jv_fields(prevf)[k] == spec_str_map_json(
                        mv.take(i as int),
                    )[k]);
                    assert(mv.take(i as int)[k] == mv[k]);
                }
            }
            assert(crate::json::jv_fields(fields@) =~~= spec_str_map_json(mv.take(i as int + 1)));
        }
        i = i + 1;
    }
    proof {
        assert(mv.take(m.len() as int) =~= mv);
    }
    JsonValue::Obj(fields)
}

/// The document a part is written as: present fields only, headers first.
pub open spec fn spec_part_to_json(p: PartView) -> JsonV {
    let f0 = Seq::<(Seq<char>, JsonV)>::empty();
    let f1 = if p.headers is Some {
        f0.push(("headers"@, JsonV::Obj(spec_str_map_json(p.headers.unwrap()))))
    } else {
        f0
    };
    let f2 = if p.body is Some {
        f1.push(("body"@, JsonV::Str(p.body.unwrap())))
    } else {
        f1
    };
    JsonV::Obj(f2)
}

/// The part a document decodes to: both fields optional; headers must be an
/// all-string object when bound.
pub open spec fn spec_part_from_json(j: JsonV) -> Option<PartView> {
    match j {
        JsonV::Obj(fields) => {
            let headers = spec_opt_str_map(fields, "headers"@);
            let body = spec_opt_str(fields, "body"@);
            if headers is Some && body is Some {
                Some(PartView { headers: headers.unwrap(), body: body.unwrap() })
            } else {
                None
            }
        },
        _ => None,
    }
}

impl Part {
    /// Writes the part as its JSON document.
    pub fn to_json(&self) -> (r: JsonValue)
        ensures
            r.deep_view() == spec_part_to_json(self.deep_view()),
    {
        let mut fields: Vec<(String, JsonValue)> = Vec::new();
        match &self.headers {
            Some(h) => {
                fields.push(("headers".to_owned(), str_map_to_json(h)));
            },
            None => {},
        }
        match &self.body {
            Some(b) => {
                fields.push(("body".to_owned(), JsonValue::Str(b.clone())));
            },
            None => {},
        }
        proof {
            lemma_jv_fields(fields@);
            assert(crate::json::jv_fields(fields@) =~~= spec_part_to_json(
                self.deep_view(),
            )->Obj_0);
        }
        JsonValue::Obj(fields)
    }

    pub fn from_json(j: &JsonValue) -> (r: Option<Part>)
        ensures
            r.deep_view() == spec_part_from_json(j.deep_view()),
    {
        match j {
            JsonValue::Obj(fields) => {
                proof {
                    lemma_obj_view(*fields);
                }
                let headers = match get_opt_str_map(fields, "headers") {
                    Some(h) => h,
                    None => {
                        return None;
                    },
                };
                let body = match get_opt_str(fields, "body") {
                    Some(b) => b,
                    None => {
                        return None;
                    },
                };
                Some(Part { headers, body })
            },
            _ => None,
        }
    }
}

/// Law: a part written to JSON reads back as itself.
pub proof fn lemma_part_round_trip(p: PartView)
    ensures
        spec_part_from_json(spec_part_to_json(p)) == Some(p),
{
    broadcast use crate::json::lemma_obj_get_push;

    reveal_strlit("headers");
    reveal_strlit("body");
    assert("headers"@.len() == 7);
    assert("body"@.len() == 4);
    if p.headers is Some {
        lemma_str_map_round_trip(p.headers.unwrap());
    }
    assert(obj_get(Seq::<(Seq<char>, JsonV)>::empty(), "headers"@) is None);
    assert(obj_get(Seq::<(Seq<char>, JsonV)>::empty(), "body"@) is None);
    assert(spec_part_from_json(spec_part_to_json(p)) == Some(
        PartView { headers: p.headers, body: p.body },
    ));
    assert(PartView { headers: p.headers, body: p.body } =~~= p);
}

pub open spec fn spec_parts_to_json(ps: Seq<PartView>) -> Seq<JsonV> {
    ps.map_values(|p: PartView| spec_part_to_json(p))
}

pub open spec fn spec_parts_from_json(items: Seq<JsonV>) -> Option<Seq<PartView>> {
    if forall|i: int| 0 <= i < items.len() ==> (#[trigger] spec_part_from_json(items[i])) is Some {
        Some(items.map_values(|x: JsonV| spec_part_from_json(x).unwrap()))
    } else {
        None
    }
}

proof fn lemma_parts_to_json_index(s: Seq<PartView>)
    ensures
        spec_parts_to_json(s).len() == s.len(),
        forall|k: int|
            0 <= k < s.len() ==> #[trigger] spec_parts_to_json(s)[k] == spec_part_to_json(s[k]),
{
}

proof fn lemma_parts_from_json_some(s: Seq<JsonV>)
    requires
        forall|i: int| 0 <= i < s.len() ==> (#[trigger] spec_part_from_json(s[i])) is Some,
    ensures
        spec_parts_from_json(s) is Some,
        spec_parts_from_json(s).unwrap().len() == s.len(),
        forall|k: int|
            0 <= k < s.len() ==> #[trigger] spec_parts_from_json(s).unwrap()[k]
                == spec_part_from_json(s[k]).unwrap(),
{
}

/// Law: a list of parts written to JSON reads back as itself.
pub proof fn lemma_parts_round_trip(ps: Seq<PartView>)
    ensures
        spec_parts_from_json(spec_parts_to_json(ps)) == Some(ps),
{
    let enc = spec_parts_to_json(ps);
    lemma_parts_to_json_index(ps);
    assert forall|i: int| 0 <= i < enc.len() implies (#[trigger] spec_part_from_json(enc[i]))
        is Some by {
        lemma_part_round_trip(ps[i]);
    }
    lemma_parts_from_json_some(enc);
    assert forall|k: int|
        0 <= k < ps.len() implies #[trigger] spec_parts_from_json(enc).unwrap()[k] == ps[k] by {
        lemma_part_round_trip(ps[k]);
    }
    assert(spec_parts_from_json(enc).unwrap() =~= ps);
}

fn parts_to_json(items: &Vec<Part>) -> (r: Vec<JsonValue>)
    ensures
        r.deep_view() == spec_parts_to_json(items.deep_view()),
{
    let ghost cv = items.deep_view();
    let mut out: Vec<JsonValue> = Vec::new();
    proof {
        lemma_parts_to_json_index(cv.take(0));
        assert(out.deep_view() =~~= spec_parts_to_json(cv.take(0)));
    }
    let mut i: usize = 0;
    while i < items.len()
        invariant
            0 <= i <= items.len(),
            cv == items.deep_view(),
            cv.len() == items.len(),
            out.deep_view() == spec_parts_to_json(cv.take(i as int)),
        decreases items.len() - i,
    {
        let item_json = items[i].to_json();
        let ghost xv = item_json.deep_view();
        let ghost pre = out.deep_view();
        out.push(item_json);
        proof {
            lemma_parts_to_json_index(cv.take(i as int));
            lemma_parts_to_json_index(cv.take(i as int + 1));
            assert(cv[i as int] == items@[i as int].deep_view());
            assert(out.deep_view() =~~= pre.push(xv));
            assert(out.deep_view() =~~= spec_parts_to_json(cv.take(i as int + 1)));
        }
        i = i + 1;
    }
    proof {
        assert(cv.take(items.len() as int) =~= cv);
    }
    out
}

fn parts_from_json(items: &Vec<JsonValue>) -> (r: Option<Vec<Part>>)
    ensures
        r.deep_view() == spec_parts_from_json(items.deep_view()),
{
    let ghost iv = items.deep_view();
    let mut out: Vec<Part> = Vec::new();
    proof {
        lemma_parts_from_json_some(iv.take(0));
        assert(spec_parts_from_json(iv.take(0)).unwrap() =~~= out.deep_view());
    }
    let mut i: usize = 0;
    while i < items.len()
        invariant
            0 <= i <= items.len(),
            iv == items.deep_view(),
            iv.len() == items.len(),
            spec_parts_from_json(iv.take(i as int)) == Some(out.deep_view()),
        decreases items.len() - i,
    {
        proof {
            assert(iv[i as int] == items@[i as int].deep_view());
        }
        match Part::from_json(&items[i]) {
            Some(x) => {
                let ghost pre = out.deep_view();
                out.push(x);
                proof {
                    assert forall|j: int| 0 <= j < i + 1 implies (#[trigger] spec_part_from_json(
                        iv.take(i as int + 1)[j],
                    )) is Some by {
                        assert(iv.take(i as int + 1)[j] == iv[j]);
                        if j < i {
                            assert(spec_parts_from_json(iv.take(i as int)) is Some);
                            assert(spec_part_from_json(iv.take(i as int)[j]) is Some);
                        }
                    }
                    lemma_parts_from_json_some(iv.take(i as int));
                    lemma_parts_from_json_some(iv.take(i as int + 1));
                    let next = spec_parts_from_json(iv.take(i as int + 1));
                    assert(out.deep_view() =~~= pre.push(x.deep_view()));
                    assert(next.unwrap() =~~= out.deep_view());
                    assert(next == Some(out.deep_view()));
                }
            },
            None => {
                proof {
                    assert(spec_part_from_json(iv[i as int]) is None);
                }
                return None;
            },
        }
        i = i + 1;
    }
    proof {
        assert(iv.take(items.len() as int) =~= iv);
    }
    Some(out)
}

/// A message as the API reports it; only the parts are always present.
#[derive(Debug, Clone)]
pub struct Email {
    pub fromfull: Option<String>,
    pub headers: Option<Vec<(String, String)>>,
    pub subject: Option<String>,
    pub parts: Vec<Part>,
    pub from: Option<String>,
    pub to: Option<String>,
    pub id: Option<String>,
    pub time: Option<u64>,
    pub seconds_ago: Option<u64>,
}

#[verifier::ext_equal]
pub struct EmailView {
    pub fromfull: Option<Seq<char>>,
    pub headers: Option<Seq<(Seq<char>, Seq<char>)>>,
    pub subject: Option<Seq<char>>,
    pub parts: Seq<PartView>,
    pub from: Option<Seq<char>>,
    pub to: Option<Seq<char>>,
    pub id: Option<Seq<char>>,
    pub time: Option<u64>,
    pub seconds_ago: Option<u64>,
}

impl DeepView for Email {
    type V = EmailView;

    open spec fn deep_view(&self) -> EmailView {
        EmailView {
            fromfull: self.fromfull.deep_view(),
            headers: self.headers.deep_view(),
            subject: self.subject.deep_view(),
            parts: self.parts.deep_view(),
            from: self.from.deep_view(),
            to: self.to.deep_view(),
            id: self.id.deep_view(),
            time: self.time,
            seconds_ago: self.seconds_ago,
        }
    }
}

/// The message a document decodes to: `parts` required, the rest optional;
/// unknown fields are ignored.
pub open spec fn spec_email_from_json(j: JsonV) -> Option<EmailView> {
    match j {
        JsonV::Obj(fields) => {
            let fromfull = spec_opt_str(fields, "fromfull"@);
            let headers = spec_opt_str_map(fields, "headers"@);
            let subject = spec_opt_str(fields, "subject"@);
            let parts = match spec_req_arr(fields, "parts"@) {
                Some(items) => spec_parts_from_json(items),
                None => None,
            };
            let from = spec_opt_str(fields, "from"@);
            let to = spec_opt_str(fields, "to"@);
            let id = spec_opt_str(fields, "id"@);
            let time = spec_opt_u64(fields, "time"@);
            let seconds_ago = spec_opt_u64(fields, "seconds_ago"@);
            if fromfull is Some && headers is Some && subject is Some && parts is Some && from
                is Some && to is Some && id is Some && time is Some && seconds_ago is Some {
                Some(
                    EmailView {
                        fromfull: fromfull.unwrap(),
                        headers: headers.unwrap(),
                        subject: subject.unwrap(),
                        parts: parts.unwrap(),
                        from: from.unwrap(),
                        to: to.unwrap(),
                        id: id.unwrap(),
                        time: time.unwrap(),
                        seconds_ago: seconds_ago.unwrap(),
                    },
                )
            } else {
                None
            }
        },
        _ => None,
    }
}

pub open spec fn spec_email_from_text(s: Seq<char>) -> Option<EmailView> {
    match json_of_text(s) {
        Some(j) => spec_email_from_json(j),
        None => None,
    }
}

impl Email {
    pub fn from_json(j: &JsonValue) -> (r: Option<Email>)
        ensures
            r.deep_view() == spec_email_from_json(j.deep_view()),
    {
        match j {
            JsonValue::Obj(fields) => {
                proof {
                    lemma_obj_view(*fields);
                }
                let fromfull = match get_opt_str(fields, "fromfull") {
                    Some(x) => x,
                    None => {
                        return None;
                    },
                };
                let headers = match get_opt_str_map(fields, "headers") {
                    Some(x) => x,
                    None => {
                        return None;
                    },
                };
                let subject = match get_opt_str(fields, "subject") {
                    Some(x) => x,
                    None => {
                        return None;
                    },
                };
                let parts = match get_req_arr(fields, "parts") {
                    Some(items) => match parts_from_json(items) {
                        Some(ps) => ps,
                        None => {
                            return None;
                        },
                    },
                    None => {
                        return None;
                    },
                };
                let from = match get_opt_str(fields, "from") {
                    Some(x) => x,
                    None => {
                        return None;
                    },
                };
                let to = match get_opt_str(fields, "to") {
                    Some(x) => x,
                    None => {
                        return None;
                    },
                };
                let id = match get_opt_str(fields, "id") {
                    Some(x) => x,
                    None => {
                        return None;
                    },
                };
                let time = match get_opt_u64(fields, "time") {
                    Some(x) => x,
                    None => {
                        return None;
                    },
                };
                let seconds_ago = match get_opt_u64(fields, "seconds_ago") {
                    Some(x) => x,
                    None => {
                        return None;
                    },
                };
                Some(
                    Email {
                        fromfull,
                        headers,
                        subject,
                        parts,
                        from,
                        to,
                        id,
                        time,
                        seconds_ago,
                    },
                )
            },
            _ => None,
        }
    }

    /// Decodes a message from a response body.
    pub fn from_text(body: &str) -> (r: Option<Email>)
        ensures
            r.deep_view() == spec_email_from_text(body@),
    {
        match parse_json_text(body) {
            Some(j) => Self::from_json(&j),
            None => None,
        }
    }
}

/// A new email to inject: subject, sender and parts are always written.
#[derive(Debug, Clone)]
pub struct NewEmail {
    pub fromfull: Option<String>,
    pub headers: Option<Vec<(String, String)>>,
    pub subject: String,
    pub parts: Vec<Part>,
    pub from: String,
    pub text: Option<String>,
}

#[verifier::ext_equal]
pub struct NewEmailView {
    pub fromfull: Option<Seq<char>>,
    pub headers: Option<Seq<(Seq<char>, Seq<char>)>>,
    pub subject: Seq<char>,
    pub parts: Seq<PartView>,
    pub from: Seq<char>,
    pub text: Option<Seq<char>>,
}

impl DeepView for NewEmail {
    type V = NewEmailView;

    open spec fn deep_view(&self) -> NewEmailView {
        NewEmailView {
            fromfull: self.fromfull.deep_view(),
            headers: self.headers.deep_view(),
            subject: self.subject.deep_view(),
            parts: self.parts.deep_view(),
            from: self.from.deep_view(),
            text: self.text.deep_view(),
        }
    }
}

/// The document a new email is sent as: optional fields are omitted when
/// absent, the rest appear in declaration order.
pub open spec fn spec_new_email_to_json(n: NewEmailView) -> JsonV {
    let f0 = Seq::<(Seq<char>, JsonV)>::empty();
    let f1 = if n.fromfull is Some {
        f0.push(("fromfull"@, JsonV::Str(n.fromfull.unwrap())))
    } else {
        f0
    };
    let f2 = if n.headers is Some {
        f1.push(("headers"@, JsonV::Obj(spec_str_map_json(n.headers.unwrap()))))
    } else {
        f1
    };
    let f3 = f2.push(("subject"@, JsonV::Str(n.subject)));
    let f4 = f3.push(("parts"@, JsonV::Arr(spec_parts_to_json(n.parts))));
    let f5 = f4.push(("from"@, JsonV::Str(n.from)));
    let f6 = if n.text is Some {
        f5.push(("text"@, JsonV::Str(n.text.unwrap())))
    } else {
        f5
    };
    JsonV::Obj(f6)
}

impl NewEmail {
    /// Writes the new email as the JSON document the API is given.
    pub fn to_json(&self) -> (r: JsonValue)
        ensures
            r.deep_view() == spec_new_email_to_json(self.deep_view()),
    {
        let mut fields: Vec<(String, JsonValue)> = Vec::new();
        match &self.fromfull {
            Some(s) => {
                fields.push(("fromfull".to_owned(), JsonValue::Str(s.clone())));
            },
            None => {},
        }
        match &self.headers {
            Some(h) => {
                fields.push(("headers".to_owned(), str_map_to_json(h)));
            },
            None => {},
        }
        fields.push(("subject".to_owned(), JsonValue::Str(self.subject.clone())));
        let parts = parts_to_json(&self.parts);
        proof {
            lemma_arr_view(parts);
        }
        fields.push(("parts".to_owned(), JsonValue::Arr(parts)));
        fields.push(("from".to_owned(), JsonValue::Str(self.from.clone())));
        match &self.text {
            Some(s) => {
                fields.push(("text".to_owned(), JsonValue::Str(s.clone())));
            },
            None => {},
        }
        proof {
            lemma_jv_fields(fields@);
            assert(crate::json::jv_fields(fields@) =~~= spec_new_email_to_json(
                self.deep_view(),
            )->Obj_0);
        }
        JsonValue::Obj(fields)
    }
}

/// The message that reading back an injected email yields: the populated
/// fields carried over, the fields only a delivered message has left empty.
pub open spec fn spec_email_of_new(n: NewEmailView) -> EmailView {
    EmailView {
        fromfull: n.fromfull,
        headers: n.headers,
        subject: Some(n.subject),
        parts: n.parts,
        from: Some(n.from),
        to: None,
        id: None,
        time: None,
        seconds_ago: None,
    }
}

/// Law: a new email written to JSON decodes as a message that keeps every
/// populated optional field and leaves the absent ones empty.
pub proof fn lemma_new_email_round_trip(n: NewEmailView)
    ensures
        spec_email_from_json(spec_new_email_to_json(n)) == Some(spec_email_of_new(n)),
{
    broadcast use crate::json::lemma_obj_get_push;

    reveal_strlit("fromfull");
    reveal_strlit("headers");
    reveal_strlit("subject");
    reveal_strlit("parts");
    reveal_strlit("from");
    reveal_strlit("text");
    reveal_strlit("to");
    reveal_strlit("id");
    reveal_strlit("time");
    reveal_strlit("seconds_ago");
    assert("fromfull"@.len() == 8);
    assert("headers"@.len() == 7);
    assert("subject"@.len() == 7);
    assert("parts"@.len() == 5);
    assert("from"@.len() == 4);
    assert("text"@.len() == 4);
    assert("to"@.len() == 2);
    assert("id"@.len() == 2);
    assert("time"@.len() == 4);
    assert("seconds_ago"@.len() == 11);
    assert("headers"@[0] == 'h');
    assert("subject"@[0] == 's');
    assert("from"@[0] == 'f');
    assert("text"@[0] == 't');
    assert("time"@[1] == 'i');
    assert("text"@[1] == 'e');
    if n.headers is Some {
        lemma_str_map_round_trip(n.headers.unwrap());
    }
    lemma_parts_round_trip(n.parts);
    assert(obj_get(Seq::<(Seq<char>, JsonV)>::empty(), "fromfull"@) is None);
    assert(obj_get(Seq::<(Seq<char>, JsonV)>::empty(), "headers"@) is None);
    assert(obj_get(Seq::<(Seq<char>, JsonV)>::empty(), "subject"@) is None);
    assert(obj_get(Seq::<(Seq<char>, JsonV)>::empty(), "parts"@) is None);
    assert(obj_get(Seq::<(Seq<char>, JsonV)>::empty(), "from"@) is None);
    assert(obj_get(Seq::<(Seq<char>, JsonV)>::empty(), "to"@) is None);
    assert(obj_get(Seq::<(Seq<char>, JsonV)>::empty(), "id"@) is None);
    assert(obj_get(Seq::<(Seq<char>, JsonV)>::empty(), "time"@) is None);
    assert(obj_get(Seq::<(Seq<char>, JsonV)>::empty(), "seconds_ago"@) is None);
    assert(spec_email_from_json(spec_new_email_to_json(n)) == Some(spec_email_of_new(n)));
}

#[derive(Debug, Clone)]
pub struct PartBuilder {
    pub headers: Option<Vec<(String, String)>>,
    pub body: Option<String>,
}

impl Default for PartBuilder {
    fn default() -> (r: Self)
        ensures
            r.headers is None,
            r.body is None,
    {
        PartBuilder { headers: None, body: None }
    }
}

impl PartBuilder {
    pub fn headers(self, value: Option<Vec<(String, String)>>) -> (r: Self)
        ensures
            r == (PartBuilder { headers: value, ..self }),
    {
        PartBuilder { headers: value, ..self }
    }

    pub fn body(self, value: Option<String>) -> (r: Self)
        ensures
            r == (PartBuilder { body: value, ..self }),
    {
        PartBuilder { body: value, ..self }
    }

    /// Both fields are optional; building always succeeds.
    pub fn build(self) -> (r: Result<Part, crate::api::BuildError>)
        ensures
            r is Ok,
            r.unwrap() == (Part { headers: self.headers, body: self.body }),
    {
        Ok(Part { headers: self.headers, body: self.body })
    }
}

#[derive(Debug, Clone)]
pub struct NewEmailBuilder {
    pub fromfull: Option<String>,
    pub headers: Option<Vec<(String, String)>>,
    pub subject: Option<String>,
    pub parts: Option<Vec<Part>>,
    pub from: Option<String>,
    pub text: Option<String>,
}

impl Default for NewEmailBuilder {
    fn default() -> (r: Self)
        ensures
            r.fromfull is None,
            r.headers is None,
            r.subject is None,
            r.parts is None,
            r.from is None,
            r.text is None,
    {
        NewEmailBuilder {
            fromfull: None,
            headers: None,
            subject: None,
            parts: None,
            from: None,
            text: None,
        }
    }
}

impl NewEmailBuilder {
    pub fn fromfull(self, value: Option<String>) -> (r: Self)
        ensures
            r == (NewEmailBuilder { fromfull: value, ..self }),
    {
        NewEmailBuilder { fromfull: value, ..self }
    }

    pub fn headers(self, value: Option<Vec<(String, String)>>) -> (r: Self)
        ensures
            r == (NewEmailBuilder { headers: value, ..self }),
    {
        NewEmailBuilder { headers: value, ..self }
    }

    pub fn subject(self, value: String) -> (r: Self)
        ensures
            r == (NewEmailBuilder { subject: Some(value), ..self }),
    {
        NewEmailBuilder { subject: Some(value), ..self }
    }

    pub fn parts(self, value: Vec<Part>) -> (r: Self)
        ensures
            r == (NewEmailBuilder { parts: Some(value), ..self }),
    {
        NewEmailBuilder { parts: Some(value), ..self }
    }

    pub fn from(self, value: String) -> (r: Self)
        ensures
            r == (NewEmailBuilder { from: Some(value), ..self }),
    {
        NewEmailBuilder { from: Some(value), ..self }
    }

    pub fn text(self, value: Option<String>) -> (r: Self)
        ensures
            r == (NewEmailBuilder { text: value, ..self }),
    {
        NewEmailBuilder { text: value, ..self }
    }

    /// Subject, parts and sender are required; the rest stay optional.
    pub fn build(self) -> (r: Result<NewEmail, crate::api::BuildError>)
        ensures
            match r {
                Ok(q) => {
                    &&& self.subject is Some
                    &&& self.parts is Some
                    &&& self.from is Some
                    &&& q.fromfull == self.fromfull
                    &&& q.headers == self.headers
                    &&& q.subject == self.subject.unwrap()
                    &&& q.parts == self.parts.unwrap()
                    &&& q.from == self.from.unwrap()
                    &&& q.text == self.text
                },
                Err(e) => e == crate::api::BuildError::UninitializedField && (self.subject is None
                    || self.parts is None || self.from is None),
            },
    {
        let NewEmailBuilder { fromfull, headers, subject, parts, from, text } = self;
        match (subject, parts, from) {
            (Some(s), Some(ps), Some(f)) => Ok(
                NewEmail { fromfull, headers, subject: s, parts: ps, from: f, text },
            ),
            _ => Err(crate::api::BuildError::UninitializedField),
        }
    }
}

/// The fetch-message path: by inbox when one is named, by domain alone
/// otherwise.
pub open spec fn spec_fetch_message_path(
    domain: Seq<char>,
    inbox: Option<Seq<char>>,
    message_id: Seq<char>,
) -> Seq<char> {
    match inbox {
        Some(ibx) => "/api/v2/domains/"@ + domain + "/inboxes/"@ + ibx + "/messages/"@
            + message_id,
        None => "/api/v2/domains/"@ + domain + "/messages/"@ + message_id,
    }
}

/// Names one message, within an inbox or within the whole domain.
#[derive(Debug, Clone)]
pub struct FetchMessageRequest {
    pub domain: String,
    pub inbox: Option<String>,
    pub message_id: String,
}

impl FetchMessageRequest {
    pub fn as_url_path(self) -> (r: String)
        ensures
            r@ == spec_fetch_message_path(self.domain@, self.inbox.deep_view(), self.message_id@),
    {
        let FetchMessageRequest { domain, inbox, message_id } = self;
        match inbox {
            Some(ibx) => {
                let mut s = "/api/v2/domains/".to_owned();
                s.append(domain.as_str());
                s.append("/inboxes/");
                s.append(ibx.as_str());
                s.append("/messages/");
                s.append(message_id.as_str());
                s
            },
            None => {
                let mut s = "/api/v2/domains/".to_owned();
                s.append(domain.as_str());
                s.append("/messages/");
                s.append(message_id.as_str());
                s
            },
        }
    }
}

#[derive(Debug, Clone)]
pub struct FetchMessageRequestBuilder {
    pub domain: Option<String>,
    pub inbox: Option<String>,
    pub message_id: Option<String>,
}

impl Default for FetchMessageRequestBuilder {
    fn default() -> (r: Self)
        ensures
            r.domain is None,
            r.inbox is None,
            r.message_id is None,
    {
        FetchMessageRequestBuilder { domain: None, inbox: None, message_id: None }
    }
}

impl FetchMessageRequestBuilder {
    pub fn domain(self, value: String) -> (r: Self)
        ensures
            r == (FetchMessageRequestBuilder { domain: Some(value), ..self }),
    {
        FetchMessageRequestBuilder { domain: Some(value), ..self }
    }

    pub fn inbox(self, value: Option<String>) -> (r: Self)
        ensures
            r == (FetchMessageRequestBuilder { inbox: value, ..self }),
    {
        FetchMessageRequestBuilder { inbox: value, ..self }
    }

    pub fn message_id(self, value: String) -> (r: Self)
        ensures
            r == (FetchMessageRequestBuilder { message_id: Some(value), ..self }),
    {
        FetchMessageRequestBuilder { message_id: Some(value), ..self }
    }

    /// Domain and message id are required; the inbox stays optional.
    pub fn build(self) -> (r: Result<FetchMessageRequest, crate::api::BuildError>)
        ensures
            match r {
                Ok(q) => {
                    &&& self.domain is Some
                    &&& self.message_id is Some
                    &&& q.domain == self.domain.unwrap()
                    &&& q.inbox == self.inbox
                    &&& q.message_id == self.message_id.unwrap()
                },
                Err(e) => e == crate::api::BuildError::UninitializedField && (self.domain is None
                    || self.message_id is None),
            },
    {
        let FetchMessageRequestBuilder { domain, inbox, message_id } = self;
        match (domain, message_id) {
            (Some(d), Some(m)) => Ok(FetchMessageRequest { domain: d, inbox, message_id: m }),
            _ => Err(crate::api::BuildError::UninitializedField),
        }
    }
}

/// SMS messages sit in an inbox named by the phone number.
pub open spec fn spec_fetch_sms_message_path(domain: Seq<char>, sms_number: u64) -> Seq<char> {
    "/api/v2/domains/"@ + domain + "/inboxes/"@ + crate::digits::spec_dec(sms_number as nat)
}

/// Names the phone-number inbox whose message is fetched.
#[derive(Debug, Clone)]
pub struct FetchSmsMessageRequest {
    pub domain: String,
    pub sms_number: u64,
}

impl FetchSmsMessageRequest {
    pub fn as_url_path(self) -> (r: String)
        ensures
            r@ == spec_fetch_sms_message_path(self.domain@, self.sms_number),
    {
        let mut s = "/api/v2/domains/".to_owned();
        s.append(self.domain.as_str());
        s.append("/inboxes/");
        s.append(u64_to_dec(self.sms_number).as_str());
        s
    }
}

#[derive(Debug, Clone)]
pub struct FetchSmsMessageRequestBuilder {
    pub domain: Option<String>,
    pub sms_number: Option<u64>,
}

impl Default for FetchSmsMessageRequestBuilder {
    fn default() -> (r: Self)
        ensures
            r.domain is None,
            r.sms_number is None,
    {
        FetchSmsMessageRequestBuilder { domain: None, sms_number: None }
    }
}

impl FetchSmsMessageRequestBuilder {
    pub fn domain(self, value: String) -> (r: Self)
        ensures
            r == (FetchSmsMessageRequestBuilder { domain: Some(value), ..self }),
    {
        FetchSmsMessageRequestBuilder { domain: Some(value), ..self }
    }

    pub fn sms_number(self, value: u64) -> (r: Self)
        ensures
            r == (FetchSmsMessageRequestBuilder { sms_number: Some(value), ..self }),
    {
        FetchSmsMessageRequestBuilder { sms_number: Some(value), ..self }
    }

    pub fn build(self) -> (r: Result<FetchSmsMessageRequest, crate::api::BuildError>)
        ensures
            match r {
                Ok(q) => {
                    &&& self.domain is Some
                    &&& self.sms_number is Some
                    &&& q.domain == self.domain.unwrap()
                    &&& q.sms_number == self.sms_number.unwrap()
                },
                Err(e) => e == crate::api::BuildError::UninitializedField && (self.domain is None
                    || self.sms_number is None),
            },
    {
        let FetchSmsMessageRequestBuilder { domain, sms_number } = self;
        match (domain, sms_number) {
            (Some(d), Some(n)) => Ok(FetchSmsMessageRequest { domain: d, sms_number: n }),
            _ => Err(crate::api::BuildError::UninitializedField),
        }
    }
}

pub open spec fn spec_delete_all_domain_messages_path(domain: Seq<char>) -> Seq<char> {
    "/api/v2/domains/"@ + domain + "/inboxes/"@
}

/// Names the domain all of whose messages are deleted.
#[derive(Debug, Clone)]
pub struct DeleteAllDomainMessageRequest {
    pub domain: String,
}

impl DeleteAllDomainMessageRequest {
    pub fn as_url_path(self) -> (r: String)
        ensures
            r@ == spec_delete_all_domain_messages_path(self.domain@),
    {
        let mut s = "/api/v2/domains/".to_owned();
        s.append(self.domain.as_str());
        s.append("/inboxes/");
        s
    }
}

#[derive(Debug, Clone)]
pub struct DeleteAllDomainMessageRequestBuilder {
    pub domain: Option<String>,
}

impl Default for DeleteAllDomainMessageRequestBuilder {
    fn default() -> (r: Self)
        ensures
            r.domain is None,
    {
        DeleteAllDomainMessageRequestBuilder { domain: None }
    }
}

impl DeleteAllDomainMessageRequestBuilder {
    pub fn domain(self, value: String) -> (r: Self)
        ensures
            r.domain == Some(value),
    {
        DeleteAllDomainMessageRequestBuilder { domain: Some(value) }
    }

    pub fn build(self) -> (r: Result<DeleteAllDomainMessageRequest, crate::api::BuildError>)
        ensures
            match r {
                Ok(q) => self.domain is Some && q.domain == self.domain.unwrap(),
                Err(e) => e == crate::api::BuildError::UninitializedField && self.domain is None,
            },
    {
        match self.domain {
            Some(d) => Ok(DeleteAllDomainMessageRequest { domain: d }),
            None => Err(crate::api::BuildError::UninitializedField),
        }
    }
}

pub open spec fn spec_delete_all_inbox_messages_path(
    domain: Seq<char>,
    inbox: Seq<char>,
) -> Seq<char> {
    "/api/v2/domains/"@ + domain + "/inboxes/"@ + inbox
}

/// Names the inbox all of whose messages are deleted.
#[derive(Debug, Clone)]
pub struct DeleteAllInboxMessageRequest {
    pub domain: String,
    pub inbox: String,
}

impl DeleteAllInboxMessageRequest {
    pub fn as_url_path(self) -> (r: String)
        ensures
            r@ == spec_delete_all_inbox_messages_path(self.domain@, self.inbox@),
    {
        let mut s = "/api/v2/domains/".to_owned();
        s.append(self.domain.as_str());
        s.append("/inboxes/");
        s.append(self.inbox.as_str());
        s
    }
}

#[derive(Debug, Clone)]
pub struct DeleteAllInboxMessageRequestBuilder {
    pub domain: Option<String>,
    pub inbox: Option<String>,
}

impl Default for DeleteAllInboxMessageRequestBuilder {
    fn default() -> (r: Self)
        ensures
            r.domain is None,
            r.inbox is None,
    {
        DeleteAllInboxMessageRequestBuilder { domain: None, inbox: None }
    }
}

impl DeleteAllInboxMessageRequestBuilder {
    pub fn domain(self, value: String) -> (r: Self)
        ensures
            r == (DeleteAllInboxMessageRequestBuilder { domain: Some(value), ..self }),
    {
        DeleteAllInboxMessageRequestBuilder { domain: Some(value), ..self }
    }

    pub fn inbox(self, value: String) -> (r: Self)
        ensures
            r == (DeleteAllInboxMessageRequestBuilder { inbox: Some(value), ..self }),
    {
        DeleteAllInboxMessageRequestBuilder { inbox: Some(value), ..self }
    }

    pub fn build(self) -> (r: Result<DeleteAllInboxMessageRequest, crate::api::BuildError>)
        ensures
            match r {
                Ok(q) => {
                    &&& self.domain is Some
                    &&& self.inbox is Some
                    &&& q.domain == self.domain.unwrap()
                    &&& q.inbox == self.inbox.unwrap()
                },
                Err(e) => e == crate::api::BuildError::UninitializedField && (self.domain is None
                    || self.inbox is None),
            },
    {
        let DeleteAllInboxMessageRequestBuilder { domain, inbox } = self;
        match (domain, inbox) {
            (Some(d), Some(ibx)) => Ok(DeleteAllInboxMessageRequest { domain: d, inbox: ibx }),
            _ => Err(crate::api::BuildError::UninitializedField),
        }
    }
}

pub open spec fn spec_delete_message_path(
    domain: Seq<char>,
    inbox: Seq<char>,
    message_id: Seq<char>,
) -> Seq<char> {
    "/api/v2/domains/"@ + domain + "/inboxes/"@ + inbox + "/messages/"@ + message_id
}

/// Names one message of an inbox for deletion.
#[derive(Debug, Clone)]
pub struct DeleteMessageRequest {
    pub domain: String,
    pub inbox: String,
    pub message_id: String,
}

impl DeleteMessageRequest {
    pub fn as_url_path(self) -> (r: String)
        ensures
            r@ == spec_delete_message_path(self.domain@, self.inbox@, self.message_id@),
    {
        let mut s = "/api/v2/domains/".to_owned();
        s.append(self.domain.as_str());
        s.append("/inboxes/");
        s.append(self.inbox.as_str());
        s.append("/messages/");
        s.append(self.message_id.as_str());
        s
    }
}

#[derive(Debug, Clone)]
pub struct DeleteMessageRequestBuilder {
    pub domain: Option<String>,
    pub inbox: Option<String>,
    pub message_id: Option<String>,
}

impl Default for DeleteMessageRequestBuilder {
    fn default() -> (r: Self)
        ensures
            r.domain is None,
            r.inbox is None,
            r.message_id is None,
    {
        DeleteMessageRequestBuilder { domain: None, inbox: None, message_id: None }
    }
}

impl DeleteMessageRequestBuilder {
    pub fn domain(self, value: String) -> (r: Self)
        ensures
            r == (DeleteMessageRequestBuilder { domain: Some(value), ..self }),
    {
        DeleteMessageRequestBuilder { domain: Some(value), ..self }
    }

    pub fn inbox(self, value: String) -> (r: Self)
        ensures
            r == (DeleteMessageRequestBuilder { inbox: Some(value), ..self }),
    {
        DeleteMessageRequestBuilder { inbox: Some(value), ..self }
    }

    pub fn message_id(self, value: String) -> (r: Self)
        ensures
            r == (DeleteMessageRequestBuilder { message_id: Some(value), ..self }),
    {
        DeleteMessageRequestBuilder { message_id: Some(value), ..self }
    }

    pub fn build(self) -> (r: Result<DeleteMessageRequest, crate::api::BuildError>)
        ensures
            match r {
                Ok(q) => {
                    &&& self.domain is Some
                    &&& self.inbox is Some
                    &&& self.message_id is Some
                    &&& q.domain == self.domain.unwrap()
                    &&& q.inbox == self.inbox.unwrap()
                    &&& q.message_id == self.message_id.unwrap()
                },
                Err(e) => e == crate::api::BuildError::UninitializedField && (self.domain is None
                    || self.inbox is None || self.message_id is None),
            },
    {
        let DeleteMessageRequestBuilder { domain, inbox, message_id } = self;
        match (domain, inbox, message_id) {
            (Some(d), Some(ibx), Some(m)) => Ok(
                DeleteMessageRequest { domain: d, inbox: ibx, message_id: m },
            ),
            _ => Err(crate::api::BuildError::UninitializedField),
        }
    }
}

pub open spec fn spec_inject_message_path(domain: Seq<char>, inbox: Seq<char>) -> Seq<char> {
    "/api/v2/domains/"@ + domain + "/inboxes/"@ + inbox
}

/// Names the inbox a new email is injected into.
#[derive(Debug, Clone)]
pub struct InjectMessageRequest {
    pub domain: String,
    pub inbox: String,
}

impl InjectMessageRequest {
    pub fn as_url_path(self) -> (r: String)
        ensures
            r@ == spec_inject_message_path(self.domain@, self.inbox@),
    {
        let mut s = "/api/v2/domains/".to_owned();
        s.append(self.domain.as_str());
        s.append("/inboxes/");
        s.append(self.inbox.as_str());
        s
    }
}

#[derive(Debug, Clone)]
pub struct InjectMessageRequestBuilder {
    pub domain: Option<String>,
    pub inbox: Option<String>,
}

impl Default for InjectMessageRequestBuilder {
    fn default() -> (r: Self)
        ensures
            r.domain is None,
            r.inbox is None,
    {
        InjectMessageRequestBuilder { domain: None, inbox: None }
    }
}

impl InjectMessageRequestBuilder {
    pub fn domain(self, value: String) -> (r: Self)
        ensures
            r == (InjectMessageRequestBuilder { domain: Some(value), ..self }),
    {
        InjectMessageRequestBuilder { domain: Some(value), ..self }
    }

    pub fn inbox(self, value: String) -> (r: Self)
        ensures
            r == (InjectMessageRequestBuilder { inbox: Some(value), ..self }),
    {
        InjectMessageRequestBuilder { inbox: Some(value), ..self }
    }

    pub fn build(self) -> (r: Result<InjectMessageRequest, crate::api::BuildError>)
        ensures
            match r {
                Ok(q) => {
                    &&& self.domain is Some
                    &&& self.inbox is Some
                    &&& q.domain == self.domain.unwrap()
                    &&& q.inbox == self.inbox.unwrap()
                },
                Err(e) => e == crate::api::BuildError::UninitializedField && (self.domain is None
                    || self.inbox is None),
            },
    {
        let InjectMessageRequestBuilder { domain, inbox } = self;
        match (domain, inbox) {
            (Some(d), Some(ibx)) => Ok(InjectMessageRequest { domain: d, inbox: ibx }),
            _ => Err(crate::api::BuildError::UninitializedField),
        }
    }
}

/// What a deletion endpoint answers: a status word and how many messages
/// went.
#[derive(Debug, Clone)]
pub struct DeleteMessageResponse {
    pub status: String,
    pub messages_deleted: u64,
}

#[verifier::ext_equal]
pub struct DeleteMessageResponseView {
    pub status: Seq<char>,
    pub messages_deleted: u64,
}

impl DeepView for DeleteMessageResponse {
    type V = DeleteMessageResponseView;

    open spec fn deep_view(&self) -> DeleteMessageResponseView {
        DeleteMessageResponseView {
            status: self.status.deep_view(),
            messages_deleted: self.messages_deleted,
        }
    }
}

pub open spec fn spec_delete_message_response_from_json(j: JsonV) -> Option<
    DeleteMessageResponseView,
> {
    match j {
        JsonV::Obj(fields) => match (spec_req_str(fields, "status"@), spec_req_u64(
            fields,
            "messages_deleted"@,
        )) {
            (Some(s), Some(n)) => Some(
                DeleteMessageResponseView { status: s, messages_deleted: n },
            ),
            _ => None,
        },
        _ => None,
    }
}

pub open spec fn spec_delete_message_response_from_text(s: Seq<char>) -> Option<
    DeleteMessageResponseView,
> {
    match json_of_text(s) {
        Some(j) => spec_delete_message_response_from_json(j),
        None => None,
    }
}

impl DeleteMessageResponse {
    pub fn from_json(j: &JsonValue) -> (r: Option<DeleteMessageResponse>)
        ensures
            r.deep_view() == spec_delete_message_response_from_json(j.deep_view()),
    {
        match j {
            JsonValue::Obj(fields) => {
                proof {
                    lemma_obj_view(*fields);
                }
                let status = match get_req_str(fields, "status") {
                    Some(s) => s,
                    None => {
                        return None;
                    },
                };
                let messages_deleted = match get_req_u64(fields, "messages_deleted") {
                    Some(n) => n,
                    None => {
                        return None;
                    },
                };
                Some(DeleteMessageResponse { status, messages_deleted })
            },
            _ => None,
        }
    }

    /// Decodes a deletion report from a response body.
    pub fn from_text(body: &str) -> (r: Option<DeleteMessageResponse>)
        ensures
            r.deep_view() == spec_delete_message_response_from_text(body@),
    {
        match parse_json_text(body) {
            Some(j) => Self::from_json(&j),
            None => None,
        }
    }
}

/// What the injection endpoint answers: a status word and the new message's
/// id.
#[derive(Debug, Clone)]
pub struct InjectMessageResponse {
    pub status: String,
    pub id: String,
}

#[verifier::ext_equal]
pub struct InjectMessageResponseView {
    pub status: Seq<char>,
    pub id: Seq<char>,
}

impl DeepView for InjectMessageResponse {
    type V = InjectMessageResponseView;

    open spec fn deep_view(&self) -> InjectMessageResponseView {
        InjectMessageResponseView { status: self.status.deep_view(), id: self.id.deep_view() }
    }
}

pub open spec fn spec_inject_message_response_from_json(j: JsonV) -> Option<
    InjectMessageResponseView,
> {
    match j {
        JsonV::Obj(fields) => match (spec_req_str(fields, "status"@), spec_req_str(
            fields,
            "id"@,
        )) {
            (Some(s), Some(id)) => Some(InjectMessageResponseView { status: s, id }),
            _ => None,
        },
        _ => None,
    }
}

pub open spec fn spec_inject_message_response_from_text(s: Seq<char>) -> Option<
    InjectMessageResponseView,
> {
    match json_of_text(s) {
        Some(j) => spec_inject_message_response_from_json(j),
        None => None,
    }
}

impl InjectMessageResponse {
    pub fn from_json(j: &JsonValue) -> (r: Option<InjectMessageResponse>)
        ensures
            r.deep_view() == spec_inject_message_response_from_json(j.deep_view()),
    {
        match j {
            JsonValue::Obj(fields) => {
                proof {
                    lemma_obj_view(*fields);
                }
                let status = match get_req_str(fields, "status") {
                    Some(s) => s,
                    None => {
                        return None;
                    },
                };
                let id = match get_req_str(fields, "id") {
                    Some(x) => x,
                    None => {
                        return None;
                    },
                };
                Some(InjectMessageResponse { status, id })
            },
            _ => None,
        }
    }

    /// Decodes an injection report from a response body.
    pub fn from_text(body: &str) -> (r: Option<InjectMessageResponse>)
        ensures
            r.deep_view() == spec_inject_message_response_from_text(body@),
    {
        match parse_json_text(body) {
            Some(j) => Self::from_json(&j),
            None => None,
        }
    }
}

/// Plans fetching one message.
pub fn fetch_message(request: FetchMessageRequest) -> (p: HttpPlan)
    ensures
        p.method == HttpMethod::Get,
        p.path@ == spec_fetch_message_path(
            request.domain@,
            request.inbox.deep_view(),
            request.message_id@,
        ),
        p.body is Empty,
{
    let path = request.as_url_path();
    HttpPlan { method: HttpMethod::Get, path, body: RequestBody::Empty }
}

/// Plans fetching an SMS message.
pub fn fetch_sms_message(request: FetchSmsMessageRequest) -> (p: HttpPlan)
    ensures
        p.method == HttpMethod::Get,
        p.path@ == spec_fetch_sms_message_path(request.domain@, request.sms_number),
        p.body is Empty,
{
    let path = request.as_url_path();
    HttpPlan { method: HttpMethod::Get, path, body: RequestBody::Empty }
}

/// Plans deleting every message of a domain.
pub fn delete_all_domain_messages(request: DeleteAllDomainMessageRequest) -> (p: HttpPlan)
    ensures
        p.method == HttpMethod::Delete,
        p.path@ == spec_delete_all_domain_messages_path(request.domain@),
        p.body is Empty,
{
    let path = request.as_url_path();
    HttpPlan { method: HttpMethod::Delete, path, body: RequestBody::Empty }
}

/// Plans deleting every message of an inbox.
pub fn delete_all_inbox_messages(request: DeleteAllInboxMessageRequest) -> (p: HttpPlan)
    ensures
        p.method == HttpMethod::Delete,
        p.path@ == spec_delete_all_inbox_messages_path(request.domain@, request.inbox@),
        p.body is Empty,
{
    let path = request.as_url_path();
    HttpPlan { method: HttpMethod::Delete, path, body: RequestBody::Empty }
}

/// Plans deleting one message.
pub fn delete_message(request: DeleteMessageRequest) -> (p: HttpPlan)
    ensures
        p.method == HttpMethod::Delete,
        p.path@ == spec_delete_message_path(request.domain@, request.inbox@, request.message_id@),
        p.body is Empty,
{
    let path = request.as_url_path();
    HttpPlan { method: HttpMethod::Delete, path, body: RequestBody::Empty }
}

/// Plans injecting a new email: the email rides along as a JSON body.
pub fn inject_message(request: InjectMessageRequest, email: &NewEmail) -> (p: HttpPlan)
    ensures
        p.method == HttpMethod::PostJson,
        p.path@ == spec_inject_message_path(request.domain@, request.inbox@),
        p.body is Json,
        p.body->Json_0@ == json_text_of(spec_new_email_to_json(email.deep_view())),
{
    let path = request.as_url_path();
    let body = render_json_text(&email.to_json());
    HttpPlan { method: HttpMethod::PostJson, path, body: RequestBody::Json(body) }
}

} // verus!