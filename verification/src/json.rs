//! A plain model of a JSON document, and the bridge to its wire text.
//!
//! The remote API speaks JSON. The library reads and writes documents as
//! `JsonValue`, a tree of plain values: numbers keep their textual form, so
//! a document is represented without floating point. Turning wire text into
//! a `JsonValue` and back is delegated to serde_json behind trusted
//! declarations; everything that inspects or builds a document is verified
//! against the ghost mirror `JsonV`.

use vstd::prelude::*;
use vstd::string::StringExecFns;

verus! {

/// A JSON document as plain data. A number is kept as the text serde_json
/// read or would write for it; an object keeps its bindings in order.
#[derive(Debug)]
pub enum JsonValue {
    Null,
    Bool(bool),
    Num(String),
    Str(String),
    Arr(Vec<JsonValue>),
    Obj(Vec<(String, JsonValue)>),
}

/// The ghost mirror of `JsonValue`: what contracts and laws speak of.
#[verifier::ext_equal]
pub enum JsonV {
    Null,
    Bool(bool),
    Num(Seq<char>),
    Str(Seq<char>),
    Arr(Seq<JsonV>),
    Obj(Seq<(Seq<char>, JsonV)>),
}

/// The ghost mirror of a concrete document.
pub open spec fn jv(j: JsonValue) -> JsonV
    decreases j,
{
    match j {
        JsonValue::Null => JsonV::Null,
        JsonValue::Bool(b) => JsonV::Bool(b),
        JsonValue::Num(s) => JsonV::Num(s@),
        JsonValue::Str(s) => JsonV::Str(s@),
        JsonValue::Arr(items) => JsonV::Arr(jv_list(j->Arr_0@)),
        JsonValue::Obj(fields) => JsonV::Obj(jv_fields(j->Obj_0@)),
    }
}

/// The ghost mirrors of an array's items.
pub open spec fn jv_list(items: Seq<JsonValue>) -> Seq<JsonV>
    decreases items,
{
    if items.len() == 0 {
        Seq::empty()
    } else {
        seq![jv(items.first())] + jv_list(items.drop_first())
    }
}

/// The ghost mirrors of an object's bindings.
pub open spec fn jv_fields(fields: Seq<(String, JsonValue)>) -> Seq<(Seq<char>, JsonV)>
    decreases fields,
{
    if fields.len() == 0 {
        Seq::empty()
    } else {
        seq![(fields.first().0@, jv(fields.first().1))] + jv_fields(fields.drop_first())
    }
}

/// `jv_list` maps `jv` over the items.
pub proof fn lemma_jv_list(items: Seq<JsonValue>)
    ensures
        jv_list(items).len() == items.len(),
        forall|i: int| 0 <= i < items.len() ==> #[trigger] jv_list(items)[i] == jv(items[i]),
    decreases items.len(),
{
    if items.len() > 0 {
        lemma_jv_list(items.drop_first());
        assert forall|i: int| 0 <= i < items.len() implies #[trigger] jv_list(items)[i] == jv(
            items[i],
        ) by {
            if i > 0 {
                assert(jv_list(items)[i] == jv_list(items.drop_first())[i - 1]);
                assert(items.drop_first()[i - 1] == items[i]);
            }
        }
    }
}

/// `jv_fields` maps the key view and `jv` over the bindings.
pub proof fn lemma_jv_fields(fields: Seq<(String, JsonValue)>)
    ensures
        jv_fields(fields).len() == fields.len(),
        forall|i: int|
            0 <= i < fields.len() ==> #[trigger] jv_fields(fields)[i] == (fields[i].0@, jv(
                fields[i].1,
            )),
    decreases fields.len(),
{
    if fields.len() > 0 {
        lemma_jv_fields(fields.drop_first());
        assert forall|i: int| 0 <= i < fields.len() implies #[trigger] jv_fields(fields)[i] == (
        fields[i].0@, jv(fields[i].1)) by {
            if i > 0 {
                assert(jv_fields(fields)[i] == jv_fields(fields.drop_first())[i - 1]);
                assert(fields.drop_first()[i - 1] == fields[i]);
            }
        }
    }
}

impl DeepView for JsonValue {
    type V = JsonV;

    open spec fn deep_view(&self) -> JsonV {
        jv(*self)
    }
}

/// The first binding of `key` in an object's fields, if any. Documents that
/// arrive from serde_json never bind a key twice.
pub open spec fn obj_get(fields: Seq<(Seq<char>, JsonV)>, key: Seq<char>) -> Option<JsonV>
    decreases fields.len(),
{
    if fields.len() == 0 {
        None
    } else if fields[0].0 == key {
        Some(fields[0].1)
    } else {
        obj_get(fields.drop_first(), key)
    }
}

/// Appending a binding changes a lookup only where the key was unbound.
pub broadcast proof fn lemma_obj_get_push(
    fields: Seq<(Seq<char>, JsonV)>,
    k: Seq<char>,
    v: JsonV,
    key: Seq<char>,
)
    ensures
        #[trigger] obj_get(fields.push((k, v)), key) == (match obj_get(fields, key) {
            Some(w) => Some(w),
            None => if k == key {
                Some(v)
            } else {
                None
            },
        }),
    decreases fields.len(),
{
    if fields.len() == 0 {
        assert(fields.push((k, v))[0] == (k, v));
        assert(fields.push((k, v)).drop_first() =~= Seq::<(Seq<char>, JsonV)>::empty());
    } else {
        assert(fields.push((k, v))[0] == fields[0]);
        assert(fields.push((k, v)).drop_first() =~= fields.drop_first().push((k, v)));
        lemma_obj_get_push(fields.drop_first(), k, v, key);
    }
}

/// String equality by characters.
pub fn str_eq(a: &str, b: &str) -> (r: bool)
    ensures
        r == (a@ == b@),
{
    let sa = a.to_owned();
    let sb = b.to_owned();
    sa == sb
}

/// Looks `key` up among an object's fields.
pub fn json_obj_get<'a>(fields: &'a Vec<(String, JsonValue)>, key: &str) -> (r: Option<
    &'a JsonValue,
>)
    ensures
        match r {
            Some(j) => obj_get(fields.deep_view(), key@) == Some(j.deep_view()),
            None => obj_get(fields.deep_view(), key@) is None,
        },
{
    let ghost fv = fields.deep_view();
    proof {
        assert(fv.skip(0) =~= fv);
    }
    let mut i: usize = 0;
    while i < fields.len()
        invariant
            0 <= i <= fields.len(),
            fv == fields.deep_view(),
            fv.len() == fields.len(),
            obj_get(fv, key@) == obj_get(fv.skip(i as int), key@),
        decreases fields.len() - i,
    {
        proof {
            assert(fv.skip(i as int)[0] == fv[i as int]);
            assert(fv.skip(i as int).drop_first() =~= fv.skip(i as int + 1));
        }
        if str_eq(fields[i].0.as_str(), key) {
            return Some(&fields[i].1);
        }
        i = i + 1;
    }
    proof {
        assert(fv.skip(fields.len() as int) =~= Seq::<(Seq<char>, JsonV)>::empty());
    }
    None
}

/// `jv_fields` of a vector's contents is the vector's own deep view.
pub proof fn lemma_obj_view(fields: Vec<(String, JsonValue)>)
    ensures
        jv_fields(fields@) == fields.deep_view(),
{
    lemma_jv_fields(fields@);
    assert(jv_fields(fields@) =~= fields.deep_view());
}

/// `jv_list` of a vector's contents is the vector's own deep view.
pub proof fn lemma_arr_view(items: Vec<JsonValue>)
    ensures
        jv_list(items@) == items.deep_view(),
{
    lemma_jv_list(items@);
    assert(jv_list(items@) =~= items.deep_view());
}

/// A required string field: bound and a string, or the record is rejected.
pub open spec fn spec_req_str(fields: Seq<(Seq<char>, JsonV)>, key: Seq<char>) -> Option<
    Seq<char>,
> {
    match obj_get(fields, key) {
        Some(JsonV::Str(s)) => Some(s),
        _ => None,
    }
}

/// An optional string field: absent or null reads as `None`; anything bound
/// that is not a string rejects the record.
pub open spec fn spec_opt_str(fields: Seq<(Seq<char>, JsonV)>, key: Seq<char>) -> Option<
    Option<Seq<char>>,
> {
    match obj_get(fields, key) {
        None => Some(None),
        Some(JsonV::Null) => Some(None),
        Some(JsonV::Str(s)) => Some(Some(s)),
        Some(_) => None,
    }
}

/// A required unsigned field: bound to a canonical `u64` decimal.
pub open spec fn spec_req_u64(fields: Seq<(Seq<char>, JsonV)>, key: Seq<char>) -> Option<u64> {
    match obj_get(fields, key) {
        Some(JsonV::Num(s)) => if crate::digits::is_canonical_dec(s) {
            Some(crate::digits::digits_val(s) as u64)
        } else {
            None
        },
        _ => None,
    }
}

/// An optional unsigned field.
pub open spec fn spec_opt_u64(fields: Seq<(Seq<char>, JsonV)>, key: Seq<char>) -> Option<
    Option<u64>,
> {
    match obj_get(fields, key) {
        None => Some(None),
        Some(JsonV::Null) => Some(None),
        Some(JsonV::Num(s)) => if crate::digits::is_canonical_dec(s) {
            Some(Some(crate::digits::digits_val(s) as u64))
        } else {
            None
        },
        Some(_) => None,
    }
}

/// A required boolean field.
pub open spec fn spec_req_bool(fields: Seq<(Seq<char>, JsonV)>, key: Seq<char>) -> Option<bool> {
    match obj_get(fields, key) {
        Some(JsonV::Bool(b)) => Some(b),
        _ => None,
    }
}

/// An optional boolean field.
pub open spec fn spec_opt_bool(fields: Seq<(Seq<char>, JsonV)>, key: Seq<char>) -> Option<
    Option<bool>,
> {
    match obj_get(fields, key) {
        None => Some(None),
        Some(JsonV::Null) => Some(None),
        Some(JsonV::Bool(b)) => Some(Some(b)),
        Some(_) => None,
    }
}

/// An object whose values are all strings, read as a list of bindings in
/// the object's order.
pub open spec fn spec_str_entries(fields: Seq<(Seq<char>, JsonV)>) -> Option<
    Seq<(Seq<char>, Seq<char>)>,
> {
    if forall|i: int| 0 <= i < fields.len() ==> (#[trigger] fields[i]).1 is Str {
        Some(fields.map_values(|f: (Seq<char>, JsonV)| (f.0, f.1->Str_0)))
    } else {
        None
    }
}

/// An optional string-to-string object field (a header map).
pub open spec fn spec_opt_str_map(fields: Seq<(Seq<char>, JsonV)>, key: Seq<char>) -> Option<
    Option<Seq<(Seq<char>, Seq<char>)>>,
> {
    match obj_get(fields, key) {
        None => Some(None),
        Some(JsonV::Null) => Some(None),
        Some(JsonV::Obj(entries)) => match spec_str_entries(entries) {
            Some(m) => Some(Some(m)),
            None => None,
        },
        Some(_) => None,
    }
}

/// A required array field, handed out raw for the caller to decode.
pub open spec fn spec_req_arr(fields: Seq<(Seq<char>, JsonV)>, key: Seq<char>) -> Option<
    Seq<JsonV>,
> {
    match obj_get(fields, key) {
        Some(JsonV::Arr(items)) => Some(items),
        _ => None,
    }
}

/// Reads a required string field.
pub fn get_req_str(fields: &Vec<(String, JsonValue)>, key: &str) -> (r: Option<String>)
    ensures
        r.deep_view() == spec_req_str(fields.deep_view(), key@),
{
    match json_obj_get(fields, key) {
        Some(JsonValue::Str(s)) => Some(s.clone()),
        _ => None,
    }
}

/// Reads an optional string field.
pub fn get_opt_str(fields: &Vec<(String, JsonValue)>, key: &str) -> (r: Option<Option<String>>)
    ensures
        r.deep_view() == spec_opt_str(fields.deep_view(), key@),
{
    match json_obj_get(fields, key) {
        None => Some(None),
        Some(JsonValue::Null) => Some(None),
        Some(JsonValue::Str(s)) => Some(Some(s.clone())),
        Some(_) => None,
    }
}

/// Reads a required unsigned field.
pub fn get_req_u64(fields: &Vec<(String, JsonValue)>, key: &str) -> (r: Option<u64>)
    ensures
        r == spec_req_u64(fields.deep_view(), key@),
{
    match json_obj_get(fields, key) {
        Some(JsonValue::Num(s)) => crate::digits::dec_to_u64(s.as_str()),
        _ => None,
    }
}

/// Reads an optional unsigned field.
pub fn get_opt_u64(fields: &Vec<(String, JsonValue)>, key: &str) -> (r: Option<Option<u64>>)
    ensures
        r.deep_view() == spec_opt_u64(fields.deep_view(), key@),
{
    match json_obj_get(fields, key) {
        None => Some(None),
        Some(JsonValue::Null) => Some(None),
        Some(JsonValue::Num(s)) => match crate::digits::dec_to_u64(s.as_str()) {
            Some(v) => Some(Some(v)),
            None => None,
        },
        Some(_) => None,
    }
}

/// Reads a required boolean field.
pub fn get_req_bool(fields: &Vec<(String, JsonValue)>, key: &str) -> (r: Option<bool>)
    ensures
        r == spec_req_bool(fields.deep_view(), key@),
{
    match json_obj_get(fields, key) {
        Some(JsonValue::Bool(b)) => Some(*b),
        _ => None,
    }
}

/// Reads an optional boolean field.
pub fn get_opt_bool(fields: &Vec<(String, JsonValue)>, key: &str) -> (r: Option<Option<bool>>)
    ensures
        r.deep_view() == spec_opt_bool(fields.deep_view(), key@),
{
    match json_obj_get(fields, key) {
        None => Some(None),
        Some(JsonValue::Null) => Some(None),
        Some(JsonValue::Bool(b)) => Some(Some(*b)),
        Some(_) => None,
    }
}

/// Reads a string-to-string object into a list of bindings.
pub fn get_str_entries(entries: &Vec<(String, JsonValue)>) -> (r: Option<Vec<(String, String)>>)
    ensures
        r.deep_view() == spec_str_entries(entries.deep_view()),
{
    let ghost ev = entries.deep_view();
    let mut out: Vec<(String, String)> = Vec::new();
    let mut i: usize = 0;
    while i < entries.len()
        invariant
            0 <= i <= entries.len(),
            ev == entries.deep_view(),
            ev.len() == entries.len(),
            forall|j: int| 0 <= j < i ==> (#[trigger] ev[j]).1 is Str,
            out.deep_view() =~= ev.take(i as int).map_values(
                |f: (Seq<char>, JsonV)| (f.0, f.1->Str_0),
            ),
        decreases entries.len() - i,
    {
        let ghost pre = out.deep_view();
        proof {
            assert(ev[i as int] == (entries@[i as int].0@, jv(entries@[i as int].1)));
        }
        match &entries[i].1 {
            JsonValue::Str(s) => {
                proof {
                    assert(jv(entries@[i as int].1) == JsonV::Str(s@));
                }
                out.push((entries[i].0.clone(), s.clone()));
            },
            _ => {
                proof {
                    assert(!(ev[i as int].1 is Str));
                }
                return None;
            },
        }
        proof {
            assert(out.deep_view() =~= pre.push((entries@[i as int].0@, ev[i as int].1->Str_0)));
            assert(ev.take(i as int + 1) =~= ev.take(i as int).push(ev[i as int]));
            assert(out.deep_view() =~= ev.take(i as int + 1).map_values(
                |f: (Seq<char>, JsonV)| (f.0, f.1->Str_0),
            ));
        }
        i = i + 1;
    }
    proof {
        assert(ev.take(entries.len() as int) =~= ev);
    }
    Some(out)
}

/// Reads an optional string-to-string object field.
pub fn get_opt_str_map(fields: &Vec<(String, JsonValue)>, key: &str) -> (r: Option<
    Option<Vec<(String, String)>>,
>)
    ensures
        r.deep_view() == spec_opt_str_map(fields.deep_view(), key@),
{
    match json_obj_get(fields, key) {
        None => Some(None),
        Some(JsonValue::Null) => Some(None),
        Some(JsonValue::Obj(entries)) => {
            proof {
                lemma_obj_view(*entries);
            }
            match get_str_entries(entries) {
                Some(m) => Some(Some(m)),
                None => None,
            }
        },
        Some(_) => None,
    }
}

/// Reads a required array field, handing the raw items out.
pub fn get_req_arr<'a>(fields: &'a Vec<(String, JsonValue)>, key: &str) -> (r: Option<
    &'a Vec<JsonValue>,
>)
    ensures
        match r {
            Some(items) => spec_req_arr(fields.deep_view(), key@) == Some(items.deep_view()),
            None => spec_req_arr(fields.deep_view(), key@) is None,
        },
{
    match json_obj_get(fields, key) {
        Some(JsonValue::Arr(items)) => {
            proof {
                lemma_arr_view(*items);
            }
            Some(items)
        },
        _ => None,
    }
}

#[verifier::external_type_specification]
#[verifier::external_body]
pub struct ExSerdeValue(serde_json::Value);

/// Relies on serde_json::Value being a faithful tree of the parsed
/// document: each variant is moved over one to one, a number becomes its
/// textual form, and an object's bindings come out in the map's own order.
#[verifier::external_body]
fn json_of_value(v: serde_json::Value) -> JsonValue {
    match v {
        serde_json::Value::Null => JsonValue::Null,
        serde_json::Value::Bool(b) => JsonValue::Bool(b),
        serde_json::Value::Number(n) => JsonValue::Num(n.to_string()),
        serde_json::Value::String(s) => JsonValue::Str(s),
        serde_json::Value::Array(a) => JsonValue::Arr(
            a.into_iter().map(json_of_value).collect(),
        ),
        serde_json::Value::Object(m) => JsonValue::Obj(
            m.into_iter().map(|(k, w)| (k, json_of_value(w))).collect(),
        ),
    }
}

/// Relies on serde_json::Value being buildable variant by variant; a number
/// whose text is not a valid JSON number becomes null, which the library's
/// own encoders never produce.
#[verifier::external_body]
fn value_of_json(j: &JsonValue) -> serde_json::Value {
    match j {
        JsonValue::Null => serde_json::Value::Null,
        JsonValue::Bool(b) => serde_json::Value::Bool(*b),
        JsonValue::Num(s) => match s.parse::<serde_json::Number>() {
            Ok(n) => serde_json::Value::Number(n),
            Err(_) => serde_json::Value::Null,
        },
        JsonValue::Str(s) => serde_json::Value::String(s.clone()),
        JsonValue::Arr(items) => serde_json::Value::Array(items.iter().map(value_of_json).collect()),
        JsonValue::Obj(fields) => serde_json::Value::Object(
            fields.iter().map(|f| (f.0.clone(), value_of_json(&f.1))).collect(),
        ),
    }
}

/// The document a JSON text parses to, if it parses. What this is, only
/// serde_json says; the library treats it as a fixed function of the text.
pub uninterp spec fn json_of_text(s: Seq<char>) -> Option<JsonV>;

/// Relies on serde_json::from_str: whether a text parses, and what document
/// it parses to, depend on the text alone.
#[verifier::external_body]
pub(crate) fn parse_json_text(s: &str) -> (r: Option<JsonValue>)
    ensures
        match r {
            Some(j) => json_of_text(s@) == Some(j.deep_view()),
            None => json_of_text(s@) is None,
        },
{
    match serde_json::from_str::<serde_json::Value>(s) {
        Ok(v) => Some(json_of_value(v)),
        Err(_) => None,
    }
}

/// The wire text serde_json writes for a document. The library treats it as
/// a fixed function of the document.
pub uninterp spec fn json_text_of(j: JsonV) -> Seq<char>;

/// Relies on serde_json::to_string: the rendering of a document depends on
/// the document alone. Rendering a tree of plain string-keyed values cannot
/// fail; the empty-string arm is unreachable.
#[verifier::external_body]
pub(crate) fn render_json_text(j: &JsonValue) -> (r: String)
    ensures
        r@ == json_text_of(j.deep_view()),
{
    match serde_json::to_string(&value_of_json(j)) {
        Ok(s) => s,
        Err(_) => String::new(),
    }
}

} // verus!
