//! The rules endpoint group: a rule maps conditions on incoming mail to
//! actions (forward to a webhook, or drop), scoped to a domain. This module
//! holds the rule model with its JSON codec, the request types with their
//! URL paths, and the planned operations.

use vstd::prelude::*;
use vstd::string::StringExecFns;
use crate::digits::{spec_dec, u64_to_dec, lemma_dec_round_trip};
use crate::json::{
    JsonV, JsonValue, parse_json_text, render_json_text, json_of_text, json_text_of, obj_get,
    spec_req_str, spec_opt_str, spec_req_u64, spec_opt_bool, spec_req_arr, get_req_str,
    get_opt_str, get_req_u64, get_opt_bool, get_req_arr, json_obj_get, lemma_obj_view,
    lemma_arr_view, lemma_jv_fields, str_eq,
};
use crate::http::{HttpMethod, HttpPlan, RequestBody};

verus! {

/// How a condition compares the inspected field against its value.
#[derive(Clone, Copy, Debug, PartialEq, Eq, Structural)]
pub enum ConditionOperation {
    Equals,
    Prefix,
}

impl DeepView for ConditionOperation {
    type V = ConditionOperation;

    open spec fn deep_view(&self) -> ConditionOperation {
        *self
    }
}

/// The wire word for a condition operation.
pub open spec fn spec_condition_operation_to_json(op: ConditionOperation) -> JsonV {
    match op {
        ConditionOperation::Equals => JsonV::Str("EQUALS"@),
        ConditionOperation::Prefix => JsonV::Str("PREFIX"@),
    }
}

pub open spec fn spec_condition_operation_from_json(j: JsonV) -> Option<ConditionOperation> {
    match j {
        JsonV::Str(s) => if s == "EQUALS"@ {
            Some(ConditionOperation::Equals)
        } else if s == "PREFIX"@ {
            Some(ConditionOperation::Prefix)
        } else {
            None
        },
        _ => None,
    }
}

impl ConditionOperation {
    pub fn to_json(&self) -> (r: JsonValue)
        ensures
            r.deep_view() == spec_condition_operation_to_json(*self),
    {
        match self {
            ConditionOperation::Equals => JsonValue::Str("EQUALS".to_owned()),
            ConditionOperation::Prefix => JsonValue::Str("PREFIX".to_owned()),
        }
    }

    pub fn from_json(j: &JsonValue) -> (r: Option<ConditionOperation>)
        ensures
            r == spec_condition_operation_from_json(j.deep_view()),
    {
        match j {
            JsonValue::Str(s) => if str_eq(s.as_str(), "EQUALS") {
                Some(ConditionOperation::Equals)
            } else if str_eq(s.as_str(), "PREFIX") {
                Some(ConditionOperation::Prefix)
            } else {
                None
            },
            _ => None,
        }
    }
}

/// What a condition inspects: a message field and the value compared in.
#[derive(Debug, Clone)]
pub struct ConditionData {
    pub field: String,
    pub value: String,
}

#[verifier::ext_equal]
pub struct ConditionDataView {
    pub field: Seq<char>,
    pub value: Seq<char>,
}

impl DeepView for ConditionData {
    type V = ConditionDataView;

    open spec fn deep_view(&self) -> ConditionDataView {
        ConditionDataView { field: self.field.deep_view(), value: self.value.deep_view() }
    }
}

pub open spec fn spec_condition_data_to_json(d: ConditionDataView) -> JsonV {
    JsonV::Obj(seq![("field"@, JsonV::Str(d.field)), ("value"@, JsonV::Str(d.value))])
}

pub open spec fn spec_condition_data_from_json(j: JsonV) -> Option<ConditionDataView> {
    match j {
        JsonV::Obj(fields) => match (spec_req_str(fields, "field"@), spec_req_str(
            fields,
            "value"@,
        )) {
            (Some(f), Some(v)) => Some(ConditionDataView { field: f, value: v }),
            _ => None,
        },
        _ => None,
    }
}

impl ConditionData {
    pub fn to_json(&self) -> (r: JsonValue)
        ensures
            r.deep_view() == spec_condition_data_to_json(self.deep_view()),
    {
        let mut fields: Vec<(String, JsonValue)> = Vec::new();
        fields.push(("field".to_owned(), JsonValue::Str(self.field.clone())));
        fields.push(("value".to_owned(), JsonValue::Str(self.value.clone())));
        proof {
            lemma_jv_fields(fields@);
            assert(crate::json::jv_fields(fields@) =~~= seq![
                ("field"@, JsonV::Str(self.field@)),
                ("value"@, JsonV::Str(self.value@)),
            ]);
        }
        JsonValue::Obj(fields)
    }

    pub fn from_json(j: &JsonValue) -> (r: Option<ConditionData>)
        ensures
            r.deep_view() == spec_condition_data_from_json(j.deep_view()),
    {
        match j {
            JsonValue::Obj(fields) => {
                proof {
                    lemma_obj_view(*fields);
                }
                let f = match get_req_str(fields, "field") {
                    Some(f) => f,
                    None => {
                        return None;
                    },
                };
                let v = match get_req_str(fields, "value") {
                    Some(v) => v,
                    None => {
                        return None;
                    },
                };
                Some(ConditionData { field: f, value: v })
            },
            _ => None,
        }
    }
}

/// One condition of a rule.
#[derive(Debug, Clone)]
pub struct Condition {
    pub operation: ConditionOperation,
    pub condition_data: ConditionData,
}

#[verifier::ext_equal]
pub struct ConditionView {
    pub operation: ConditionOperation,
    pub condition_data: ConditionDataView,
}

impl DeepView for Condition {
    type V = ConditionView;

    open spec fn deep_view(&self) -> ConditionView {
        ConditionView {
            operation: self.operation,
            condition_data: self.condition_data.deep_view(),
        }
    }
}

pub open spec fn spec_condition_to_json(c: ConditionView) -> JsonV {
    JsonV::Obj(
        seq![
            ("operation"@, spec_condition_operation_to_json(c.operation)),
            ("condition_data"@, spec_condition_data_to_json(c.condition_data)),
        ],
    )
}

pub open spec fn spec_condition_from_json(j: JsonV) -> Option<ConditionView> {
    match j {
        JsonV::Obj(fields) => match (obj_get(fields, "operation"@), obj_get(
            fields,
            "condition_data"@,
        )) {
            (Some(jo), Some(jd)) => match (spec_condition_operation_from_json(jo),
            spec_condition_data_from_json(jd)) {
                (Some(o), Some(d)) => Some(ConditionView { operation: o, condition_data: d }),
                _ => None,
            },
            _ => None,
        },
        _ => None,
    }
}

impl Condition {
    pub fn to_json(&self) -> (r: JsonValue)
        ensures
            r.deep_view() == spec_condition_to_json(self.deep_view()),
    {
        let mut fields: Vec<(String, JsonValue)> = Vec::new();
        fields.push(("operation".to_owned(), self.operation.to_json()));
        fields.push(("condition_data".to_owned(), self.condition_data.to_json()));
        proof {
            lemma_jv_fields(fields@);
            assert(crate::json::jv_fields(fields@) =~~= seq![
                ("operation"@, spec_condition_operation_to_json(self.operation)),
                ("condition_data"@, spec_condition_data_to_json(self.condition_data.deep_view())),
            ]);
        }
        JsonValue::Obj(fields)
    }

    pub fn from_json(j: &JsonValue) -> (r: Option<Condition>)
        ensures
            r.deep_view() == spec_condition_from_json(j.deep_view()),
    {
        match j {
            JsonValue::Obj(fields) => {
                proof {
                    lemma_obj_view(*fields);
                }
                let jo = match json_obj_get(fields, "operation") {
                    Some(x) => x,
                    None => {
                        return None;
                    },
                };
                let jd = match json_obj_get(fields, "condition_data") {
                    Some(x) => x,
                    None => {
                        return None;
                    },
                };
                let o = match ConditionOperation::from_json(jo) {
                    Some(o) => o,
                    None => {
                        return None;
                    },
                };
                let d = match ConditionData::from_json(jd) {
                    Some(d) => d,
                    None => {
                        return None;
                    },
                };
                Some(Condition { operation: o, condition_data: d })
            },
            _ => None,
        }
    }
}

/// What a matching rule does with the message.
#[derive(Clone, Copy, Debug, PartialEq, Eq, Structural)]
pub enum Action {
    Webhook,
    Drop,
}

impl DeepView for Action {
    type V = Action;

    open spec fn deep_view(&self) -> Action {
        *self
    }
}

pub open spec fn spec_action_to_json(a: Action) -> JsonV {
    match a {
        Action::Webhook => JsonV::Str("WEBHOOK"@),
        Action::Drop => JsonV::Str("DROP"@),
    }
}

pub open spec fn spec_action_from_json(j: JsonV) -> Option<Action> {
    match j {
        JsonV::Str(s) => if s == "WEBHOOK"@ {
            Some(Action::Webhook)
        } else if s == "DROP"@ {
            Some(Action::Drop)
        } else {
            None
        },
        _ => None,
    }
}

impl Action {
    pub fn to_json(&self) -> (r: JsonValue)
        ensures
            r.deep_view() == spec_action_to_json(*self),
    {
        match self {
            Action::Webhook => JsonValue::Str("WEBHOOK".to_owned()),
            Action::Drop => JsonValue::Str("DROP".to_owned()),
        }
    }

    pub fn from_json(j: &JsonValue) -> (r: Option<Action>)
        ensures
            r == spec_action_from_json(j.deep_view()),
    {
        match j {
            JsonValue::Str(s) => if str_eq(s.as_str(), "WEBHOOK") {
                Some(Action::Webhook)
            } else if str_eq(s.as_str(), "DROP") {
                Some(Action::Drop)
            } else {
                None
            },
            _ => None,
        }
    }
}

/// Where a webhook action forwards the message.
#[derive(Debug, Clone)]
pub struct WebhookAction {
    pub url: String,
}

#[verifier::ext_equal]
pub struct WebhookActionView {
    pub url: Seq<char>,
}

impl DeepView for WebhookAction {
    type V = WebhookActionView;

    open spec fn deep_view(&self) -> WebhookActionView {
        WebhookActionView { url: self.url.deep_view() }
    }
}

pub open spec fn spec_webhook_action_to_json(w: WebhookActionView) -> JsonV {
    JsonV::Obj(seq![("url"@, JsonV::Str(w.url))])
}

pub open spec fn spec_webhook_action_from_json(j: JsonV) -> Option<WebhookActionView> {
    match j {
        JsonV::Obj(fields) => match spec_req_str(fields, "url"@) {
            Some(u) => Some(WebhookActionView { url: u }),
            None => None,
        },
        _ => None,
    }
}

impl WebhookAction {
    pub fn to_json(&self) -> (r: JsonValue)
        ensures
            r.deep_view() == spec_webhook_action_to_json(self.deep_view()),
    {
        let mut fields: Vec<(String, JsonValue)> = Vec::new();
        fields.push(("url".to_owned(), JsonValue::Str(self.url.clone())));
        proof {
            lemma_jv_fields(fields@);
            assert(crate::json::jv_fields(fields@) =~~= seq![("url"@, JsonV::Str(self.url@))]);
        }
        JsonValue::Obj(fields)
    }

    pub fn from_json(j: &JsonValue) -> (r: Option<WebhookAction>)
        ensures
            r.deep_view() == spec_webhook_action_from_json(j.deep_view()),
    {
        match j {
            JsonValue::Obj(fields) => {
                proof {
                    lemma_obj_view(*fields);
                }
                match get_req_str(fields, "url") {
                    Some(u) => Some(WebhookAction { url: u }),
                    None => None,
                }
            },
            _ => None,
        }
    }
}

/// One action of a rule; webhook data rides along when the action needs it.
#[derive(Debug, Clone)]
pub struct ConditionAction {
    pub action: Action,
    pub action_data: Option<WebhookAction>,
}

#[verifier::ext_equal]
pub struct ConditionActionView {
    pub action: Action,
    pub action_data: Option<WebhookActionView>,
}

impl DeepView for ConditionAction {
    type V = ConditionActionView;

    open spec fn deep_view(&self) -> ConditionActionView {
        ConditionActionView { action: self.action, action_data: self.action_data.deep_view() }
    }
}

pub open spec fn spec_condition_action_to_json(a: ConditionActionView) -> JsonV {
    JsonV::Obj(
        seq![("action"@, spec_action_to_json(a.action))] + if a.action_data is Some {
            seq![("action_data"@, spec_webhook_action_to_json(a.action_data.unwrap()))]
        } else {
            Seq::empty()
        },
    )
}

pub open spec fn spec_condition_action_from_json(j: JsonV) -> Option<ConditionActionView> {
    match j {
        JsonV::Obj(fields) => match obj_get(fields, "action"@) {
            Some(ja) => match spec_action_from_json(ja) {
                Some(a) => match obj_get(fields, "action_data"@) {
                    None => Some(ConditionActionView { action: a, action_data: None }),
                    Some(JsonV::Null) => Some(ConditionActionView { action: a, action_data: None }),
                    Some(jw) => match spec_webhook_action_from_json(jw) {
                        Some(w) => Some(
                            ConditionActionView { action: a, action_data: Some(w) },
                        ),
                        None => None,
                    },
                },
                None => None,
            },
            None => None,
        },
        _ => None,
    }
}

impl ConditionAction {
    pub fn to_json(&self) -> (r: JsonValue)
        ensures
            r.deep_view() == spec_condition_action_to_json(self.deep_view()),
    {
        let mut fields: Vec<(String, JsonValue)> = Vec::new();
        fields.push(("action".to_owned(), self.action.to_json()));
        match &self.action_data {
            Some(w) => {
                fields.push(("action_data".to_owned(), w.to_json()));
            },
            None => {},
        }
        proof {
            lemma_jv_fields(fields@);
            assert(crate::json::jv_fields(fields@) =~~= seq![
                ("action"@, spec_action_to_json(self.action)),
            ] + if self.action_data is Some {
                seq![
                    (
                        "action_data"@,
                        spec_webhook_action_to_json(self.action_data.deep_view().unwrap()),
                    ),
                ]
            } else {
                Seq::<(Seq<char>, JsonV)>::empty()
            });
        }
        JsonValue::Obj(fields)
    }

    pub fn from_json(j: &JsonValue) -> (r: Option<ConditionAction>)
        ensures
            r.deep_view() == spec_condition_action_from_json(j.deep_view()),
    {
        match j {
            JsonValue::Obj(fields) => {
                proof {
                    lemma_obj_view(*fields);
                }
                let ja = match json_obj_get(fields, "action") {
                    Some(x) => x,
                    None => {
                        return None;
                    },
                };
                let a = match Action::from_json(ja) {
                    Some(a) => a,
                    None => {
                        return None;
                    },
                };
                match json_obj_get(fields, "action_data") {
                    None => Some(ConditionAction { action: a, action_data: None }),
                    Some(JsonValue::Null) => Some(ConditionAction { action: a, action_data: None }),
                    Some(jw) => match WebhookAction::from_json(jw) {
                        Some(w) => Some(ConditionAction { action: a, action_data: Some(w) }),
                        None => None,
                    },
                }
            },
            _ => None,
        }
    }
}

/// How a rule combines its conditions.
#[derive(Clone, Copy, Debug, PartialEq, Eq, Structural)]
pub enum ConditionMatch {
    Any,
    All,
    Always,
}

impl DeepView for ConditionMatch {
    type V = ConditionMatch;

    open spec fn deep_view(&self) -> ConditionMatch {
        *self
    }
}

pub open spec fn spec_condition_match_to_json(m: ConditionMatch) -> JsonV {
    match m {
        ConditionMatch::Any => JsonV::Str("ANY"@),
        ConditionMatch::All => JsonV::Str("ALL"@),
        ConditionMatch::Always => JsonV::Str("ALWAYS"@),
    }
}

pub open spec fn spec_condition_match_from_json(j: JsonV) -> Option<ConditionMatch> {
    match j {
        JsonV::Str(s) => if s == "ANY"@ {
            Some(ConditionMatch::Any)
        } else if s == "ALL"@ {
            Some(ConditionMatch::All)
        } else if s == "ALWAYS"@ {
            Some(ConditionMatch::Always)
        } else {
            None
        },
        _ => None,
    }
}

impl ConditionMatch {
    pub fn to_json(&self) -> (r: JsonValue)
        ensures
            r.deep_view() == spec_condition_match_to_json(*self),
    {
        match self {
            ConditionMatch::Any => JsonValue::Str("ANY".to_owned()),
            ConditionMatch::All => JsonValue::Str("ALL".to_owned()),
            ConditionMatch::Always => JsonValue::Str("ALWAYS".to_owned()),
        }
    }

    pub fn from_json(j: &JsonValue) -> (r: Option<ConditionMatch>)
        ensures
            r == spec_condition_match_from_json(j.deep_view()),
    {
        match j {
            JsonValue::Str(s) => if str_eq(s.as_str(), "ANY") {
                Some(ConditionMatch::Any)
            } else if str_eq(s.as_str(), "ALL") {
                Some(ConditionMatch::All)
            } else if str_eq(s.as_str(), "ALWAYS") {
                Some(ConditionMatch::Always)
            } else {
                None
            },
            _ => None,
        }
    }
}

/// One rule: conditions on incoming mail and the actions taken on a match.
#[derive(Debug, Clone)]
pub struct Rule {
    pub _id: Option<String>,
    pub name: String,
    pub description: Option<String>,
    pub enabled: Option<bool>,
    pub priority: u32,
    pub conditions: Vec<Condition>,
    pub actions: Vec<ConditionAction>,
}

#[verifier::ext_equal]
pub struct RuleView {
    pub _id: Option<Seq<char>>,
    pub name: Seq<char>,
    pub description: Option<Seq<char>>,
    pub enabled: Option<bool>,
    pub priority: u32,
    pub conditions: Seq<ConditionView>,
    pub actions: Seq<ConditionActionView>,
}

impl DeepView for Rule {
    type V = RuleView;

    open spec fn deep_view(&self) -> RuleView {
        RuleView {
            _id: self._id.deep_view(),
            name: self.name.deep_view(),
            description: self.description.deep_view(),
            enabled: self.enabled.deep_view(),
            priority: self.priority,
            conditions: self.conditions.deep_view(),
            actions: self.actions.deep_view(),
        }
    }
}

pub open spec fn spec_conditions_to_json(cs: Seq<ConditionView>) -> Seq<JsonV> {
    cs.map_values(|c: ConditionView| spec_condition_to_json(c))
}

pub open spec fn spec_conditions_from_json(items: Seq<JsonV>) -> Option<Seq<ConditionView>> {
    if forall|i: int|
        0 <= i < items.len() ==> (#[trigger] spec_condition_from_json(items[i])) is Some {
        Some(items.map_values(|x: JsonV| spec_condition_from_json(x).unwrap()))
    } else {
        None
    }
}

pub open spec fn spec_condition_actions_to_json(cs: Seq<ConditionActionView>) -> Seq<JsonV> {
    cs.map_values(|c: ConditionActionView| spec_condition_action_to_json(c))
}

pub open spec fn spec_condition_actions_from_json(items: Seq<JsonV>) -> Option<
    Seq<ConditionActionView>,
> {
    if forall|i: int|
        0 <= i < items.len() ==> (#[trigger] spec_condition_action_from_json(items[i])) is Some {
        Some(items.map_values(|x: JsonV| spec_condition_action_from_json(x).unwrap()))
    } else {
        None
    }
}

proof fn lemma_conditions_to_json_index(s: Seq<ConditionView>)
    ensures
        spec_conditions_to_json(s).len() == s.len(),
        forall|k: int|
            0 <= k < s.len() ==> #[trigger] spec_conditions_to_json(s)[k]
                == spec_condition_to_json(s[k]),
{
}

proof fn lemma_conditions_from_json_some(s: Seq<JsonV>)
    requires
        forall|i: int| 0 <= i < s.len() ==> (#[trigger] spec_condition_from_json(s[i])) is Some,
    ensures
        spec_conditions_from_json(s) is Some,
        spec_conditions_from_json(s).unwrap().len() == s.len(),
        forall|k: int|
            0 <= k < s.len() ==> #[trigger] spec_conditions_from_json(s).unwrap()[k]
                == spec_condition_from_json(s[k]).unwrap(),
{
}

proof fn lemma_condition_actions_to_json_index(s: Seq<ConditionActionView>)
    ensures
        spec_condition_actions_to_json(s).len() == s.len(),
        forall|k: int|
            0 <= k < s.len() ==> #[trigger] spec_condition_actions_to_json(s)[k]
                == spec_condition_action_to_json(s[k]),
{
}

proof fn lemma_condition_actions_from_json_some(s: Seq<JsonV>)
    requires
        forall|i: int|
            0 <= i < s.len() ==> (#[trigger] spec_condition_action_from_json(s[i])) is Some,
    ensures
        spec_condition_actions_from_json(s) is Some,
        spec_condition_actions_from_json(s).unwrap().len() == s.len(),
        forall|k: int|
            0 <= k < s.len() ==> #[trigger] spec_condition_actions_from_json(s).unwrap()[k]
                == spec_condition_action_from_json(s[k]).unwrap(),
{
}

fn conditions_to_json(items: &Vec<Condition>) -> (r: Vec<JsonValue>)
    ensures
        r.deep_view() == spec_conditions_to_json(items.deep_view()),
{
    let ghost cv = items.deep_view();
    let mut out: Vec<JsonValue> = Vec::new();
    proof {
        lemma_conditions_to_json_index(cv.take(0));
        assert(out.deep_view() =~~= spec_conditions_to_json(cv.take(0)));
    }
    let mut i: usize = 0;
    while i < items.len()
        invariant
            0 <= i <= items.len(),
            cv == items.deep_view(),
            cv.len() == items.len(),
            out.deep_view() == spec_conditions_to_json(cv.take(i as int)),
        decreases items.len() - i,
    {
        let item_json = items[i].to_json();
        let ghost xv = item_json.deep_view();
        let ghost pre = out.deep_view();
        out.push(item_json);
        proof {
            lemma_conditions_to_json_index(cv.take(i as int));
            lemma_conditions_to_json_index(cv.take(i as int + 1));
            assert(cv[i as int] == items@[i as int].deep_view());
            assert(out.deep_view() =~~= pre.push(xv));
            assert(out.deep_view() =~~= spec_conditions_to_json(cv.take(i as int + 1)));
        }
        i = i + 1;
    }
    proof {
        assert(cv.take(items.len() as int) =~= cv);
    }
    out
}

fn conditions_from_json(items: &Vec<JsonValue>) -> (r: Option<Vec<Condition>>)
    ensures
        r.deep_view() == spec_conditions_from_json(items.deep_view()),
{
    let ghost iv = items.deep_view();
    let mut out: Vec<Condition> = Vec::new();
    proof {
        lemma_conditions_from_json_some(iv.take(0));
        assert(spec_conditions_from_json(iv.take(0)).unwrap() =~~= out.deep_view());
    }
    let mut i: usize = 0;
    while i < items.len()
        invariant
            0 <= i <= items.len(),
            iv == items.deep_view(),
            iv.len() == items.len(),
            spec_conditions_from_json(iv.take(i as int)) == Some(out.deep_view()),
        decreases items.len() - i,
    {
        proof {
            assert(iv[i as int] == items@[i as int].deep_view());
        }
        match Condition::from_json(&items[i]) {
            Some(c) => {
                let ghost pre = out.deep_view();
                out.push(c);
                proof {
                    assert forall|j: int| 0 <= j < i + 1 implies (
                    #[trigger] spec_condition_from_json(iv.take(i as int + 1)[j])) is Some by {
                        assert(iv.take(i as int + 1)[j] == iv[j]);
                        if j < i {
                            assert(spec_conditions_from_json(iv.take(i as int)) is Some);
                            assert(spec_condition_from_json(iv.take(i as int)[j]) is Some);
                        }
                    }
                    lemma_conditions_from_json_some(iv.take(i as int));
                    lemma_conditions_from_json_some(iv.take(i as int + 1));
                    let next = spec_conditions_from_json(iv.take(i as int + 1));
                    assert(out.deep_view() =~~= pre.push(c.deep_view()));
                    assert(next.unwrap() =~~= out.deep_view());
                    assert(next == Some(out.deep_view()));
                }
            },
            None => {
                proof {
                    assert(spec_condition_from_json(iv[i as int]) is None);
                }
                return None;
            },
        }
        i = i + 1;
    }
    proof {
        assert(iv.take(items.len() as int) =~= iv);
    }
    Some(out)
}

fn condition_actions_to_json(items: &Vec<ConditionAction>) -> (r: Vec<JsonValue>)
    ensures
        r.deep_view() == spec_condition_actions_to_json(items.deep_view()),
{
    let ghost cv = items.deep_view();
    let mut out: Vec<JsonValue> = Vec::new();
    proof {
        lemma_condition_actions_to_json_index(cv.take(0));
        assert(out.deep_view() =~~= spec_condition_actions_to_json(cv.take(0)));
    }
    let mut i: usize = 0;
    while i < items.len()
        invariant
            0 <= i <= items.len(),
            cv == items.deep_view(),
            cv.len() == items.len(),
            out.deep_view() == spec_condition_actions_to_json(cv.take(i as int)),
        decreases items.len() - i,
    {
        let item_json = items[i].to_json();
        let ghost xv = item_json.deep_view();
        let ghost pre = out.deep_view();
        out.push(item_json);
        proof {
            lemma_condition_actions_to_json_index(cv.take(i as int));
            lemma_condition_actions_to_json_index(cv.take(i as int + 1));
            assert(cv[i as int] == items@[i as int].deep_view());
            assert(out.deep_view() =~~= pre.push(xv));
            assert(out.deep_view() =~~= spec_condition_actions_to_json(cv.take(i as int + 1)));
        }
        i = i + 1;
    }
    proof {
        assert(cv.take(items.len() as int) =~= cv);
    }
    out
}

fn condition_actions_from_json(items: &Vec<JsonValue>) -> (r: Option<Vec<ConditionAction>>)
    ensures
        r.deep_view() == spec_condition_actions_from_json(items.deep_view()),
{
    let ghost iv = items.deep_view();
    let mut out: Vec<ConditionAction> = Vec::new();
    proof {
        lemma_condition_actions_from_json_some(iv.take(0));
        assert(spec_condition_actions_from_json(iv.take(0)).unwrap() =~~= out.deep_view());
    }
    let mut i: usize = 0;
    while i < items.len()
        invariant
            0 <= i <= items.len(),
            iv == items.deep_view(),
            iv.len() == items.len(),
            spec_condition_actions_from_json(iv.take(i as int)) == Some(out.deep_view()),
        decreases items.len() - i,
    {
        proof {
            assert(iv[i as int] == items@[i as int].deep_view());
        }
        match ConditionAction::from_json(&items[i]) {
            Some(c) => {
                let ghost pre = out.deep_view();
                out.push(c);
                proof {
                    assert forall|j: int| 0 <= j < i + 1 implies (
                    #[trigger] spec_condition_action_from_json(iv.take(i as int + 1)[j]))
                        is Some by {
                        assert(iv.take(i as int + 1)[j] == iv[j]);
                        if j < i {
                            assert(spec_condition_actions_from_json(iv.take(i as int)) is Some);
                            assert(spec_condition_action_from_json(iv.take(i as int)[j]) is Some);
                        }
                    }
                    lemma_condition_actions_from_json_some(iv.take(i as int));
                    lemma_condition_actions_from_json_some(iv.take(i as int + 1));
                    let next = spec_condition_actions_from_json(iv.take(i as int + 1));
                    assert(out.deep_view() =~~= pre.push(c.deep_view()));
                    assert(next.unwrap() =~~= out.deep_view());
                    assert(next == Some(out.deep_view()));
                }
            },
            None => {
                proof {
                    assert(spec_condition_action_from_json(iv[i as int]) is None);
                }
                return None;
            },
        }
        i = i + 1;
    }
    proof {
        assert(iv.take(items.len() as int) =~= iv);
    }
    Some(out)
}
/// The document a rule is sent as: optional fields are omitted when absent,
/// the rest appear in declaration order.
pub open spec fn spec_rule_to_json(r: RuleView) -> JsonV {
    let f0 = Seq::<(Seq<char>, JsonV)>::empty();
    let f1 = if r._id is Some {
        f0.push(("_id"@, JsonV::Str(r._id.unwrap())))
    } else {
        f0
    };
    let f2 = f1.push(("name"@, JsonV::Str(r.name)));
    let f3 = if r.description is Some {
        f2.push(("description"@, JsonV::Str(r.description.unwrap())))
    } else {
        f2
    };
    let f4 = if r.enabled is Some {
        f3.push(("enabled"@, JsonV::Bool(r.enabled.unwrap())))
    } else {
        f3
    };
    let f5 = f4.push(("priority"@, JsonV::Num(spec_dec(r.priority as nat))));
    let f6 = f5.push(("conditions"@, JsonV::Arr(spec_conditions_to_json(r.conditions))));
    let f7 = f6.push(("actions"@, JsonV::Arr(spec_condition_actions_to_json(r.actions))));
    JsonV::Obj(f7)
}

/// The rule a document decodes to: `_id`, `description` and `enabled` may
/// be absent or null; the rest are required, and the priority must fit.
pub open spec fn spec_rule_from_json(j: JsonV) -> Option<RuleView> {
    match j {
        JsonV::Obj(fields) => {
            let _id = spec_opt_str(fields, "_id"@);
            let name = spec_req_str(fields, "name"@);
            let description = spec_opt_str(fields, "description"@);
            let enabled = spec_opt_bool(fields, "enabled"@);
            let priority = spec_req_u64(fields, "priority"@);
            let conditions = match spec_req_arr(fields, "conditions"@) {
                Some(items) => spec_conditions_from_json(items),
                None => None,
            };
            let actions = match spec_req_arr(fields, "actions"@) {
                Some(items) => spec_condition_actions_from_json(items),
                None => None,
            };
            if _id is Some && name is Some && description is Some && enabled is Some && priority
                is Some && priority.unwrap() <= u32::MAX && conditions is Some && actions
                is Some {
                Some(
                    RuleView {
                        _id: _id.unwrap(),
                        name: name.unwrap(),
                        description: description.unwrap(),
                        enabled: enabled.unwrap(),
                        priority: priority.unwrap() as u32,
                        conditions: conditions.unwrap(),
                        actions: actions.unwrap(),
                    },
                )
            } else {
                None
            }
        },
        _ => None,
    }
}

impl Rule {
    /// Writes the rule as the JSON document the API is given.
    pub fn to_json(&self) -> (r: JsonValue)
        ensures
            r.deep_view() == spec_rule_to_json(self.deep_view()),
    {
        let mut fields: Vec<(String, JsonValue)> = Vec::new();
        match &self._id {
            Some(s) => {
                fields.push(("_id".to_owned(), JsonValue::Str(s.clone())));
            },
            None => {},
        }
        fields.push(("name".to_owned(), JsonValue::Str(self.name.clone())));
        match &self.description {
            Some(s) => {
                fields.push(("description".to_owned(), JsonValue::Str(s.clone())));
            },
            None => {},
        }
        match &self.enabled {
            Some(b) => {
                fields.push(("enabled".to_owned(), JsonValue::Bool(*b)));
            },
            None => {},
        }
        fields.push(("priority".to_owned(), JsonValue::Num(u64_to_dec(self.priority as u64))));
        let conditions = conditions_to_json(&self.conditions);
        proof {
            lemma_arr_view(conditions);
        }
        fields.push(("conditions".to_owned(), JsonValue::Arr(conditions)));
        let actions = condition_actions_to_json(&self.actions);
        proof {
            lemma_arr_view(actions);
        }
        fields.push(("actions".to_owned(), JsonValue::Arr(actions)));
        proof {
            lemma_jv_fields(fields@);
            assert(crate::json::jv_fields(fields@) =~~= spec_rule_to_json(
                self.deep_view(),
            )->Obj_0);
        }
        JsonValue::Obj(fields)
    }

    /// Decodes a rule from a JSON document.
    pub fn from_json(j: &JsonValue) -> (r: Option<Rule>)
        ensures
            r.deep_view() == spec_rule_from_json(j.deep_view()),
    {
        match j {
            JsonValue::Obj(fields) => {
                proof {
                    lemma_obj_view(*fields);
                }
                let _id = match get_opt_str(fields, "_id") {
                    Some(x) => x,
                    None => {
                        return None;
                    },
                };
                let name = match get_req_str(fields, "name") {
                    Some(x) => x,
                    None => {
                        return None;
                    },
                };
                let description = match get_opt_str(fields, "description") {
                    Some(x) => x,
                    None => {
                        return None;
                    },
                };
                let enabled = match get_opt_bool(fields, "enabled") {
                    Some(x) => x,
                    None => {
                        return None;
                    },
                };
                let priority_u64 = match get_req_u64(fields, "priority") {
                    Some(x) => x,
                    None => {
                        return None;
                    },
                };
                if priority_u64 > u32::MAX as u64 {
                    return None;
                }
                let conditions = match get_req_arr(fields, "conditions") {
                    Some(items) => match conditions_from_json(items) {
                        Some(cs) => cs,
                        None => {
                            return None;
                        },
                    },
                    None => {
                        return None;
                    },
                };
                let actions = match get_req_arr(fields, "actions") {
                    Some(items) => match condition_actions_from_json(items) {
                        Some(cs) => cs,
                        None => {
                            return None;
                        },
                    },
                    None => {
                        return None;
                    },
                };
                Some(
                    Rule {
                        _id,
                        name,
                        description,
                        enabled,
                        priority: priority_u64 as u32,
                        conditions,
                        actions,
                    },
                )
            },
            _ => None,
        }
    }
}

proof fn lemma_condition_operation_round_trip(op: ConditionOperation)
    ensures
        spec_condition_operation_from_json(spec_condition_operation_to_json(op)) == Some(op),
{
    reveal_strlit("EQUALS");
    reveal_strlit("PREFIX");
    assert("EQUALS"@[0] == 'E');
    assert("PREFIX"@[0] == 'P');
}

proof fn lemma_condition_data_round_trip(d: ConditionDataView)
    ensures
        spec_condition_data_from_json(spec_condition_data_to_json(d)) == Some(d),
{
    reveal_with_fuel(obj_get, 4);
    reveal_strlit("field");
    reveal_strlit("value");
    assert("field"@[0] == 'f');
    assert("value"@[0] == 'v');
    let fields = spec_condition_data_to_json(d)->Obj_0;
    assert(fields.drop_first() =~= seq![("value"@, JsonV::Str(d.value))]);
    assert(fields.drop_first().drop_first() =~= Seq::<(Seq<char>, JsonV)>::empty());
    assert(obj_get(fields, "field"@) == Some(JsonV::Str(d.field)));
    assert(obj_get(fields, "value"@) == Some(JsonV::Str(d.value)));
    assert(spec_condition_data_from_json(spec_condition_data_to_json(d)) == Some(
        ConditionDataView { field: d.field, value: d.value },
    ));
    assert(ConditionDataView { field: d.field, value: d.value } =~= d);
}

proof fn lemma_condition_round_trip(c: ConditionView)
    ensures
        spec_condition_from_json(spec_condition_to_json(c)) == Some(c),
{
    reveal_with_fuel(obj_get, 4);
    reveal_strlit("operation");
    reveal_strlit("condition_data");
    assert("operation"@.len() == 9);
    assert("condition_data"@.len() == 14);
    lemma_condition_operation_round_trip(c.operation);
    lemma_condition_data_round_trip(c.condition_data);
    let fields = spec_condition_to_json(c)->Obj_0;
    assert(fields.drop_first() =~= seq![
        ("condition_data"@, spec_condition_data_to_json(c.condition_data)),
    ]);
    assert(fields.drop_first().drop_first() =~= Seq::<(Seq<char>, JsonV)>::empty());
    assert(obj_get(fields, "operation"@) == Some(spec_condition_operation_to_json(c.operation)));
    assert(obj_get(fields, "condition_data"@) == Some(
        spec_condition_data_to_json(c.condition_data),
    ));
    assert(spec_condition_from_json(spec_condition_to_json(c)) == Some(
        ConditionView { operation: c.operation, condition_data: c.condition_data },
    ));
    assert(ConditionView { operation: c.operation, condition_data: c.condition_data } =~~= c);
}

proof fn lemma_action_round_trip(a: Action)
    ensures
        spec_action_from_json(spec_action_to_json(a)) == Some(a),
{
    reveal_strlit("WEBHOOK");
    reveal_strlit("DROP");
    assert("WEBHOOK"@.len() == 7);
    assert("DROP"@.len() == 4);
}

proof fn lemma_webhook_action_round_trip(w: WebhookActionView)
    ensures
        spec_webhook_action_from_json(spec_webhook_action_to_json(w)) == Some(w),
{
    reveal_strlit("url");
    let fields = spec_webhook_action_to_json(w)->Obj_0;
    assert(fields.drop_first() =~= Seq::<(Seq<char>, JsonV)>::empty());
    assert(obj_get(fields, "url"@) == Some(JsonV::Str(w.url)));
    assert(WebhookActionView { url: w.url } =~= w);
}

proof fn lemma_condition_action_round_trip(a: ConditionActionView)
    ensures
        spec_condition_action_from_json(spec_condition_action_to_json(a)) == Some(a),
{
    reveal_with_fuel(obj_get, 4);
    reveal_strlit("action");
    reveal_strlit("action_data");
    assert("action"@.len() == 6);
    assert("action_data"@.len() == 11);
    lemma_action_round_trip(a.action);
    let fields = spec_condition_action_to_json(a)->Obj_0;
    if a.action_data is Some {
        lemma_webhook_action_round_trip(a.action_data.unwrap());
        assert(fields =~= seq![
            ("action"@, spec_action_to_json(a.action)),
            ("action_data"@, spec_webhook_action_to_json(a.action_data.unwrap())),
        ]);
        assert(fields.drop_first() =~= seq![
            ("action_data"@, spec_webhook_action_to_json(a.action_data.unwrap())),
        ]);
        assert(fields.drop_first().drop_first() =~= Seq::<(Seq<char>, JsonV)>::empty());
        assert(obj_get(fields, "action"@) == Some(spec_action_to_json(a.action)));
        assert(obj_get(fields, "action_data"@) == Some(
            spec_webhook_action_to_json(a.action_data.unwrap()),
        ));
        assert(!(spec_webhook_action_to_json(a.action_data.unwrap()) is Null));
        assert(spec_condition_action_from_json(spec_condition_action_to_json(a)) == Some(
            ConditionActionView { action: a.action, action_data: a.action_data },
        ));
    } else {
        assert(fields =~= seq![("action"@, spec_action_to_json(a.action))]);
        assert(fields.drop_first() =~= Seq::<(Seq<char>, JsonV)>::empty());
        assert(obj_get(fields, "action"@) == Some(spec_action_to_json(a.action)));
        assert(obj_get(fields, "action_data"@) is None);
    }
    assert(ConditionActionView { action: a.action, action_data: a.action_data } =~~= a);
}

proof fn lemma_conditions_round_trip(cs: Seq<ConditionView>)
    ensures
        spec_conditions_from_json(spec_conditions_to_json(cs)) == Some(cs),
{
    let enc = spec_conditions_to_json(cs);
    lemma_conditions_to_json_index(cs);
    assert forall|i: int| 0 <= i < enc.len() implies (#[trigger] spec_condition_from_json(
        enc[i],
    )) is Some by {
        lemma_condition_round_trip(cs[i]);
    }
    lemma_conditions_from_json_some(enc);
    assert forall|k: int|
        0 <= k < cs.len() implies #[trigger] spec_conditions_from_json(enc).unwrap()[k]
        == cs[k] by {
        lemma_condition_round_trip(cs[k]);
    }
    assert(spec_conditions_from_json(enc).unwrap() =~= cs);
}

proof fn lemma_condition_actions_round_trip(cs: Seq<ConditionActionView>)
    ensures
        spec_condition_actions_from_json(spec_condition_actions_to_json(cs)) == Some(cs),
{
    let enc = spec_condition_actions_to_json(cs);
    lemma_condition_actions_to_json_index(cs);
    assert forall|i: int| 0 <= i < enc.len() implies (#[trigger] spec_condition_action_from_json(
        enc[i],
    )) is Some by {
        lemma_condition_action_round_trip(cs[i]);
    }
    lemma_condition_actions_from_json_some(enc);
    assert forall|k: int|
        0 <= k < cs.len() implies #[trigger] spec_condition_actions_from_json(enc).unwrap()[k]
        == cs[k] by {
        lemma_condition_action_round_trip(cs[k]);
    }
    assert(spec_condition_actions_from_json(enc).unwrap() =~= cs);
}

/// Law: a rule written as its JSON document reads back as the same rule,
/// whatever its optional fields, conditions and actions hold.
pub proof fn lemma_rule_round_trip(r: RuleView)
    ensures
        spec_rule_from_json(spec_rule_to_json(r)) == Some(r),
{
    broadcast use crate::json::lemma_obj_get_push;

    reveal_strlit("_id");
    reveal_strlit("name");
    reveal_strlit("description");
    reveal_strlit("enabled");
    reveal_strlit("priority");
    reveal_strlit("conditions");
    reveal_strlit("actions");
    assert("_id"@.len() == 3);
    assert("name"@.len() == 4);
    assert("description"@.len() == 11);
    assert("enabled"@.len() == 7);
    assert("priority"@.len() == 8);
    assert("conditions"@.len() == 10);
    assert("actions"@.len() == 7);
    assert("enabled"@[0] == 'e');
    assert("actions"@[0] == 'a');
    lemma_dec_round_trip(r.priority as u64);
    lemma_conditions_round_trip(r.conditions);
    lemma_condition_actions_round_trip(r.actions);
    let fields = spec_rule_to_json(r)->Obj_0;
    assert(obj_get(Seq::<(Seq<char>, JsonV)>::empty(), "_id"@) is None);
    assert(obj_get(Seq::<(Seq<char>, JsonV)>::empty(), "name"@) is None);
    assert(obj_get(Seq::<(Seq<char>, JsonV)>::empty(), "description"@) is None);
    assert(obj_get(Seq::<(Seq<char>, JsonV)>::empty(), "enabled"@) is None);
    assert(obj_get(Seq::<(Seq<char>, JsonV)>::empty(), "priority"@) is None);
    assert(obj_get(Seq::<(Seq<char>, JsonV)>::empty(), "conditions"@) is None);
    assert(obj_get(Seq::<(Seq<char>, JsonV)>::empty(), "actions"@) is None);
    assert(spec_rule_from_json(spec_rule_to_json(r)) == Some(
        RuleView {
            _id: r._id,
            name: r.name,
            description: r.description,
            enabled: r.enabled,
            priority: r.priority,
            conditions: r.conditions,
            actions: r.actions,
        },
    ));
    assert(RuleView {
        _id: r._id,
        name: r.name,
        description: r.description,
        enabled: r.enabled,
        priority: r.priority,
        conditions: r.conditions,
        actions: r.actions,
    } =~~= r);
}

pub open spec fn spec_create_rule_path(domain: Seq<char>) -> Seq<char> {
    "/api/v2/domains/"@ + domain + "/rules/"@
}

pub open spec fn spec_list_rules_path(domain_id: Seq<char>) -> Seq<char> {
    "/api/v2/domains/"@ + domain_id + "/rules/"@
}

pub open spec fn spec_rule_path(domain_id: Seq<char>, rule_id: Seq<char>) -> Seq<char> {
    "/api/v2/domains/"@ + domain_id + "/rules/"@ + rule_id
}

pub open spec fn spec_enable_rule_path(domain_id: Seq<char>, rule_id: Seq<char>) -> Seq<char> {
    spec_rule_path(domain_id, rule_id) + "?action=enable"@
}

pub open spec fn spec_disable_rule_path(domain_id: Seq<char>, rule_id: Seq<char>) -> Seq<char> {
    spec_rule_path(domain_id, rule_id) + "?action=disable"@
}

/// Law: enabling and disabling a rule address the same resource — both
/// paths start with the plain rule path, and they differ only in the
/// `action` query that follows it.
pub proof fn lemma_enable_disable_same_base(domain_id: Seq<char>, rule_id: Seq<char>)
    ensures
        spec_enable_rule_path(domain_id, rule_id).take(
            spec_rule_path(domain_id, rule_id).len() as int,
        ) == spec_rule_path(domain_id, rule_id),
        spec_disable_rule_path(domain_id, rule_id).take(
            spec_rule_path(domain_id, rule_id).len() as int,
        ) == spec_rule_path(domain_id, rule_id),
        spec_enable_rule_path(domain_id, rule_id).skip(
            spec_rule_path(domain_id, rule_id).len() as int,
        ) == "?action=enable"@,
        spec_disable_rule_path(domain_id, rule_id).skip(
            spec_rule_path(domain_id, rule_id).len() as int,
        ) == "?action=disable"@,
{
    let base = spec_rule_path(domain_id, rule_id);
    assert((base + "?action=enable"@).take(base.len() as int) =~= base);
    assert((base + "?action=disable"@).take(base.len() as int) =~= base);
    assert((base + "?action=enable"@).skip(base.len() as int) =~= "?action=enable"@);
    assert((base + "?action=disable"@).skip(base.len() as int) =~= "?action=disable"@);
}

/// Names the domain a new rule is created in.
#[derive(Debug, Clone)]
pub struct CreateRuleRequest {
    pub domain: String,
}

impl CreateRuleRequest {
    pub fn as_url_path(self) -> (r: String)
        ensures
            r@ == spec_create_rule_path(self.domain@),
    {
        let mut s = "/api/v2/domains/".to_owned();
        s.append(self.domain.as_str());
        s.append("/rules/");
        s
    }
}

#[derive(Debug, Clone)]
pub struct CreateRuleRequestBuilder {
    pub domain: Option<String>,
}

impl Default for CreateRuleRequestBuilder {
    fn default() -> (r: Self)
        ensures
            r.domain is None,
    {
        CreateRuleRequestBuilder { domain: None }
    }
}

impl CreateRuleRequestBuilder {
    pub fn domain(self, value: String) -> (r: Self)
        ensures
            r.domain == Some(value),
    {
        CreateRuleRequestBuilder { domain: Some(value) }
    }

    pub fn build(self) -> (r: Result<CreateRuleRequest, crate::api::BuildError>)
        ensures
            match r {
                Ok(q) => self.domain is Some && q.domain == self.domain.unwrap(),
                Err(e) => e == crate::api::BuildError::UninitializedField && self.domain is None,
            },
    {
        match self.domain {
            Some(d) => Ok(CreateRuleRequest { domain: d }),
            None => Err(crate::api::BuildError::UninitializedField),
        }
    }
}

/// Names one rule of a domain for enabling.
#[derive(Debug, Clone)]
pub struct EnableRuleRequest {
    pub domain_id: String,
    pub rule_id: String,
}

impl EnableRuleRequest {
    pub fn as_url_path(self) -> (r: String)
        ensures
            r@ == spec_enable_rule_path(self.domain_id@, self.rule_id@),
    {
        let mut s = "/api/v2/domains/".to_owned();
        s.append(self.domain_id.as_str());
        s.append("/rules/");
        s.append(self.rule_id.as_str());
        s.append("?action=enable");
        s
    }
}

/// Names one rule of a domain for disabling.
#[derive(Debug, Clone)]
pub struct DisableRuleRequest {
    pub domain_id: String,
    pub rule_id: String,
}

impl DisableRuleRequest {
    pub fn as_url_path(self) -> (r: String)
        ensures
            r@ == spec_disable_rule_path(self.domain_id@, self.rule_id@),
    {
        let mut s = "/api/v2/domains/".to_owned();
        s.append(self.domain_id.as_str());
        s.append("/rules/");
        s.append(self.rule_id.as_str());
        s.append("?action=disable");
        s
    }
}

/// Names the domain whose rules are listed.
#[derive(Debug, Clone)]
pub struct ListRulesRequest {
    pub domain_id: String,
}

impl ListRulesRequest {
    pub fn as_url_path(self) -> (r: String)
        ensures
            r@ == spec_list_rules_path(self.domain_id@),
    {
        let mut s = "/api/v2/domains/".to_owned();
        s.append(self.domain_id.as_str());
        s.append("/rules/");
        s
    }
}

#[derive(Debug, Clone)]
pub struct ListRulesRequestBuilder {
    pub domain_id: Option<String>,
}

impl Default for ListRulesRequestBuilder {
    fn default() -> (r: Self)
        ensures
            r.domain_id is None,
    {
        ListRulesRequestBuilder { domain_id: None }
    }
}

impl ListRulesRequestBuilder {
    pub fn domain_id(self, value: String) -> (r: Self)
        ensures
            r.domain_id == Some(value),
    {
        ListRulesRequestBuilder { domain_id: Some(value) }
    }

    pub fn build(self) -> (r: Result<ListRulesRequest, crate::api::BuildError>)
        ensures
            match r {
                Ok(q) => self.domain_id is Some && q.domain_id == self.domain_id.unwrap(),
                Err(e) => e == crate::api::BuildError::UninitializedField && self.domain_id
                    is None,
            },
    {
        match self.domain_id {
            Some(d) => Ok(ListRulesRequest { domain_id: d }),
            None => Err(crate::api::BuildError::UninitializedField),
        }
    }
}

/// Names one rule of a domain, for fetching or deleting.
#[derive(Debug, Clone)]
pub struct RuleRequest {
    pub domain_id: String,
    pub rule_id: String,
}

impl RuleRequest {
    pub fn as_url_path(self) -> (r: String)
        ensures
            r@ == spec_rule_path(self.domain_id@, self.rule_id@),
    {
        let mut s = "/api/v2/domains/".to_owned();
        s.append(self.domain_id.as_str());
        s.append("/rules/");
        s.append(self.rule_id.as_str());
        s
    }
}

#[derive(Debug, Clone)]
pub struct RuleRequestBuilder {
    pub domain_id: Option<String>,
    pub rule_id: Option<String>,
}

impl Default for RuleRequestBuilder {
    fn default() -> (r: Self)
        ensures
            r.domain_id is None,
            r.rule_id is None,
    {
        RuleRequestBuilder { domain_id: None, rule_id: None }
    }
}

impl RuleRequestBuilder {
    pub fn domain_id(self, value: String) -> (r: Self)
        ensures
            r.domain_id == Some(value),
            r.rule_id == self.rule_id,
    {
        RuleRequestBuilder { domain_id: Some(value), ..self }
    }

    pub fn rule_id(self, value: String) -> (r: Self)
        ensures
            r.rule_id == Some(value),
            r.domain_id == self.domain_id,
    {
        RuleRequestBuilder { rule_id: Some(value), ..self }
    }

    pub fn build(self) -> (r: Result<RuleRequest, crate::api::BuildError>)
        ensures
            match r {
                Ok(q) => {
                    &&& self.domain_id is Some
                    &&& self.rule_id is Some
                    &&& q.domain_id == self.domain_id.unwrap()
                    &&& q.rule_id == self.rule_id.unwrap()
                },
                Err(e) => e == crate::api::BuildError::UninitializedField && (self.domain_id
                    is None || self.rule_id is None),
            },
    {
        match (self.domain_id, self.rule_id) {
            (Some(d), Some(rid)) => Ok(RuleRequest { domain_id: d, rule_id: rid }),
            _ => Err(crate::api::BuildError::UninitializedField),
        }
    }
}

#[derive(Debug, Clone)]
pub struct WebhookActionBuilder {
    pub url: Option<String>,
}

impl Default for WebhookActionBuilder {
    fn default() -> (r: Self)
        ensures
            r.url is None,
    {
        WebhookActionBuilder { url: None }
    }
}

impl WebhookActionBuilder {
    pub fn url(self, value: String) -> (r: Self)
        ensures
            r.url == Some(value),
    {
        WebhookActionBuilder { url: Some(value) }
    }

    pub fn build(self) -> (r: Result<WebhookAction, crate::api::BuildError>)
        ensures
            match r {
                Ok(q) => self.url is Some && q.url == self.url.unwrap(),
                Err(e) => e == crate::api::BuildError::UninitializedField && self.url is None,
            },
    {
        match self.url {
            Some(u) => Ok(WebhookAction { url: u }),
            None => Err(crate::api::BuildError::UninitializedField),
        }
    }
}

/// Stages a rule: identifiers and flags may stay absent, the rest must be
/// set before `build`.
#[derive(Debug, Clone)]
pub struct RuleBuilder {
    pub _id: Option<String>,
    pub name: Option<String>,
    pub description: Option<String>,
    pub enabled: Option<bool>,
    pub priority: Option<u32>,
    pub conditions: Option<Vec<Condition>>,
    pub actions: Option<Vec<ConditionAction>>,
}

impl Default for RuleBuilder {
    fn default() -> (r: Self)
        ensures
            r._id is None,
            r.name is None,
            r.description is None,
            r.enabled is None,
            r.priority is None,
            r.conditions is None,
            r.actions is None,
    {
        RuleBuilder {
            _id: None,
            name: None,
            description: None,
            enabled: None,
            priority: None,
            conditions: None,
            actions: None,
        }
    }
}

impl RuleBuilder {
    pub fn _id(self, value: Option<String>) -> (r: Self)
        ensures
            r == (RuleBuilder { _id: value, ..self }),
    {
        RuleBuilder { _id: value, ..self }
    }

    pub fn name(self, value: String) -> (r: Self)
        ensures
            r == (RuleBuilder { name: Some(value), ..self }),
    {
        RuleBuilder { name: Some(value), ..self }
    }

    pub fn description(self, value: Option<String>) -> (r: Self)
        ensures
            r == (RuleBuilder { description: value, ..self }),
    {
        RuleBuilder { description: value, ..self }
    }

    pub fn enabled(self, value: Option<bool>) -> (r: Self)
        ensures
            r == (RuleBuilder { enabled: value, ..self }),
    {
        RuleBuilder { enabled: value, ..self }
    }

    pub fn priority(self, value: u32) -> (r: Self)
        ensures
            r == (RuleBuilder { priority: Some(value), ..self }),
    {
        RuleBuilder { priority: Some(value), ..self }
    }

    pub fn conditions(self, value: Vec<Condition>) -> (r: Self)
        ensures
            r == (RuleBuilder { conditions: Some(value), ..self }),
    {
        RuleBuilder { conditions: Some(value), ..self }
    }

    pub fn actions(self, value: Vec<ConditionAction>) -> (r: Self)
        ensures
            r == (RuleBuilder { actions: Some(value), ..self }),
    {
        RuleBuilder { actions: Some(value), ..self }
    }

    /// A rule builds once its name, priority, conditions and actions are
    /// set; the optional fields pass through as staged.
    pub fn build(self) -> (r: Result<Rule, crate::api::BuildError>)
        ensures
            match r {
                Ok(q) => {
                    &&& self.name is Some
                    &&& self.priority is Some
                    &&& self.conditions is Some
                    &&& self.actions is Some
                    &&& q._id == self._id
                    &&& q.name == self.name.unwrap()
                    &&& q.description == self.description
                    &&& q.enabled == self.enabled
                    &&& q.priority == self.priority.unwrap()
                    &&& q.conditions == self.conditions.unwrap()
                    &&& q.actions == self.actions.unwrap()
                },
                Err(e) => e == crate::api::BuildError::UninitializedField && (self.name is None
                    || self.priority is None || self.conditions is None || self.actions is None),
            },
    {
        let RuleBuilder { _id, name, description, enabled, priority, conditions, actions } = self;
        match (name, priority, conditions, actions) {
            (Some(n), Some(p), Some(cs), Some(acts)) => Ok(
                Rule {
                    _id,
                    name: n,
                    description,
                    enabled,
                    priority: p,
                    conditions: cs,
                    actions: acts,
                },
            ),
            _ => Err(crate::api::BuildError::UninitializedField),
        }
    }
}

/// The list that the rules-listing endpoint answers with.
#[derive(Debug, Clone)]
pub struct ListRulesResponse {
    pub rules: Vec<Rule>,
}

#[verifier::ext_equal]
pub struct ListRulesResponseView {
    pub rules: Seq<RuleView>,
}

impl DeepView for ListRulesResponse {
    type V = ListRulesResponseView;

    open spec fn deep_view(&self) -> ListRulesResponseView {
        ListRulesResponseView { rules: self.rules.deep_view() }
    }
}

pub open spec fn spec_rules_from_json(items: Seq<JsonV>) -> Option<Seq<RuleView>> {
    if forall|i: int| 0 <= i < items.len() ==> (#[trigger] spec_rule_from_json(items[i])) is Some {
        Some(items.map_values(|x: JsonV| spec_rule_from_json(x).unwrap()))
    } else {
        None
    }
}

proof fn lemma_rules_from_json_some(s: Seq<JsonV>)
    requires
        forall|i: int| 0 <= i < s.len() ==> (#[trigger] spec_rule_from_json(s[i])) is Some,
    ensures
        spec_rules_from_json(s) is Some,
        spec_rules_from_json(s).unwrap().len() == s.len(),
        forall|k: int|
            0 <= k < s.len() ==> #[trigger] spec_rules_from_json(s).unwrap()[k]
                == spec_rule_from_json(s[k]).unwrap(),
{
}

pub(crate) fn rules_from_json(items: &Vec<JsonValue>) -> (r: Option<Vec<Rule>>)
    ensures
        r.deep_view() == spec_rules_from_json(items.deep_view()),
{
    let ghost iv = items.deep_view();
    let mut out: Vec<Rule> = Vec::new();
    proof {
        lemma_rules_from_json_some(iv.take(0));
        assert(spec_rules_from_json(iv.take(0)).unwrap() =~~= out.deep_view());
    }
    let mut i: usize = 0;
    while i < items.len()
        invariant
            0 <= i <= items.len(),
            iv == items.deep_view(),
            iv.len() == items.len(),
            spec_rules_from_json(iv.take(i as int)) == Some(out.deep_view()),
        decreases items.len() - i,
    {
        proof {
            assert(iv[i as int] == items@[i as int].deep_view());
        }
        match Rule::from_json(&items[i]) {
            Some(x) => {
                let ghost pre = out.deep_view();
                out.push(x);
                proof {
                    assert forall|j: int| 0 <= j < i + 1 implies (#[trigger] spec_rule_from_json(
                        iv.take(i as int + 1)[j],
                    )) is Some by {
                        assert(iv.take(i as int + 1)[j] == iv[j]);
                        if j < i {
                            assert(spec_rules_from_json(iv.take(i as int)) is Some);
                            assert(spec_rule_from_json(iv.take(i as int)[j]) is Some);
                        }
                    }
                    lemma_rules_from_json_some(iv.take(i as int));
                    lemma_rules_from_json_some(iv.take(i as int + 1));
                    let next = spec_rules_from_json(iv.take(i as int + 1));
                    assert(out.deep_view() =~~= pre.push(x.deep_view()));
                    assert(next.unwrap() =~~= out.deep_view());
                    assert(next == Some(out.deep_view()));
                }
            },
            None => {
                proof {
                    assert(spec_rule_from_json(iv[i as int]) is None);
                }
                return None;
            },
        }
        i = i + 1;
    }
    proof {
        assert(iv.take(items.len() as int) =~= iv);
    }
    Some(out)
}

/// The response a rules listing decodes to: an object whose `rules` field
/// is an array of well-formed rules.
pub open spec fn spec_list_rules_response_from_json(j: JsonV) -> Option<ListRulesResponseView> {
    match j {
        JsonV::Obj(fields) => match spec_req_arr(fields, "rules"@) {
            Some(items) => match spec_rules_from_json(items) {
                Some(rs) => Some(ListRulesResponseView { rules: rs }),
                None => None,
            },
            None => None,
        },
        _ => None,
    }
}

pub open spec fn spec_list_rules_response_from_text(s: Seq<char>) -> Option<
    ListRulesResponseView,
> {
    match json_of_text(s) {
        Some(j) => spec_list_rules_response_from_json(j),
        None => None,
    }
}

impl ListRulesResponse {
    pub fn from_json(j: &JsonValue) -> (r: Option<ListRulesResponse>)
        ensures
            r.deep_view() == spec_list_rules_response_from_json(j.deep_view()),
    {
        match j {
            JsonValue::Obj(fields) => {
                proof {
                    lemma_obj_view(*fields);
                }
                match get_req_arr(fields, "rules") {
                    Some(items) => match rules_from_json(items) {
                        Some(rs) => Some(ListRulesResponse { rules: rs }),
                        None => None,
                    },
                    None => None,
                }
            },
            _ => None,
        }
    }

    /// Decodes a rules listing from a response body.
    pub fn from_text(body: &str) -> (r: Option<ListRulesResponse>)
        ensures
            r.deep_view() == spec_list_rules_response_from_text(body@),
    {
        match parse_json_text(body) {
            Some(j) => Self::from_json(&j),
            None => None,
        }
    }
}

/// The spec of a rule decoded from a whole response body.
pub open spec fn spec_rule_from_text(s: Seq<char>) -> Option<RuleView> {
    match json_of_text(s) {
        Some(j) => spec_rule_from_json(j),
        None => None,
    }
}

impl Rule {
    /// Decodes a rule from a response body.
    pub fn from_text(body: &str) -> (r: Option<Rule>)
        ensures
            r.deep_view() == spec_rule_from_text(body@),
    {
        match parse_json_text(body) {
            Some(j) => Self::from_json(&j),
            None => None,
        }
    }
}

/// Plans the creation of a rule: the rule rides along as a JSON body.
pub fn create_rule(request: CreateRuleRequest, data: &Rule) -> (p: HttpPlan)
    ensures
        p.method == HttpMethod::PostJson,
        p.path@ == spec_create_rule_path(request.domain@),
        p.body is Json,
        p.body->Json_0@ == json_text_of(spec_rule_to_json(data.deep_view())),
{
    let path = request.as_url_path();
    let body = render_json_text(&data.to_json());
    HttpPlan { method: HttpMethod::PostJson, path, body: RequestBody::Json(body) }
}

/// Plans enabling a rule.
pub fn enable_rule(request: EnableRuleRequest) -> (p: HttpPlan)
    ensures
        p.method == HttpMethod::Put,
        p.path@ == spec_enable_rule_path(request.domain_id@, request.rule_id@),
        p.body is Empty,
{
    let path = request.as_url_path();
    HttpPlan { method: HttpMethod::Put, path, body: RequestBody::Empty }
}

/// Plans disabling a rule.
pub fn disable_rule(request: DisableRuleRequest) -> (p: HttpPlan)
    ensures
        p.method == HttpMethod::Put,
        p.path@ == spec_disable_rule_path(request.domain_id@, request.rule_id@),
        p.body is Empty,
{
    let path = request.as_url_path();
    HttpPlan { method: HttpMethod::Put, path, body: RequestBody::Empty }
}

/// Plans listing a domain's rules.
pub fn list_rules(request: ListRulesRequest) -> (p: HttpPlan)
    ensures
        p.method == HttpMethod::Get,
        p.path@ == spec_list_rules_path(request.domain_id@),
        p.body is Empty,
{
    let path = request.as_url_path();
    HttpPlan { method: HttpMethod::Get, path, body: RequestBody::Empty }
}

/// Plans fetching one rule.
pub fn get_rule(request: RuleRequest) -> (p: HttpPlan)
    ensures
        p.method == HttpMethod::Get,
        p.path@ == spec_rule_path(request.domain_id@, request.rule_id@),
        p.body is Empty,
{
    let path = request.as_url_path();
    HttpPlan { method: HttpMethod::Get, path, body: RequestBody::Empty }
}

/// Plans deleting one rule.
pub fn delete_rule(request: RuleRequest) -> (p: HttpPlan)
    ensures
        p.method == HttpMethod::Delete,
        p.path@ == spec_rule_path(request.domain_id@, request.rule_id@),
        p.body is Empty,
{
    let path = request.as_url_path();
    HttpPlan { method: HttpMethod::Delete, path, body: RequestBody::Empty }
}

} // verus!
