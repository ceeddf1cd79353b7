use mailinator_rs::api::ResponseStatus;
use mailinator_rs::message::{
    DeleteMessageResponse, Email, InjectMessageRequestBuilder, InjectMessageResponse,
    NewEmailBuilder, Part, PartBuilder, inject_message,
};
use mailinator_rs::http::RequestBody;
use mailinator_rs::json::JsonValue;
use mailinator_rs::rules::{
    Action, Condition, ConditionAction, ConditionData, ConditionMatch, ConditionOperation,
    CreateRuleRequestBuilder, Rule, RuleBuilder, WebhookActionBuilder, create_rule,
};

fn example_new_email() -> mailinator_rs::message::NewEmail {
    let part = PartBuilder::default()
        .headers(Some(vec![(
            String::from("content-type"),
            String::from("text/plain"),
        )]))
        .body(Some(String::from("An example body.")))
        .build()
        .unwrap();
    NewEmailBuilder::default()
        .headers(Some(vec![(String::from("x-test"), String::from("1"))]))
        .subject(String::from("Hello world"))
        .parts(vec![part])
        .from(String::from("sender@example.com"))
        .text(Some(String::from("An example email.")))
        .build()
        .unwrap()
}

#[test]
fn new_email_round_trips_through_wire_text() {
    let email = example_new_email();
    let request = InjectMessageRequestBuilder::default()
        .domain(String::from("example.com"))
        .inbox(String::from("testinbox"))
        .build()
        .unwrap();
    let plan = inject_message(request, &email);
    let body = match &plan.body {
        RequestBody::Json(text) => text.clone(),
        _ => panic!("inject plan must carry a JSON body"),
    };
    assert!(body.contains("\"subject\":\"Hello world\""));
    assert!(body.contains("\"from\":\"sender@example.com\""));
    let read_back = Email::from_text(&body).unwrap();
    assert_eq!(read_back.subject.as_deref(), Some("Hello world"));
    assert_eq!(read_back.from.as_deref(), Some("sender@example.com"));
    assert_eq!(read_back.fromfull, None);
    assert_eq!(
        read_back.headers,
        Some(vec![(String::from("x-test"), String::from("1"))])
    );
    assert_eq!(read_back.to, None);
    assert_eq!(read_back.id, None);
    assert_eq!(read_back.time, None);
    assert_eq!(read_back.seconds_ago, None);
    assert_eq!(read_back.parts.len(), 1);
    assert_eq!(read_back.parts[0].body.as_deref(), Some("An example body."));
    assert_eq!(
        read_back.parts[0].headers,
        Some(vec![(String::from("content-type"), String::from("text/plain"))])
    );
}

#[test]
fn email_fixture_recovers_all_populated_fields() {
    let fixture = "{\"fromfull\":\"Sender <sender@example.com>\",\
        \"headers\":{\"h1\":\"v1\"},\"subject\":\"S\",\
        \"parts\":[{\"body\":\"b\"}],\"from\":\"sender@example.com\",\
        \"to\":\"me@example.com\",\"id\":\"xyz\",\"time\":1700000000,\
        \"seconds_ago\":12}";
    let email = Email::from_text(fixture).unwrap();
    assert_eq!(email.fromfull.as_deref(), Some("Sender <sender@example.com>"));
    assert_eq!(email.headers, Some(vec![(String::from("h1"), String::from("v1"))]));
    assert_eq!(email.subject.as_deref(), Some("S"));
    assert_eq!(email.parts.len(), 1);
    assert_eq!(email.parts[0].body.as_deref(), Some("b"));
    assert_eq!(email.parts[0].headers, None);
    assert_eq!(email.from.as_deref(), Some("sender@example.com"));
    assert_eq!(email.to.as_deref(), Some("me@example.com"));
    assert_eq!(email.id.as_deref(), Some("xyz"));
    assert_eq!(email.time, Some(1700000000));
    assert_eq!(email.seconds_ago, Some(12));
}

#[test]
fn email_fixture_defaults_absent_fields_to_empty() {
    let email = Email::from_text("{\"parts\":[]}").unwrap();
    assert_eq!(email.fromfull, None);
    assert_eq!(email.headers, None);
    assert_eq!(email.subject, None);
    assert!(email.parts.is_empty());
    assert_eq!(email.from, None);
    assert_eq!(email.to, None);
    assert_eq!(email.id, None);
    assert_eq!(email.time, None);
    assert_eq!(email.seconds_ago, None);
}

#[test]
fn email_without_parts_is_refused() {
    assert!(Email::from_text("{}").is_none());
    assert!(Email::from_text("{\"subject\":\"S\"}").is_none());
}

#[test]
fn email_with_wrong_field_type_is_refused() {
    assert!(Email::from_text("{\"parts\":[],\"subject\":5}").is_none());
    assert!(Email::from_text("{\"parts\":[],\"time\":\"soon\"}").is_none());
}

#[test]
fn unparsable_body_is_refused() {
    assert!(Email::from_text("not json").is_none());
    assert!(ResponseStatus::from_text("").is_none());
}

fn example_rule() -> Rule {
    let condition = Condition {
        operation: ConditionOperation::Prefix,
        condition_data: ConditionData {
            field: String::from("to"),
            value: String::from("test"),
        },
    };
    let webhook = WebhookActionBuilder::default()
        .url(String::from("https://example.com/hook"))
        .build()
        .unwrap();
    let action = ConditionAction { action: Action::Webhook, action_data: Some(webhook) };
    RuleBuilder::default()
        .name(String::from("forward-tests"))
        .description(Some(String::from("forward test mail")))
        .enabled(Some(true))
        .priority(15)
        .conditions(vec![condition])
        .actions(vec![action])
        .build()
        .unwrap()
}

#[test]
fn rule_round_trips_through_wire_text() {
    let rule = example_rule();
    let request = CreateRuleRequestBuilder::default()
        .domain(String::from("example.com"))
        .build()
        .unwrap();
    let plan = create_rule(request, &rule);
    let body = match &plan.body {
        RequestBody::Json(text) => text.clone(),
        _ => panic!("create-rule plan must carry a JSON body"),
    };
    let read_back = Rule::from_text(&body).unwrap();
    assert_eq!(read_back._id, None);
    assert_eq!(read_back.name, "forward-tests");
    assert_eq!(read_back.description.as_deref(), Some("forward test mail"));
    assert_eq!(read_back.enabled, Some(true));
    assert_eq!(read_back.priority, 15);
    assert_eq!(read_back.conditions.len(), 1);
    assert!(matches!(
        read_back.conditions[0].operation,
        ConditionOperation::Prefix
    ));
    assert_eq!(read_back.conditions[0].condition_data.field, "to");
    assert_eq!(read_back.conditions[0].condition_data.value, "test");
    assert_eq!(read_back.actions.len(), 1);
    assert!(matches!(read_back.actions[0].action, Action::Webhook));
    assert_eq!(
        read_back.actions[0].action_data.as_ref().unwrap().url,
        "https://example.com/hook"
    );
}

#[test]
fn rule_with_oversized_priority_is_refused() {
    let fixture = "{\"name\":\"r\",\"priority\":4294967296,\
        \"conditions\":[],\"actions\":[]}";
    assert!(Rule::from_text(fixture).is_none());
    let in_range = "{\"name\":\"r\",\"priority\":4294967295,\
        \"conditions\":[],\"actions\":[]}";
    assert_eq!(Rule::from_text(in_range).unwrap().priority, u32::MAX);
}

#[test]
fn rule_with_unknown_operation_word_is_refused() {
    let fixture = "{\"name\":\"r\",\"priority\":1,\
        \"conditions\":[{\"operation\":\"SUFFIX\",\
        \"condition_data\":{\"field\":\"f\",\"value\":\"v\"}}],\"actions\":[]}";
    assert!(Rule::from_text(fixture).is_none());
}

#[test]
fn response_status_decodes_and_rejects() {
    let status = ResponseStatus::from_text("{\"status\":\"ok\"}").unwrap();
    assert_eq!(status.status, "ok");
    assert!(ResponseStatus::from_text("{\"status\":5}").is_none());
    assert!(ResponseStatus::from_text("{}").is_none());
}

#[test]
fn delete_message_response_decodes() {
    let report =
        DeleteMessageResponse::from_text("{\"status\":\"ok\",\"messages_deleted\":2}").unwrap();
    assert_eq!(report.status, "ok");
    assert_eq!(report.messages_deleted, 2);
    assert!(DeleteMessageResponse::from_text("{\"status\":\"ok\"}").is_none());
    assert!(
        DeleteMessageResponse::from_text("{\"status\":\"ok\",\"messages_deleted\":-1}").is_none()
    );
}

#[test]
fn inject_message_response_decodes() {
    let report =
        InjectMessageResponse::from_text("{\"status\":\"ok\",\"id\":\"abc-123\"}").unwrap();
    assert_eq!(report.status, "ok");
    assert_eq!(report.id, "abc-123");
    assert!(InjectMessageResponse::from_text("{\"status\":\"ok\"}").is_none());
}

#[test]
fn condition_match_words_round_trip() {
    for m in [ConditionMatch::Any, ConditionMatch::All, ConditionMatch::Always] {
        let j = m.to_json();
        assert_eq!(ConditionMatch::from_json(&j), Some(m));
    }
    assert_eq!(
        ConditionMatch::from_json(&JsonValue::Str(String::from("ANY"))),
        Some(ConditionMatch::Any)
    );
    assert_eq!(
        ConditionMatch::from_json(&JsonValue::Str(String::from("NEVER"))),
        None
    );
}

#[test]
fn part_headers_must_be_strings() {
    let fixture = "{\"parts\":[{\"headers\":{\"h\":5}}]}";
    assert!(Email::from_text(fixture).is_none());
}
