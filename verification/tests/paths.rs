use mailinator_rs::api::BuildError;
use mailinator_rs::attachment::{FetchAttachmentRequestBuilder, FetchListOfAttachmentRequestBuilder, LookupField};
use mailinator_rs::domains::DomainRequestBuilder;
use mailinator_rs::inbox::{
    FetchInboxRequestBuilder, FetchInboxRequestQueryParamsBuilder, Sorting,
};
use mailinator_rs::link::FetchLinkRequestBuilder;
use mailinator_rs::message::{
    DeleteAllDomainMessageRequestBuilder, DeleteAllInboxMessageRequestBuilder,
    DeleteMessageRequestBuilder, FetchMessageRequestBuilder, FetchSmsMessageRequestBuilder,
    InjectMessageRequestBuilder,
};
use mailinator_rs::rules::{
    CreateRuleRequestBuilder, DisableRuleRequest, EnableRuleRequest, ListRulesRequestBuilder,
    RuleRequestBuilder,
};

#[test]
fn fetch_message_path_with_inbox() {
    let request = FetchMessageRequestBuilder::default()
        .domain(String::from("example.com"))
        .inbox(Some(String::from("testinbox")))
        .message_id(String::from("abc"))
        .build()
        .unwrap();
    assert_eq!(
        request.as_url_path(),
        "/api/v2/domains/example.com/inboxes/testinbox/messages/abc"
    );
}

#[test]
fn fetch_message_path_without_inbox_omits_segment() {
    let request = FetchMessageRequestBuilder::default()
        .domain(String::from("example.com"))
        .message_id(String::from("abc"))
        .build()
        .unwrap();
    assert_eq!(request.as_url_path(), "/api/v2/domains/example.com/messages/abc");
}

#[test]
fn fetch_sms_message_path_renders_number() {
    let request = FetchSmsMessageRequestBuilder::default()
        .domain(String::from("example.com"))
        .sms_number(12345678)
        .build()
        .unwrap();
    assert_eq!(request.as_url_path(), "/api/v2/domains/example.com/inboxes/12345678");
}

#[test]
fn attachment_lookup_by_id_and_by_name_differ() {
    let by_id = FetchAttachmentRequestBuilder::default()
        .domain(String::from("example.com"))
        .inbox(String::from("testinbox"))
        .message_id(String::from("msg_id"))
        .attachment(LookupField::Id(1))
        .build()
        .unwrap()
        .as_url_path();
    let by_name = FetchAttachmentRequestBuilder::default()
        .domain(String::from("example.com"))
        .inbox(String::from("testinbox"))
        .message_id(String::from("msg_id"))
        .attachment(LookupField::Name(String::from("file.pdf")))
        .build()
        .unwrap()
        .as_url_path();
    assert_eq!(
        by_id,
        "/api/v2/domains/example.com/inboxes/testinbox/messages/msg_id/attachments/1"
    );
    assert_eq!(
        by_name,
        "/api/v2/domains/example.com/inboxes/testinbox/messages/msg_id/attachments/file.pdf"
    );
    assert_ne!(by_id, by_name);
}

#[test]
fn attachment_list_path() {
    let request = FetchListOfAttachmentRequestBuilder::default()
        .domain(String::from("example.com"))
        .inbox(String::from("testinbox"))
        .message_id(String::from("msg_id"))
        .build()
        .unwrap();
    assert_eq!(
        request.as_url_path(),
        "/api/v2/domains/example.com/inboxes/testinbox/messages/msg_id/attachments"
    );
}

#[test]
fn fetch_link_path() {
    let request = FetchLinkRequestBuilder::default()
        .domain(String::from("example.com"))
        .inbox(String::from("testinbox"))
        .message_id(String::from("msg_id"))
        .build()
        .unwrap();
    assert_eq!(
        request.as_url_path(),
        "/api/v2/domains/example.com/inboxes/testinbox/messages/msg_id/links"
    );
}

#[test]
fn inbox_path_with_query_params() {
    let params = FetchInboxRequestQueryParamsBuilder::default()
        .limit(Some(1))
        .sort(Some(Sorting::Ascending))
        .build()
        .unwrap();
    let request = FetchInboxRequestBuilder::default()
        .domain(String::from("example.com"))
        .inbox(String::from("testinbox"))
        .query_params(Some(params))
        .build()
        .unwrap();
    let path = request.as_url_path();
    assert_eq!(
        path,
        "/api/v2/domains/example.com/inboxes/testinbox?limit=1&sort=ascending"
    );
    assert!(path.ends_with("?limit=1&sort=ascending"));
}

#[test]
fn inbox_path_without_query_params_has_no_question_mark() {
    let request = FetchInboxRequestBuilder::default()
        .domain(String::from("example.com"))
        .inbox(String::from("testinbox"))
        .build()
        .unwrap();
    let path = request.as_url_path();
    assert_eq!(path, "/api/v2/domains/example.com/inboxes/testinbox");
    assert!(!path.contains('?'));
}

#[test]
fn inbox_path_with_all_fields_absent_has_no_question_mark() {
    let params = FetchInboxRequestQueryParamsBuilder::default().build().unwrap();
    assert_eq!(params.to_query_string(), "");
    let request = FetchInboxRequestBuilder::default()
        .domain(String::from("example.com"))
        .inbox(String::from("testinbox"))
        .query_params(Some(params))
        .build()
        .unwrap();
    let path = request.as_url_path();
    assert_eq!(path, "/api/v2/domains/example.com/inboxes/testinbox");
    assert!(!path.contains('?'));
}

#[test]
fn inbox_query_params_render_all_fields_in_order() {
    let params = FetchInboxRequestQueryParamsBuilder::default()
        .skip(Some(5))
        .limit(Some(10))
        .sort(Some(Sorting::Descending))
        .decode_subject(Some(true))
        .build()
        .unwrap();
    assert_eq!(
        params.to_query_string(),
        "skip=5&limit=10&sort=descending&decode_subject=true"
    );
}

#[test]
fn enable_and_disable_rule_share_base_path_with_differing_action() {
    let enable = EnableRuleRequest {
        domain_id: String::from("example.com"),
        rule_id: String::from("rule1"),
    }
    .as_url_path();
    let disable = DisableRuleRequest {
        domain_id: String::from("example.com"),
        rule_id: String::from("rule1"),
    }
    .as_url_path();
    assert_eq!(enable, "/api/v2/domains/example.com/rules/rule1?action=enable");
    assert_eq!(disable, "/api/v2/domains/example.com/rules/rule1?action=disable");
    assert_eq!(
        enable.trim_end_matches("enable"),
        disable.trim_end_matches("disable")
    );
}

#[test]
fn rule_paths() {
    let create = CreateRuleRequestBuilder::default()
        .domain(String::from("example.com"))
        .build()
        .unwrap();
    assert_eq!(create.as_url_path(), "/api/v2/domains/example.com/rules/");
    let list = ListRulesRequestBuilder::default()
        .domain_id(String::from("example.com"))
        .build()
        .unwrap();
    assert_eq!(list.as_url_path(), "/api/v2/domains/example.com/rules/");
    let one = RuleRequestBuilder::default()
        .domain_id(String::from("example.com"))
        .rule_id(String::from("rule1"))
        .build()
        .unwrap();
    assert_eq!(one.as_url_path(), "/api/v2/domains/example.com/rules/rule1");
}

#[test]
fn domain_and_delete_paths() {
    let domain = DomainRequestBuilder::default()
        .domain(String::from("example.com"))
        .build()
        .unwrap();
    assert_eq!(domain.as_url_path(), "/api/v2/domains/example.com");
    let all = DeleteAllDomainMessageRequestBuilder::default()
        .domain(String::from("example.com"))
        .build()
        .unwrap();
    assert_eq!(all.as_url_path(), "/api/v2/domains/example.com/inboxes/");
    let inbox = DeleteAllInboxMessageRequestBuilder::default()
        .domain(String::from("example.com"))
        .inbox(String::from("testinbox"))
        .build()
        .unwrap();
    assert_eq!(inbox.as_url_path(), "/api/v2/domains/example.com/inboxes/testinbox");
    let one = DeleteMessageRequestBuilder::default()
        .domain(String::from("example.com"))
        .inbox(String::from("testinbox"))
        .message_id(String::from("msg_id"))
        .build()
        .unwrap();
    assert_eq!(
        one.as_url_path(),
        "/api/v2/domains/example.com/inboxes/testinbox/messages/msg_id"
    );
    let inject = InjectMessageRequestBuilder::default()
        .domain(String::from("example.com"))
        .inbox(String::from("testinbox"))
        .build()
        .unwrap();
    assert_eq!(inject.as_url_path(), "/api/v2/domains/example.com/inboxes/testinbox");
}

#[test]
fn builder_missing_required_field_is_refused() {
    let err = FetchMessageRequestBuilder::default()
        .message_id(String::from("abc"))
        .build()
        .unwrap_err();
    assert_eq!(err, BuildError::UninitializedField);
    let err = DomainRequestBuilder::default().build().unwrap_err();
    assert_eq!(err, BuildError::UninitializedField);
    let err = FetchInboxRequestBuilder::default()
        .domain(String::from("example.com"))
        .build()
        .unwrap_err();
    assert_eq!(err, BuildError::UninitializedField);
}

#[test]
fn default_attachment_lookup_is_id_zero() {
    let lookup = LookupField::default();
    assert!(matches!(lookup, LookupField::Id(0)));
}
