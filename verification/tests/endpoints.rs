use mailinator_rs::domains::{
    DomainRequestBuilder, DomainResponse, create_private_domain, delete_private_domain,
    get_all_domains, get_domain,
};
use mailinator_rs::http::{HttpMethod, RequestBody};
use mailinator_rs::inbox::{FetchInboxRequestBuilder, FetchInboxResponse, fetch_inbox};
use mailinator_rs::link::{FetchLinkRequestBuilder, FetchLinkResponse, fetch_links};
use mailinator_rs::attachment::{
    FetchListOfAttachmentRequestBuilder, FetchListOfAttachmentResponse, fetch_list_of_attachments,
};
use mailinator_rs::rules::{ConditionOperation, ListRulesResponse};
use mailinator_rs::stats::{UsageStatistica, get_usage_statistica};

const TWO_DOMAIN_FIXTURE: &str = "{\"domains\":[\
    {\"_id\":\"d1\",\"description\":\"first\",\"enabled\":true,\
     \"name\":\"example.com\",\"ownerid\":\"o1\",\
     \"rules\":[{\"name\":\"r1\",\"priority\":1,\
       \"conditions\":[{\"operation\":\"EQUALS\",\
         \"condition_data\":{\"field\":\"to\",\"value\":\"x\"}}],\
       \"actions\":[{\"action\":\"DROP\"}]}]},\
    {\"_id\":\"d2\",\"description\":\"second\",\"enabled\":false,\
     \"name\":\"example.org\",\"ownerid\":\"o2\",\"rules\":[]}]}";

#[test]
fn domains_list_end_to_end_against_fixture() {
    let plan = get_all_domains();
    assert_eq!(plan.method, HttpMethod::Get);
    assert_eq!(plan.path, "/domains/");
    assert!(matches!(plan.body, RequestBody::Empty));
    assert_eq!(plan.url("https://mailinator.com"), "https://mailinator.com/domains/");

    let response = DomainResponse::from_text(TWO_DOMAIN_FIXTURE).unwrap();
    assert_eq!(response.domains.len(), 2);
    let first = &response.domains[0];
    assert_eq!(first._id, "d1");
    assert_eq!(first.description, "first");
    assert!(first.enabled);
    assert_eq!(first.name, "example.com");
    assert_eq!(first.ownerid, "o1");
    assert_eq!(first.rules.len(), 1);
    assert_eq!(first.rules[0].name, "r1");
    assert_eq!(first.rules[0].priority, 1);
    assert!(matches!(
        first.rules[0].conditions[0].operation,
        ConditionOperation::Equals
    ));
    assert_eq!(first.rules[0].conditions[0].condition_data.field, "to");
    assert!(first.rules[0].actions[0].action_data.is_none());
    let second = &response.domains[1];
    assert_eq!(second.name, "example.org");
    assert!(!second.enabled);
    assert!(second.rules.is_empty());
}

#[test]
fn domain_fixture_missing_field_is_refused() {
    let fixture = "{\"domains\":[{\"_id\":\"d1\",\"enabled\":true,\
        \"name\":\"example.com\",\"ownerid\":\"o1\",\"rules\":[]}]}";
    assert!(DomainResponse::from_text(fixture).is_none());
}

#[test]
fn domain_plans_use_the_right_verbs() {
    let get = get_domain(
        DomainRequestBuilder::default()
            .domain(String::from("example.com"))
            .build()
            .unwrap(),
    );
    assert_eq!(get.method, HttpMethod::Get);
    assert_eq!(get.path, "/api/v2/domains/example.com");

    let create = create_private_domain(
        DomainRequestBuilder::default()
            .domain(String::from("example.com"))
            .build()
            .unwrap(),
    );
    assert_eq!(create.method, HttpMethod::Post);
    match &create.body {
        RequestBody::Raw(bytes) => assert!(bytes.is_empty()),
        _ => panic!("creation sends a raw empty body"),
    }

    let delete = delete_private_domain(
        DomainRequestBuilder::default()
            .domain(String::from("example.com"))
            .build()
            .unwrap(),
    );
    assert_eq!(delete.method, HttpMethod::Delete);
    assert_eq!(delete.path, "/api/v2/domains/example.com");
}

#[test]
fn fetch_inbox_plan_and_response() {
    let plan = fetch_inbox(
        FetchInboxRequestBuilder::default()
            .domain(String::from("example.com"))
            .inbox(String::from("testinbox"))
            .build()
            .unwrap(),
    );
    assert_eq!(plan.method, HttpMethod::Get);
    assert_eq!(plan.path, "/api/v2/domains/example.com/inboxes/testinbox");

    let fixture = "{\"domain\":\"example.com\",\"to\":\"testinbox\",\
        \"msgs\":[{\"subject\":\"hi\",\"id\":\"m1\",\"time\":1700000000},{}]}";
    let response = FetchInboxResponse::from_text(fixture).unwrap();
    assert_eq!(response.domain, "example.com");
    assert_eq!(response.to, "testinbox");
    assert_eq!(response.msgs.len(), 2);
    assert_eq!(response.msgs[0].subject.as_deref(), Some("hi"));
    assert_eq!(response.msgs[0].id.as_deref(), Some("m1"));
    assert_eq!(response.msgs[0].time, Some(1700000000));
    assert_eq!(response.msgs[1].subject, None);
}

#[test]
fn fetch_links_plan_and_response() {
    let plan = fetch_links(
        FetchLinkRequestBuilder::default()
            .domain(String::from("example.com"))
            .inbox(String::from("testinbox"))
            .message_id(String::from("m1"))
            .build()
            .unwrap(),
    );
    assert_eq!(plan.method, HttpMethod::Get);

    let response =
        FetchLinkResponse::from_text("{\"links\":[\"https://a\",\"https://b\"]}").unwrap();
    assert_eq!(response.links, vec![String::from("https://a"), String::from("https://b")]);
    assert!(FetchLinkResponse::from_text("{\"links\":[\"https://a\",5]}").is_none());
}

#[test]
fn attachment_list_plan_and_response() {
    let plan = fetch_list_of_attachments(
        FetchListOfAttachmentRequestBuilder::default()
            .domain(String::from("example.com"))
            .inbox(String::from("testinbox"))
            .message_id(String::from("m1"))
            .build()
            .unwrap(),
    );
    assert_eq!(plan.method, HttpMethod::Get);

    let fixture = "{\"attachments\":[{\"filename\":\"file.pdf\",\
        \"content-disposition\":\"attachment\",\
        \"content-transfer-encoding\":\"base64\",\
        \"content-type\":\"application/pdf\",\"attachment-id\":1}]}";
    let response = FetchListOfAttachmentResponse::from_text(fixture).unwrap();
    assert_eq!(response.attachments.len(), 1);
    let at = &response.attachments[0];
    assert_eq!(at.filename.as_deref(), Some("file.pdf"));
    assert_eq!(at.content_disposition.as_deref(), Some("attachment"));
    assert_eq!(at.content_transfer_encoding.as_deref(), Some("base64"));
    assert_eq!(at.content_type.as_deref(), Some("application/pdf"));
    assert_eq!(at.attachment_id, Some(1));
}

#[test]
fn rules_listing_decodes() {
    let fixture = "{\"rules\":[{\"_id\":\"r1\",\"name\":\"first\",\"priority\":2,\
        \"conditions\":[],\"actions\":[]}]}";
    let response = ListRulesResponse::from_text(fixture).unwrap();
    assert_eq!(response.rules.len(), 1);
    assert_eq!(response.rules[0]._id.as_deref(), Some("r1"));
    assert_eq!(response.rules[0].name, "first");
    assert_eq!(response.rules[0].priority, 2);
}

#[test]
fn usage_statistics_plan_and_response() {
    let plan = get_usage_statistica();
    assert_eq!(plan.method, HttpMethod::Get);
    assert_eq!(plan.path, "/api/v2/team/stats");

    let fixture = "{\"stats\":[{\"date\":\"2023-08-01T00:00:00Z\",\
        \"retrieved\":{\"web_private\":1,\"web_public\":2,\
        \"api_email\":3,\"api_error\":4},\
        \"sent\":{\"sms\":5,\"email\":6}}]}";
    let usage = UsageStatistica::from_text(fixture).unwrap();
    assert_eq!(usage.stats.len(), 1);
    assert_eq!(usage.stats[0].date, "2023-08-01T00:00:00Z");
    assert_eq!(usage.stats[0].retrieved.web_private, 1);
    assert_eq!(usage.stats[0].retrieved.api_error, 4);
    assert_eq!(usage.stats[0].sent.sms, 5);
    assert_eq!(usage.stats[0].sent.email, 6);
}

#[test]
fn usage_statistics_with_invalid_date_is_refused() {
    let fixture = "{\"stats\":[{\"date\":\"not-a-date\",\
        \"retrieved\":{\"web_private\":1,\"web_public\":2,\
        \"api_email\":3,\"api_error\":4},\
        \"sent\":{\"sms\":5,\"email\":6}}]}";
    assert!(UsageStatistica::from_text(fixture).is_none());
}
