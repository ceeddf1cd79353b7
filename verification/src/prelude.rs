//! One import for the common surface: request builders, response models,
//! and the planned endpoint operations.

pub use crate::api::{BuildError, ResponseStatus};
pub use crate::attachment::{
    Attachment, FetchAttachmentRequest, FetchAttachmentRequestBuilder,
    FetchListOfAttachmentRequest, FetchListOfAttachmentRequestBuilder,
    FetchListOfAttachmentResponse, LookupField, fetch_attachment, fetch_list_of_attachments,
};
pub use crate::config::{ClientConfig, ConfigError, EnvCfg};
pub use crate::domains::{
    Domain, DomainRequest, DomainRequestBuilder, DomainResponse, create_private_domain,
    delete_private_domain, get_all_domains, get_domain,
};
pub use crate::http::{HttpMethod, HttpPlan, RequestBody};
pub use crate::inbox::{
    FetchInboxRequest, FetchInboxRequestBuilder, FetchInboxRequestQueryParams,
    FetchInboxRequestQueryParamsBuilder, FetchInboxResponse, Msg, Sorting, fetch_inbox,
};
pub use crate::link::{
    FetchLinkRequest, FetchLinkRequestBuilder, FetchLinkResponse, fetch_links,
};
pub use crate::message::{
    DeleteAllDomainMessageRequest, DeleteAllDomainMessageRequestBuilder,
    DeleteAllInboxMessageRequest, DeleteAllInboxMessageRequestBuilder, DeleteMessageRequest,
    DeleteMessageRequestBuilder, DeleteMessageResponse, Email, FetchMessageRequest,
    FetchMessageRequestBuilder, FetchSmsMessageRequest, FetchSmsMessageRequestBuilder,
    InjectMessageRequest, InjectMessageRequestBuilder, InjectMessageResponse, NewEmail,
    NewEmailBuilder, Part, PartBuilder, delete_all_domain_messages, delete_all_inbox_messages,
    delete_message, fetch_message, fetch_sms_message, inject_message,
};
pub use crate::rules::{
    Action, Condition, ConditionAction, ConditionData, ConditionMatch, ConditionOperation,
    CreateRuleRequest, CreateRuleRequestBuilder, DisableRuleRequest, EnableRuleRequest,
    ListRulesRequest, ListRulesRequestBuilder, ListRulesResponse, Rule, RuleBuilder, RuleRequest,
    RuleRequestBuilder, WebhookAction, WebhookActionBuilder, create_rule, delete_rule,
    disable_rule, enable_rule, get_rule, list_rules,
};
pub use crate::stats::{Retrieved, Sent, Stats, UsageStatistica, get_usage_statistica};
