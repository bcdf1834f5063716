use path2d::environment::{
    BrowsingContextId, EmbedderPolicy, EmbedderPolicyValue, Environment, EnvironmentSettings,
    PolicyContainer, RequestClient, ServiceWorkerId,
};
use url::Url;

fn client(value: EmbedderPolicyValue) -> RequestClient {
    let creation_url = Url::parse("https://example.org/a/b?c").unwrap();
    let origin = creation_url.origin();
    RequestClient {
        environment_settings: Some(EnvironmentSettings {
            environment: Environment {
                id: "e1".to_string(),
                creation_url: creation_url.clone(),
                top_level_creation_url: None,
                top_level_origin: origin.clone(),
                target_browsing_context: BrowsingContextId { namespace_id: 1, index: 2 },
                active_service_worker: Some(ServiceWorkerId { namespace_id: 1, index: 3 }),
                execution_ready: true,
            },
            policy_container: PolicyContainer {
                embedder_policy: EmbedderPolicy {
                    value,
                    reporting_endpoint: "main".to_string(),
                    report_only_value: EmbedderPolicyValue::UnsafeNone,
                    report_only_reporting_endpoint: String::new(),
                },
            },
            origin,
            cross_origin_isolated_capability: false,
        }),
    }
}

#[test]
fn default_policy_value_is_unsafe_none() {
    assert_eq!(EmbedderPolicyValue::default(), EmbedderPolicyValue::UnsafeNone);
}

#[test]
fn default_policy_enforces_and_reports_nothing() {
    let policy = EmbedderPolicy::default();
    assert_eq!(policy.value, EmbedderPolicyValue::UnsafeNone);
    assert_eq!(policy.reporting_endpoint, "");
    assert_eq!(policy.report_only_value, EmbedderPolicyValue::UnsafeNone);
    assert_eq!(policy.report_only_reporting_endpoint, "");
}

#[test]
fn client_without_environment_is_none() {
    assert!(RequestClient { environment_settings: None }.is_none());
    assert!(!client(EmbedderPolicyValue::RequireCorp).is_none());
}

#[test]
fn client_gives_the_enforced_policy_value() {
    for value in [
        EmbedderPolicyValue::UnsafeNone,
        EmbedderPolicyValue::RequireCorp,
        EmbedderPolicyValue::CredentialLess,
    ] {
        assert_eq!(client(value).embedder_policy_value(), value);
    }
}

#[test]
fn copy_of_a_client_keeps_its_environment() {
    let first = client(EmbedderPolicyValue::CredentialLess);
    let second = first.clone();
    let settings = second.environment_settings.unwrap();
    assert_eq!(settings.environment.id, "e1");
    assert_eq!(settings.environment.creation_url.as_str(), "https://example.org/a/b?c");
    assert_eq!(settings.origin, settings.environment.top_level_origin);
    assert_eq!(settings.origin.ascii_serialization(), "https://example.org");
    assert_eq!(
        settings.environment.target_browsing_context,
        BrowsingContextId { namespace_id: 1, index: 2 }
    );
    assert_eq!(
        settings.environment.active_service_worker,
        Some(ServiceWorkerId { namespace_id: 1, index: 3 })
    );
    assert!(settings.environment.execution_ready);
    assert_eq!(settings.policy_container.embedder_policy.value, EmbedderPolicyValue::CredentialLess);
}
