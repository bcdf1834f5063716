//! What a request knows of the environment that made it.
use url::{Origin, Url};
use vstd::prelude::*;

verus! {

/// How a document may embed resources of other origins.
#[derive(Clone, Copy, Debug, Eq, PartialEq, Structural)]
pub enum EmbedderPolicyValue {
    UnsafeNone,
    RequireCorp,
    CredentialLess,
}

impl Default for EmbedderPolicyValue {
    fn default() -> (r: Self)
        ensures
            r == EmbedderPolicyValue::UnsafeNone,
    {
        EmbedderPolicyValue::UnsafeNone
    }
}

/// An embedder policy: the value that is enforced, the value that is only
/// reported on, and for each the endpoint that reports go to.
#[derive(Clone, Debug)]
pub struct EmbedderPolicy {
    pub value: EmbedderPolicyValue,
    pub reporting_endpoint: String,
    pub report_only_value: EmbedderPolicyValue,
    pub report_only_reporting_endpoint: String,
}

impl Default for EmbedderPolicy {
    fn default() -> (r: Self)
        ensures
            r.value == EmbedderPolicyValue::UnsafeNone,
            r.reporting_endpoint@ == Seq::<char>::empty(),
            r.report_only_value == EmbedderPolicyValue::UnsafeNone,
            r.report_only_reporting_endpoint@ == Seq::<char>::empty(),
    {
        EmbedderPolicy {
            value: EmbedderPolicyValue::UnsafeNone,
            reporting_endpoint: String::new(),
            report_only_value: EmbedderPolicyValue::UnsafeNone,
            report_only_reporting_endpoint: String::new(),
        }
    }
}

/// The policies of an environment.
#[derive(Clone, Debug)]
pub struct PolicyContainer {
    pub embedder_policy: EmbedderPolicy,
}

/// `url::Url`, an address. The library carries it and does not look into
/// it.
#[verifier::external_type_specification]
#[verifier::external_body]
pub struct ExUrl(url::Url);

/// `url::Origin`, the origin of an address. The library carries it and does
/// not look into it.
#[verifier::external_type_specification]
#[verifier::external_body]
pub struct ExOrigin(url::Origin);

/// `Url::clone`. Nothing is claimed of the copy.
pub assume_specification[ <url::Url as Clone>::clone ](url: &url::Url) -> url::Url;

/// `Origin::clone`. Nothing is claimed of the copy.
pub assume_specification[ <url::Origin as Clone>::clone ](origin: &url::Origin) -> url::Origin;

/// The name of a browsing context: a namespace and an index within it.
#[derive(Clone, Copy, Debug, PartialEq, Eq, Structural)]
pub struct BrowsingContextId {
    pub namespace_id: u32,
    pub index: u32,
}

/// The name of a service worker: a namespace and an index within it.
#[derive(Clone, Copy, Debug, PartialEq, Eq, Structural)]
pub struct ServiceWorkerId {
    pub namespace_id: u32,
    pub index: u32,
}

/// An environment: where it was created and what it belongs to.
#[derive(Clone, Debug)]
pub struct Environment {
    pub id: String,
    pub creation_url: Url,
    pub top_level_creation_url: Option<Url>,
    pub top_level_origin: Origin,
    pub target_browsing_context: BrowsingContextId,
    pub active_service_worker: Option<ServiceWorkerId>,
    pub execution_ready: bool,
}

/// The settings of the environment that a request comes from.
#[derive(Clone, Debug)]
pub struct EnvironmentSettings {
    pub environment: Environment,
    pub policy_container: PolicyContainer,
    pub origin: Origin,
    pub cross_origin_isolated_capability: bool,
}

/// The client of a request: the settings of its environment, if it has one.
#[derive(Clone, Debug)]
pub struct RequestClient {
    pub environment_settings: Option<EnvironmentSettings>,
}

impl RequestClient {
    /// Whether the request has no environment.
    pub fn is_none(&self) -> (r: bool)
        ensures
            r == (self.environment_settings is None),
    {
        self.environment_settings.is_none()
    }

    /// The embedder policy value that the environment enforces.
    pub fn embedder_policy_value(&self) -> (r: EmbedderPolicyValue)
        requires
            self.environment_settings is Some,
        ensures
            r == self.environment_settings->0.policy_container.embedder_policy.value,
    {
        self.environment_settings.as_ref().unwrap().policy_container.embedder_policy.value
    }
}

} // verus!
