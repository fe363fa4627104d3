//! Edge rules of a pull zone.
use vstd::prelude::*;
use crate::models::trigger::{Trigger, TriggerMatchingType};

verus! {

/// What an edge rule does.
#[derive(Debug, Clone, Copy, PartialEq, Eq, Structural)]
pub enum EdgeRuleActionType {
    ForceSSL,
    Redirect,
    OriginUrl,
    OverrideCacheTime,
    BlockRequest,
    SetResponseHeader,
    SetRequestHeader,
    ForceDownload,
    DisableTokenAuthentication,
    EnableTokenAuthentication,
    OverrideCacheTimePublic,
    IgnoreQueryString,
    DisableOptimizer,
    ForceCompression,
    SetStatusCode,
    BypassPermaCache,
    OverrideBrowserCacheTime,
    OriginStorage,
    SetNetworkRateLimit,
    SetConnectionLimit,
    SetRequestsPerSecondLimit,
    RunEdgeScript,
    OriginMagicContainers,
    DisableWAF,
    RetryOrigin,
}

impl Default for EdgeRuleActionType {
    fn default() -> (r: EdgeRuleActionType)
        ensures
            r == EdgeRuleActionType::ForceSSL,
    {
        EdgeRuleActionType::ForceSSL
    }
}

/// An action taken when the triggers of the rule match.
#[derive(Debug, Clone)]
pub struct EdgeRule {
    pub guid: String,
    pub action_type: EdgeRuleActionType,
    pub action_parameter_1: String,
    pub action_parameter_2: String,
    pub triggers: Vec<Trigger>,
    pub trigger_matching_type: TriggerMatchingType,
    pub description: String,
    pub enabled: bool,
}

} // verus!
