//! Triggers of edge rules.
use vstd::prelude::*;

verus! {

/// What a trigger inspects.
#[derive(Debug, Clone, Copy, PartialEq, Eq, Structural)]
pub enum TriggerType {
    Url,
    RequestHeader,
    ResponseHeader,
    UrlExtension,
    CountryCode,
    RemoteIP,
    UrlQueryString,
    RandomChance,
    StatusCode,
    RequestMethod,
    CookieValue,
    CountryStateCode,
    OriginRetryAttemptCount,
    OriginConnectionError,
}

impl Default for TriggerType {
    fn default() -> (r: TriggerType)
        ensures
            r == TriggerType::Url,
    {
        TriggerType::Url
    }
}

/// How the patterns of one trigger combine.
#[derive(Debug, Clone, Copy, PartialEq, Eq, Structural)]
pub enum TriggerPatternMatchingType {
    MatchAny,
    MatchAll,
    MatchNone,
}

impl Default for TriggerPatternMatchingType {
    fn default() -> (r: TriggerPatternMatchingType)
        ensures
            r == TriggerPatternMatchingType::MatchNone,
    {
        TriggerPatternMatchingType::MatchNone
    }
}

/// How the triggers of an edge rule combine.
#[derive(Debug, Clone, Copy, PartialEq, Eq, Structural)]
pub enum TriggerMatchingType {
    MatchAny,
    MatchAll,
    MatchNone,
}

/// A condition of an edge rule.
#[derive(Debug, Clone)]
pub struct Trigger {
    pub trigger_type: TriggerType,
    pub pattern_matches: Vec<String>,
    pub pattern_matching_type: TriggerPatternMatchingType,
}

} // verus!
