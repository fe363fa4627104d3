//! Enumerated settings of a pull zone, sent as their numbers.
use vstd::prelude::*;

verus! {

/// The pricing type of a pull zone.
#[derive(Debug, Clone, Copy, PartialEq, Eq, Structural)]
pub enum PullZoneType {
    Premium,
    Volume,
}

impl Default for PullZoneType {
    fn default() -> (r: PullZoneType)
        ensures
            r == PullZoneType::Premium,
    {
        PullZoneType::Premium
    }
}

/// The protocol of log forwarding.
#[derive(Debug, Clone, Copy, PartialEq, Eq, Structural)]
pub enum LogForwardingProtocol {
    UDP,
    TCP,
    TCPEncrypted,
    DataDog,
}

impl Default for LogForwardingProtocol {
    fn default() -> (r: LogForwardingProtocol)
        ensures
            r == LogForwardingProtocol::UDP,
    {
        LogForwardingProtocol::UDP
    }
}

/// Where the optimizer places a watermark.
#[derive(Debug, Clone, Copy, PartialEq, Eq, Structural)]
pub enum OptimizerWatermarkPosition {
    BottomLeft,
    BottomRight,
    TopLeft,
    TopRight,
    Center,
    CenterStretch,
}

impl Default for OptimizerWatermarkPosition {
    fn default() -> (r: OptimizerWatermarkPosition)
        ensures
            r == OptimizerWatermarkPosition::TopRight,
    {
        OptimizerWatermarkPosition::TopRight
    }
}

/// How logged addresses are anonymized.
#[derive(Debug, Clone, Copy, PartialEq, Eq, Structural)]
pub enum LogAnonymizationType {
    OneDigit,
    Drop,
}

impl Default for LogAnonymizationType {
    fn default() -> (r: LogAnonymizationType)
        ensures
            r == LogAnonymizationType::OneDigit,
    {
        LogAnonymizationType::OneDigit
    }
}

/// The format of logs.
#[derive(Debug, Clone, Copy, PartialEq, Eq, Structural)]
pub enum LogFormat {
    Plain,
    Json,
}

impl Default for LogFormat {
    fn default() -> (r: LogFormat)
        ensures
            r == LogFormat::Json,
    {
        LogFormat::Json
    }
}

/// The format of forwarded logs.
#[derive(Debug, Clone, Copy, PartialEq, Eq, Structural)]
pub enum LogForwardingFormat {
    Plain,
    Json,
}

impl Default for LogForwardingFormat {
    fn default() -> (r: LogForwardingFormat)
        ensures
            r == LogForwardingFormat::Json,
    {
        LogForwardingFormat::Json
    }
}

/// The level of DDoS protection.
#[derive(Debug, Clone, Copy, PartialEq, Eq, Structural)]
pub enum ShieldDDosProtectionType {
    DetectOnly,
    ActiveStandard,
    ActiveAggressive,
}

impl Default for ShieldDDosProtectionType {
    fn default() -> (r: ShieldDDosProtectionType)
        ensures
            r == ShieldDDosProtectionType::ActiveStandard,
    {
        ShieldDDosProtectionType::ActiveStandard
    }
}

/// The kind of origin a pull zone fetches from.
#[derive(Debug, Clone, Copy, PartialEq, Eq, Structural)]
pub enum OriginType {
    OriginUrl,
    DnsAccelerate,
    StorageZone,
    LoadBalancer,
    EdgeScript,
    MagicContainers,
    PushZone,
}

/// The theme of the preloading screen.
#[derive(Debug, Clone, Copy, PartialEq, Eq, Structural)]
pub enum PreloadingScreenTheme {
    Light,
    Dark,
}

impl Default for PreloadingScreenTheme {
    fn default() -> (r: PreloadingScreenTheme)
        ensures
            r == PreloadingScreenTheme::Light,
    {
        PreloadingScreenTheme::Light
    }
}

} // verus!
