//! Hostnames linked to a pull zone.
use vstd::prelude::*;

verus! {

/// A hostname of a pull zone and its certificate settings.
#[derive(Debug, Clone)]
pub struct Hostname {
    pub id: i64,
    pub value: String,
    pub force_ssl: bool,
    pub is_system_hostname: bool,
    pub has_certificate: bool,
    pub certificate: Option<String>,
    pub certificate_key: Option<String>,
}

} // verus!
