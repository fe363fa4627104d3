//! Usage charts of a storage zone.
use vstd::prelude::*;
use std::collections::BTreeMap;

verus! {

/// Storage used and file count of a storage zone, by date.
#[derive(Debug, Clone)]
pub struct StorageZoneStatistics {
    pub storage_used_chart: BTreeMap<String, u64>,
    pub file_count_chart: BTreeMap<String, u64>,
}

} // verus!
