//! The list of regions.
use vstd::prelude::*;
use crate::client::{api_get, no_pairs, BunnyCDNClient, BunnyCDNClientConfig, RequestView, BunnyCDNRequest};

verus! {

/// The request for the list of regions.
pub open spec fn regions_plan(c: BunnyCDNClientConfig) -> RequestView {
    api_get(c, "/region"@, Seq::empty())
}

impl BunnyCDNClient {
    /// The request for the list of regions, with the API key.
    pub fn get_regions_request(&self) -> (r: BunnyCDNRequest)
        ensures
            r@ == regions_plan(self.config),
    {
        self.api_get_request("/region", no_pairs())
    }
}

/// Asking for the regions twice with nothing changed in between asks the
/// same thing both times: the request depends on the API key alone, so two
/// configurations with the same key send equal requests, and equal responses
/// then come to equal results.
pub proof fn lemma_regions_request_repeatable(c1: BunnyCDNClientConfig, c2: BunnyCDNClientConfig)
    requires
        c1.api_key@ == c2.api_key@,
    ensures
        regions_plan(c1) == regions_plan(c2),
{
}

} // verus!
