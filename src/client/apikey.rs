//! The list of API keys, which comes in a pagination envelope.
use vstd::prelude::*;
use crate::client::{add_page_parameters, api_get, no_pairs, page_pairs, BunnyCDNClient, BunnyCDNPageParameters, BunnyCDNRequest};

verus! {

impl BunnyCDNClient {
    /// The request for a page of API keys, with the API key.
    pub fn get_api_keys_request(&self, params: Option<&BunnyCDNPageParameters>) -> (r: BunnyCDNRequest)
        ensures
            r@ == api_get(self.config, "/apikey"@, page_pairs(params)),
    {
        let mut query = no_pairs();
        add_page_parameters(&mut query, params);
        assert(page_pairs(params) =~= Seq::empty() + page_pairs(params));
        self.api_get_request("/apikey", query)
    }
}

} // verus!
