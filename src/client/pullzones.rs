//! Pull zones: the list and a single zone.
use vstd::prelude::*;
use crate::client::{
    add_page_parameters, api_get, no_pairs, opt_bool_pair, opt_str_pair, page_pairs, push_opt_bool,
    push_opt_str, BunnyCDNClient, BunnyCDNPageParameters, BunnyCDNRequest,
};
use crate::text::{concat2, i64_text, int_text};

verus! {

pub const PULL_ZONE_INCLUDE_CERTIFICATE_NAME: &'static str = "includeCertificate";

/// Filters of the pull zone list.
pub struct PullZonesParameters {
    pub search: Option<String>,
    pub include_certificate: Option<bool>,
}

/// The query pairs of the pull zone filters: `search` and
/// `includeCertificate`, each where set.
pub open spec fn pull_zone_filter_pairs(p: Option<&PullZonesParameters>) -> Seq<(Seq<char>, Seq<char>)> {
    match p {
        Some(pp) => opt_str_pair("search"@, pp.search) + opt_bool_pair(
            "includeCertificate"@,
            pp.include_certificate,
        ),
        None => Seq::empty(),
    }
}

impl BunnyCDNClient {
    /// The request for the pull zone list: the page selection, then the filters.
    pub fn get_pull_zones_request(
        &self,
        params: Option<&PullZonesParameters>,
        page_params: Option<&BunnyCDNPageParameters>,
    ) -> (r: BunnyCDNRequest)
        ensures
            r@ == api_get(
                self.config,
                "/pullzone"@,
                page_pairs(page_params) + pull_zone_filter_pairs(params),
            ),
    {
        let mut query = no_pairs();
        add_page_parameters(&mut query, page_params);
        if let Some(provided) = params {
            push_opt_str(&mut query, "search", &provided.search);
            push_opt_bool(&mut query, PULL_ZONE_INCLUDE_CERTIFICATE_NAME, provided.include_certificate);
        }
        assert(crate::client::pairs_view(query@) =~= page_pairs(page_params) + pull_zone_filter_pairs(params));
        self.api_get_request("/pullzone", query)
    }

    /// The request for one pull zone.
    pub fn get_pull_zone_request(&self, id: i64, include_certificate: Option<bool>) -> (r:
        BunnyCDNRequest)
        ensures
            r@ == api_get(
                self.config,
                "/pullzone/"@ + int_text(id as int),
                opt_bool_pair("includeCertificate"@, include_certificate),
            ),
    {
        let mut query = no_pairs();
        push_opt_bool(&mut query, PULL_ZONE_INCLUDE_CERTIFICATE_NAME, include_certificate);
        assert(crate::client::pairs_view(query@) =~= opt_bool_pair("includeCertificate"@, include_certificate));
        let path = concat2("/pullzone/", i64_text(id).as_str());
        self.api_get_request(path.as_str(), query)
    }
}

} // verus!
