//! Traffic statistics, filtered by date range, pull zone and region.
use vstd::prelude::*;
use crate::client::{
    api_get, no_pairs, opt_bool_pair, opt_int_pair, opt_view, pairs_view, push_opt_bool,
    push_opt_int, push_pair, BunnyCDNClient, BunnyCDNRequest,
};
use crate::errors::Error;

verus! {

/// The RFC 3339 text that chrono writes for the UTC instant `seconds` after
/// the Unix epoch, where chrono can represent that instant.
pub uninterp spec fn rfc3339_of_seconds(seconds: int) -> Option<Seq<char>>;

/// Relies on chrono's `DateTime::<Utc>::from_timestamp`, which refuses
/// instants outside its range, and `DateTime::to_rfc3339`.
#[verifier::external_body]
pub(crate) fn rfc3339_text(seconds: i64) -> (r: Option<String>)
    ensures
        opt_view(r) == rfc3339_of_seconds(seconds as int),
{
    match chrono::DateTime::<chrono::Utc>::from_timestamp(seconds, 0) {
        Some(instant) => Some(instant.to_rfc3339()),
        None => None,
    }
}

/// Filters of the statistics. Dates are UTC instants, in seconds after the
/// Unix epoch; without them the last 30 days are returned.
#[derive(Debug)]
pub struct StatisticsParameters {
    pub date_from: Option<i64>,
    pub date_to: Option<i64>,
    pub pull_zone: Option<i64>,
    pub server_zone_id: Option<i64>,
    pub load_errors: Option<bool>,
    pub hourly: Option<bool>,
}

/// The pair `name`, RFC 3339 text where a date is given; `None` where the
/// date cannot be written.
pub open spec fn opt_date_pair(name: Seq<char>, v: Option<i64>) -> Option<
    Seq<(Seq<char>, Seq<char>)>,
> {
    match v {
        Some(s) => match rfc3339_of_seconds(s as int) {
            Some(t) => Some(seq![(name, t)]),
            None => None,
        },
        None => Some(Seq::empty()),
    }
}

/// The query pairs of the statistics filters, in the order `dateFrom`,
/// `dateTo`, `pullZone`, `serverZoneId`, `loadErrors`, `hourly`, each where set.
pub open spec fn statistics_pairs(p: Option<&StatisticsParameters>) -> Option<
    Seq<(Seq<char>, Seq<char>)>,
> {
    match p {
        None => Some(Seq::empty()),
        Some(pp) => match (
            opt_date_pair("dateFrom"@, pp.date_from),
            opt_date_pair("dateTo"@, pp.date_to),
        ) {
            (Some(a), Some(b)) => Some(
                a + b + opt_int_pair("pullZone"@, pp.pull_zone) + opt_int_pair(
                    "serverZoneId"@,
                    pp.server_zone_id,
                ) + opt_bool_pair("loadErrors"@, pp.load_errors) + opt_bool_pair(
                    "hourly"@,
                    pp.hourly,
                ),
            ),
            _ => None,
        },
    }
}

/// Appends the pair `name`, RFC 3339 text where a date is given.
pub fn push_opt_date(pairs: &mut Vec<(String, String)>, name: &str, v: Option<i64>) -> (r: Result<
    (),
    Error,
>)
    ensures
        match opt_date_pair(name@, v) {
            Some(q) => r is Ok && pairs_view(final(pairs)@) == pairs_view(old(pairs)@) + q,
            None => r is Err,
        },
{
    let ghost before = pairs_view(pairs@);
    if let Some(seconds) = v {
        match rfc3339_text(seconds) {
            Some(text) => push_pair(pairs, name, text),
            None => {
                return Err(Error::new_from_message("Invalid Date - Out of range"));
            },
        }
    }
    assert(pairs_view(pairs@) =~= before + opt_date_pair(name@, v)->0);
    Ok(())
}

/// The query pairs of the statistics filters, as `statistics_pairs` states.
pub fn prepare_statistics_params(optional_params: Option<&StatisticsParameters>) -> (r: Result<
    Vec<(String, String)>,
    Error,
>)
    ensures
        match r {
            Ok(q) => statistics_pairs(optional_params) == Some(pairs_view(q@)),
            Err(_) => statistics_pairs(optional_params) is None,
        },
{
    let mut params_map = no_pairs();
    match optional_params {
        None => Ok(params_map),
        Some(params) => {
            let ghost empty = pairs_view(params_map@);
            push_opt_date(&mut params_map, "dateFrom", params.date_from)?;
            push_opt_date(&mut params_map, "dateTo", params.date_to)?;
            push_opt_int(&mut params_map, "pullZone", params.pull_zone);
            push_opt_int(&mut params_map, "serverZoneId", params.server_zone_id);
            push_opt_bool(&mut params_map, "loadErrors", params.load_errors);
            push_opt_bool(&mut params_map, "hourly", params.hourly);
            assert(pairs_view(params_map@) =~= statistics_pairs(optional_params)->0);
            Ok(params_map)
        },
    }
}

impl BunnyCDNClient {
    /// The request for the statistics, with the API key.
    pub fn get_statistics_request(&self, params: Option<&StatisticsParameters>) -> (r: Result<
        BunnyCDNRequest,
        Error,
    >)
        ensures
            match r {
                Ok(req) => (statistics_pairs(params) matches Some(q) && req@ == api_get(
                    self.config,
                    "/statistics"@,
                    q,
                )),
                Err(_) => statistics_pairs(params) is None,
            },
    {
        let query = prepare_statistics_params(params)?;
        Ok(self.api_get_request("/statistics", query))
    }
}

} // verus!
