//! Storage zones: listing, lookup by name, availability, creation, deletion
//! and statistics.
use vstd::prelude::*;
use vstd::string::*;
use crate::client::statistics::{opt_date_pair, push_opt_date};
use crate::client::{
    add_page_parameters, api_get, api_root, content_type_header, no_pairs, opt_bool_pair,
    opt_str_pair, page_pairs, pairs_view, push_opt_bool, push_opt_str, BunnyCDNClient,
    BunnyCDNClientConfig, BunnyCDNDataOptions, BunnyCDNPageParameters, BunnyCDNRequest, ContentType,
    HttpMethod, RequestView, BUNNY_STORAGE_API_ROOT,
};
use crate::errors::Error;
use crate::json::{bool_member, json_bool_member, json_quoted, quoted};
use crate::models::storagezone::{tier_code, StorageZoneTier};
use crate::text::{concat2, concat3, i64_text, int_text, strings_view, trim, trim_ws};

verus! {

/// Filters of the storage zone list.
pub struct GetStorageZoneParameters {
    pub include_deleted: Option<bool>,
    pub search: Option<String>,
}

/// Settings shared by the creation and the update of a storage zone.
pub struct AddStorageZoneCommonParameters {
    pub replication_regions: Option<Vec<String>>,
    pub origin_url: Option<String>,
}

/// The creation of a storage zone.
pub struct AddStorageZoneParameters {
    pub name: String,
    pub region: String,
    pub zone_tier: StorageZoneTier,
    pub common: Option<AddStorageZoneCommonParameters>,
}

/// The update of a storage zone.
pub struct UpdateStorageZoneParameters {
    pub custom404_file_path: Option<String>,
    pub rewrite404_to200: Option<bool>,
    pub common: Option<AddStorageZoneCommonParameters>,
}

/// The date range of storage zone statistics, in seconds after the Unix
/// epoch; without it the last 30 days are returned.
pub struct StorageZoneStatisticsParameters {
    pub date_from: Option<i64>,
    pub date_to: Option<i64>,
}

/// The lower-case form that `str::to_lowercase` gives.
pub uninterp spec fn lower_of(s: Seq<char>) -> Seq<char>;

/// Relies on `str::to_lowercase`, whose result depends on the characters alone.
#[verifier::external_body]
pub(crate) fn lowercase(s: &str) -> (r: String)
    ensures
        r@ == lower_of(s@),
{
    s.to_lowercase()
}

/// Two storage zone names are the same where their lower-case forms agree,
/// white space around them aside.
pub open spec fn zone_name_key(s: Seq<char>) -> Seq<char> {
    trim_ws(lower_of(s))
}

/// The query pairs of the storage zone filters.
pub open spec fn storage_zone_filter_pairs(p: Option<&GetStorageZoneParameters>) -> Seq<
    (Seq<char>, Seq<char>),
> {
    match p {
        Some(pp) => opt_bool_pair("includeDeleted"@, pp.include_deleted) + opt_str_pair(
            "search"@,
            pp.search,
        ),
        None => Seq::empty(),
    }
}

/// The path of one storage zone.
pub open spec fn zone_path(id: i64) -> Seq<char> {
    "/storagezone/"@ + int_text(id as int)
}

/// The JSON list of quoted strings, without brackets.
pub open spec fn json_list(items: Seq<Seq<char>>) -> Seq<char>
    decreases items.len(),
{
    if items.len() == 0 {
        Seq::empty()
    } else if items.len() == 1 {
        json_quoted(items[0])
    } else {
        json_list(items.drop_last()) + ","@ + json_quoted(items.last())
    }
}

/// The JSON object of the shared settings: `ReplicationRegions` and
/// `OriginUrl`, each where set.
pub open spec fn common_json(c: AddStorageZoneCommonParameters) -> Seq<char> {
    let regions = match c.replication_regions {
        Some(v) => "\"ReplicationRegions\":["@ + json_list(strings_view(v@)) + "]"@,
        None => Seq::empty(),
    };
    let origin = match c.origin_url {
        Some(u) => "\"OriginUrl\":"@ + json_quoted(u@),
        None => Seq::empty(),
    };
    let separator = if c.replication_regions is Some && c.origin_url is Some {
        ","@
    } else {
        Seq::empty()
    };
    "{"@ + regions + separator + origin + "}"@
}

/// The JSON body of a storage zone creation.
pub open spec fn add_zone_json(p: AddStorageZoneParameters) -> Seq<char> {
    "{\"Name\":"@ + json_quoted(p.name@) + ",\"Region\":"@ + json_quoted(p.region@)
        + ",\"ZoneTier\":"@ + tier_code(p.zone_tier) + (match p.common {
        Some(c) => ",\"Common\":"@ + common_json(c),
        None => Seq::empty(),
    }) + "}"@
}

/// The JSON body of an availability check.
pub open spec fn availability_json(name: Seq<char>) -> Seq<char> {
    "{\"Name\":"@ + json_quoted(trim_ws(name)) + "}"@
}

/// A POST of JSON to the management API with the API key.
pub open spec fn api_post_json(c: BunnyCDNClientConfig, path: Seq<char>, json: Seq<char>) -> RequestView {
    RequestView {
        method: HttpMethod::Post,
        url: api_root() + path,
        access_key: c.api_key@,
        query: Seq::empty(),
        headers: content_type_header(ContentType::ApplicationJson),
        body: vstd::utf8::encode_utf8(json),
    }
}

/// The JSON list of quoted strings, as `json_list` states.
pub fn write_json_list(items: &Vec<String>) -> (r: String)
    ensures
        r@ == json_list(strings_view(items@)),
{
    let mut out = String::new();
    let n = items.len();
    let mut i: usize = 0;
    while i < n
        invariant
            i <= n,
            n == items@.len(),
            out@ == json_list(strings_view(items@.subrange(0, i as int))),
        decreases n - i,
    {
        let q = quoted(items[i].as_str());
        let ghost prev = strings_view(items@.subrange(0, i as int));
        let ghost next = strings_view(items@.subrange(0, i + 1));
        assert(next.drop_last() =~= prev);
        assert(next.last() == items@[i as int]@);
        if i > 0 {
            out.append(",");
        }
        out.append(q.as_str());
        proof {
            if i == 0 {
                assert(prev =~= Seq::<Seq<char>>::empty());
            }
        }
        assert(out@ =~= json_list(next));
        i = i + 1;
    }
    assert(items@.subrange(0, n as int) =~= items@);
    out
}

/// The JSON object of the shared settings, as `common_json` states.
pub fn write_common_json(c: &AddStorageZoneCommonParameters) -> (r: String)
    ensures
        r@ == common_json(*c),
{
    let mut out = String::from_str("{");
    if let Some(regions) = &c.replication_regions {
        out.append("\"ReplicationRegions\":[");
        out.append(write_json_list(regions).as_str());
        out.append("]");
    }
    if c.replication_regions.is_some() && c.origin_url.is_some() {
        out.append(",");
    }
    if let Some(url) = &c.origin_url {
        out.append("\"OriginUrl\":");
        out.append(quoted(url.as_str()).as_str());
    }
    out.append("}");
    assert(out@ =~= common_json(*c));
    out
}

/// The JSON body of a storage zone creation, as `add_zone_json` states.
pub fn write_add_zone_json(p: &AddStorageZoneParameters) -> (r: String)
    ensures
        r@ == add_zone_json(*p),
{
    let mut out = String::from_str("{\"Name\":");
    out.append(quoted(p.name.as_str()).as_str());
    out.append(",\"Region\":");
    out.append(quoted(p.region.as_str()).as_str());
    out.append(",\"ZoneTier\":");
    out.append(p.zone_tier.code());
    if let Some(common) = &p.common {
        out.append(",\"Common\":");
        out.append(write_common_json(common).as_str());
    }
    out.append("}");
    assert(out@ =~= add_zone_json(*p));
    out
}

/// The position of the first name in `names` that is the same as `name`, as
/// `zone_name_key` compares them.
pub fn find_storage_zone_index(names: &Vec<String>, name: &str) -> (r: Option<usize>)
    ensures
        match r {
            Some(i) => i < names@.len() && zone_name_key(names@[i as int]@) == zone_name_key(name@)
                && forall|j: int|
                0 <= j < i ==> zone_name_key(#[trigger] names@[j]@) != zone_name_key(name@),
            None => forall|j: int|
                0 <= j < names@.len() ==> zone_name_key(#[trigger] names@[j]@) != zone_name_key(
                    name@,
                ),
        },
{
    let wanted = trim(lowercase(name).as_str());
    let mut i: usize = 0;
    while i < names.len()
        invariant
            i <= names@.len(),
            wanted@ == zone_name_key(name@),
            forall|j: int|
                0 <= j < i ==> zone_name_key(#[trigger] names@[j]@) != zone_name_key(name@),
        decreases names@.len() - i,
    {
        let found = trim(lowercase(names[i].as_str()).as_str());
        if found == wanted {
            return Some(i);
        }
        i = i + 1;
    }
    None
}

/// The filters of the search that looks a storage zone up by name: deleted
/// zones count unless `include_deleted` says otherwise.
pub fn storage_zone_search_parameters(name: &str, include_deleted: Option<bool>) -> (r:
    GetStorageZoneParameters)
    ensures
        r.include_deleted == Some(
            match include_deleted {
                Some(b) => b,
                None => true,
            },
        ),
        r.search matches Some(s) && s@ == name@,
{
    let used_include_deleted = match include_deleted {
        Some(flag) => flag,
        None => true,
    };
    GetStorageZoneParameters {
        include_deleted: Some(used_include_deleted),
        search: Some(String::from_str(name)),
    }
}

/// Whether a name is free, from the body of an availability check.
pub fn availability_from_body(body: &str) -> (r: Result<bool, Error>)
    ensures
        match r {
            Ok(b) => json_bool_member(body@, "Available"@) == Some(b),
            Err(_) => json_bool_member(body@, "Available"@) is None,
        },
{
    match bool_member(body, "Available") {
        Some(b) => Ok(b),
        None => Err(Error::new_from_message("Invalid Availability Response")),
    }
}

impl BunnyCDNClient {
    /// The request for the storage zone list: the page selection, then the filters.
    pub fn get_storage_zones_request(
        &self,
        params: Option<&GetStorageZoneParameters>,
        page_params: Option<&BunnyCDNPageParameters>,
    ) -> (r: BunnyCDNRequest)
        ensures
            r@ == api_get(
                self.config,
                "/storagezone"@,
                page_pairs(page_params) + storage_zone_filter_pairs(params),
            ),
    {
        let mut query = no_pairs();
        add_page_parameters(&mut query, page_params);
        if let Some(provided) = params {
            push_opt_bool(&mut query, "includeDeleted", provided.include_deleted);
            push_opt_str(&mut query, "search", &provided.search);
        }
        assert(pairs_view(query@) =~= page_pairs(page_params) + storage_zone_filter_pairs(params));
        self.api_get_request("/storagezone", query)
    }

    /// The request for one storage zone.
    pub fn get_storage_zone_request(&self, id: i64) -> (r: BunnyCDNRequest)
        ensures
            r@ == api_get(self.config, zone_path(id), Seq::empty()),
    {
        let path = concat2("/storagezone/", i64_text(id).as_str());
        self.api_get_request(path.as_str(), no_pairs())
    }

    /// The request that deletes a storage zone, with the API key.
    pub fn delete_storage_zone_request(&self, id: i64) -> (r: BunnyCDNRequest)
        ensures
            r@ == (RequestView {
                method: HttpMethod::Delete,
                url: api_root() + zone_path(id),
                access_key: self.config.api_key@,
                query: Seq::empty(),
                headers: Seq::empty(),
                body: Seq::empty(),
            }),
    {
        let url = concat3(BUNNY_STORAGE_API_ROOT, "/storagezone/", i64_text(id).as_str());
        assert(url@ =~= api_root() + zone_path(id));
        BunnyCDNRequest {
            method: HttpMethod::Delete,
            url,
            access_key: self.config.api_key.clone(),
            query: no_pairs(),
            options: None,
            body: Vec::new(),
        }
    }

    /// The request for the statistics of one storage zone.
    pub fn get_storage_zone_statistics_request(
        &self,
        id: i64,
        params: Option<&StorageZoneStatisticsParameters>,
    ) -> (r: Result<BunnyCDNRequest, Error>)
        ensures
            match r {
                Ok(req) => match params {
                    None => req@ == api_get(self.config, zone_path(id) + "/statistics"@, Seq::empty()),
                    Some(p) => (opt_date_pair("dateFrom"@, p.date_from) matches Some(a) && opt_date_pair(
                        "dateTo"@,
                        p.date_to,
                    ) matches Some(b) && req@ == api_get(
                        self.config,
                        zone_path(id) + "/statistics"@,
                        a + b,
                    )),
                },
                Err(_) => (params matches Some(p) && (opt_date_pair("dateFrom"@, p.date_from) is None
                    || opt_date_pair("dateTo"@, p.date_to) is None)),
            },
    {
        let mut query = no_pairs();
        if let Some(provided) = params {
            push_opt_date(&mut query, "dateFrom", provided.date_from)?;
            push_opt_date(&mut query, "dateTo", provided.date_to)?;
        }
        proof {
            if let Some(p) = params {
                assert(pairs_view(query@) =~= opt_date_pair("dateFrom"@, p.date_from)->0
                    + opt_date_pair("dateTo"@, p.date_to)->0);
            }
        }
        let mut path = concat2("/storagezone/", i64_text(id).as_str());
        path.append("/statistics");
        Ok(self.api_get_request(path.as_str(), query))
    }

    /// The POST that asks whether a storage zone name is free; a blank name
    /// is refused.
    pub fn check_storage_zone_availability_request(&self, name: &str) -> (r: Result<
        BunnyCDNRequest,
        Error,
    >)
        ensures
            match r {
                Ok(req) => trim_ws(name@).len() > 0 && req@ == api_post_json(
                    self.config,
                    "/storagezone/checkavailability"@,
                    availability_json(name@),
                ),
                Err(_) => trim_ws(name@).len() == 0,
            },
    {
        let used_name = trim(name);
        if used_name.as_str().is_empty() {
            return Err(Error::new_from_message("Invalid Storage Zone Name. Must not be empty"));
        }
        let json = concat3("{\"Name\":", quoted(used_name.as_str()).as_str(), "}");
        Ok(self.api_post_json_request("/storagezone/checkavailability", json))
    }

    /// The POST that creates a storage zone; a blank name or region is refused.
    pub fn add_storage_zone_request(&self, params: &AddStorageZoneParameters) -> (r: Result<
        BunnyCDNRequest,
        Error,
    >)
        ensures
            match r {
                Ok(req) => trim_ws(params.name@).len() > 0 && trim_ws(params.region@).len() > 0
                    && req@ == api_post_json(self.config, "/storagezone"@, add_zone_json(*params)),
                Err(_) => trim_ws(params.name@).len() == 0 || trim_ws(params.region@).len() == 0,
            },
    {
        if trim(params.name.as_str()).as_str().is_empty() {
            return Err(Error::new_from_message("Invalid Storage Zone Name. Must not be empty"));
        }
        if trim(params.region.as_str()).as_str().is_empty() {
            return Err(Error::new_from_message("Invalid Storage Zone Region. Must not be empty"));
        }
        let json = write_add_zone_json(params);
        Ok(self.api_post_json_request("/storagezone", json))
    }

    /// A POST of JSON to the management API at `path`, with the API key.
    pub fn api_post_json_request(&self, path: &str, json: String) -> (r: BunnyCDNRequest)
        ensures
            r@ == api_post_json(self.config, path@, json@),
    {
        BunnyCDNRequest {
            method: HttpMethod::Post,
            url: concat2(BUNNY_STORAGE_API_ROOT, path),
            access_key: self.config.api_key.clone(),
            query: no_pairs(),
            options: Some(BunnyCDNDataOptions::with_content_type(ContentType::ApplicationJson)),
            body: json.as_str().as_bytes_vec(),
        }
    }
}

} // verus!
