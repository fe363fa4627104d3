//! The client, its configuration, the requests it plans and the handling of
//! the responses. Sending a request is the caller's part: each planning
//! method returns a `BunnyCDNRequest`, and the functions here classify what
//! came back.

pub mod apikey;
pub mod files;
pub mod pullzones;
pub mod regions;
pub mod statistics;
pub mod storagezones;

use vstd::prelude::*;
use reqwest::Error as ReqwestError;
use crate::environment::{get_non_empty_string_from_env, non_empty_setting, setting_error_text};
use crate::errors::Error;
use crate::json::{
    array_elements, array_member, bool_member, json_array_len, json_array_member_len,
    json_bool_member, json_string_member, json_u64_member, string_member, u64_member,
};
use crate::models::storageendpoint::{endpoint_named, lemma_hostname_shape, url_of, StorageEndpoint};
use crate::text::{bool_seq, bool_text, concat2, i64_text, int_text};

verus! {

#[verifier::external_type_specification]
#[verifier::external_body]
pub struct ExHttpClient(reqwest::Client);

#[verifier::external_type_specification]
#[verifier::external_body]
pub struct ExHttpClientBuilder(reqwest::ClientBuilder);

#[verifier::external_type_specification]
#[verifier::external_body]
pub struct ExHttpError(ReqwestError);

/// Relies on reqwest's `Client::builder`: a builder with default settings.
pub assume_specification[ reqwest::Client::builder ]() -> reqwest::ClientBuilder;

/// Relies on reqwest's `ClientBuilder::build`: the client with its own
/// connection pool, or the error met while setting up TLS or the resolver.
/// Nothing about either is assumed.
pub assume_specification[ reqwest::ClientBuilder::build ](builder: reqwest::ClientBuilder) -> Result<
    reqwest::Client,
    ReqwestError,
>;

pub const BUNNY_STORAGE_API_ROOT: &'static str = "https://api.bunny.net";

pub const ENV_BUNNY_STORAGE_API_KEY_NAME: &'static str = "BUNNYSTORAGE_API_KEY";

pub const ENV_BUNNY_STORAGE_READ_PASSWORD_NAME: &'static str = "BUNNYSTORAGE_READ_PASSWORD";

pub const ENV_BUNNY_STORAGE_WRITE_PASSWORD_NAME: &'static str = "BUNNYSTORAGE_WRITE_PASSWORD";

pub const ENV_BUNNY_STORAGE_ZONE_NAME_NAME: &'static str = "BUNNYSTORAGE_STORAGE_ZONE_NAME";

pub const ENV_BUNNY_STORAGE_ENDPOINT_NAME_NAME: &'static str = "BUNNYSTORAGE_ENDPOINT_NAME";

pub const ACCESS_KEY_HEADER_NAME: &'static str = "AccessKey";

pub const CONTENT_TYPE_HEADER_NAME: &'static str = "Content-Type";

/// The root of the management API.
pub open spec fn api_root() -> Seq<char> {
    "https://api.bunny.net"@
}

/// The content types that requests declare.
#[derive(Debug, Clone, Copy, PartialEq, Eq, Structural)]
pub enum ContentType {
    ApplicationJson,
    ApplicationOctetStream,
}

pub open spec fn content_type_name(c: ContentType) -> Seq<char> {
    match c {
        ContentType::ApplicationJson => "application/json"@,
        ContentType::ApplicationOctetStream => "application/octet-stream"@,
    }
}

impl ContentType {
    /// The media type as written in a `Content-Type` header.
    pub fn name(&self) -> (r: &'static str)
        ensures
            r@ == content_type_name(*self),
    {
        match self {
            ContentType::ApplicationJson => "application/json",
            ContentType::ApplicationOctetStream => "application/octet-stream",
        }
    }
}

/// Credentials and location of one storage zone. The write password is
/// optional: without it, write operations are refused.
#[derive(Debug, Clone)]
pub struct BunnyCDNClientConfig {
    pub api_key: String,
    pub read_password: String,
    pub write_password: Option<String>,
    pub endpoint: StorageEndpoint,
    pub storage_zone_name: String,
}

/// The message of the first check that a configuration fails, if any.
pub open spec fn config_problem(c: BunnyCDNClientConfig) -> Option<Seq<char>> {
    if c.api_key@.len() == 0 {
        Some("Invalid API Key"@)
    } else if c.read_password@.len() == 0 {
        Some("Invalid Read Password Key"@)
    } else if url_of(c.endpoint).len() == 0 {
        Some("Invalid Endpoint"@)
    } else if c.storage_zone_name@.len() == 0 {
        Some("Invalid Storage Zone Name"@)
    } else {
        None
    }
}

/// A configuration whose API key, read password and storage zone name are
/// all present passes `valid`, whatever its endpoint, so `BunnyCDNClient::new`
/// does not refuse it; one that lacks any of them is refused with a message
/// that names the first missing part.
pub proof fn lemma_config_validity(c: BunnyCDNClientConfig)
    ensures
        (c.api_key@.len() > 0 && c.read_password@.len() > 0 && c.storage_zone_name@.len() > 0)
            <==> config_problem(c) is None,
        c.api_key@.len() == 0 ==> config_problem(c) == Some("Invalid API Key"@),
        c.api_key@.len() > 0 && c.read_password@.len() == 0 ==> config_problem(c) == Some(
            "Invalid Read Password Key"@,
        ),
        c.api_key@.len() > 0 && c.read_password@.len() > 0 && c.storage_zone_name@.len() == 0
            ==> config_problem(c) == Some("Invalid Storage Zone Name"@),
{
    lemma_hostname_shape(c.endpoint);
}

/// The write password of a configuration that was resolved from settings:
/// the value found, or empty where none was.
pub open spec fn resolved_write_password(value: Option<String>) -> Seq<char> {
    match value {
        Some(v) => v@,
        None => Seq::<char>::empty(),
    }
}

impl BunnyCDNClientConfig {
    /// Checks that each required part is present: the API key, the read
    /// password, the endpoint and the storage zone name, in that order. The
    /// error names the first part that is missing.
    pub fn valid(&self) -> (r: Result<(), Error>)
        ensures
            match r {
                Ok(_) => config_problem(*self) is None,
                Err(e) => config_problem(*self) == Some(e.message@),
            },
    {
        if self.api_key.as_str().is_empty() {
            return Err(Error::new_from_message("Invalid API Key"));
        }
        if self.read_password.as_str().is_empty() {
            return Err(Error::new_from_message("Invalid Read Password Key"));
        }
        if self.endpoint.url().as_str().is_empty() {
            return Err(Error::new_from_message("Invalid Endpoint"));
        }
        if self.storage_zone_name.as_str().is_empty() {
            return Err(Error::new_from_message("Invalid Storage Zone Name"));
        }
        Ok(())
    }

    /// Resolves a configuration from the values found under the setting
    /// names (`None` where a setting was not found). The API key, the read
    /// password, the endpoint name and the storage zone name are required,
    /// trimmed and must not be blank; the endpoint name must be a known
    /// hostname. The write password is optional and kept as found.
    pub fn from_settings(
        api_key: Option<String>,
        read_password: Option<String>,
        write_password: Option<String>,
        endpoint_name: Option<String>,
        storage_zone_name: Option<String>,
    ) -> (r: Result<BunnyCDNClientConfig, Error>)
        ensures
            match r {
                Ok(c) => {
                    &&& non_empty_setting(api_key) == Some(c.api_key@)
                    &&& non_empty_setting(read_password) == Some(c.read_password@)
                    &&& non_empty_setting(endpoint_name) matches Some(n) && endpoint_named(n)
                        == Some(c.endpoint)
                    &&& non_empty_setting(storage_zone_name) == Some(c.storage_zone_name@)
                    &&& c.write_password matches Some(w) && w@ == resolved_write_password(
                        write_password,
                    )
                },
                Err(e) => {
                    ||| non_empty_setting(api_key) is None && e.message@ == setting_error_text(
                        ENV_BUNNY_STORAGE_API_KEY_NAME@,
                        api_key,
                    )
                    ||| non_empty_setting(api_key) is Some && non_empty_setting(read_password) is None
                        && e.message@ == setting_error_text(
                        ENV_BUNNY_STORAGE_READ_PASSWORD_NAME@,
                        read_password,
                    )
                    ||| non_empty_setting(api_key) is Some && non_empty_setting(read_password) is Some
                        && non_empty_setting(endpoint_name) is None && e.message@
                        == setting_error_text(ENV_BUNNY_STORAGE_ENDPOINT_NAME_NAME@, endpoint_name)
                    ||| non_empty_setting(api_key) is Some && non_empty_setting(read_password) is Some
                        && (non_empty_setting(endpoint_name) matches Some(n) && endpoint_named(n) is None)
                    ||| non_empty_setting(api_key) is Some && non_empty_setting(read_password) is Some
                        && (non_empty_setting(endpoint_name) matches Some(n) && endpoint_named(n) is Some)
                        && non_empty_setting(storage_zone_name) is None && e.message@
                        == setting_error_text(ENV_BUNNY_STORAGE_ZONE_NAME_NAME@, storage_zone_name)
                },
            },
    {
        let api_key = get_non_empty_string_from_env(ENV_BUNNY_STORAGE_API_KEY_NAME, api_key)?;
        let read_password = get_non_empty_string_from_env(
            ENV_BUNNY_STORAGE_READ_PASSWORD_NAME,
            read_password,
        )?;
        let endpoint_name = get_non_empty_string_from_env(
            ENV_BUNNY_STORAGE_ENDPOINT_NAME_NAME,
            endpoint_name,
        )?;
        let endpoint = StorageEndpoint::from_str(endpoint_name.as_str())?;
        let storage_zone_name = get_non_empty_string_from_env(
            ENV_BUNNY_STORAGE_ZONE_NAME_NAME,
            storage_zone_name,
        )?;
        let write_password = match write_password {
            Some(w) => w,
            None => String::new(),
        };
        Ok(
            BunnyCDNClientConfig {
                api_key,
                read_password,
                write_password: Some(write_password),
                endpoint,
                storage_zone_name,
            },
        )
    }
}

#[verifier::external_type_specification]
#[verifier::external_body]
pub struct ExHeaderValue(reqwest::header::HeaderValue);

#[verifier::external_type_specification]
#[verifier::external_body]
#[verifier::reject_recursive_types(T)]
pub struct ExHeaderMap<T>(reqwest::header::HeaderMap<T>);

/// The HTTP methods that requests use.
#[derive(Debug, Clone, Copy, PartialEq, Eq, Structural)]
pub enum HttpMethod {
    Get,
    Post,
    Put,
    Delete,
}

/// Headers sent with a request besides the access key.
#[derive(Debug)]
pub struct BunnyCDNDataOptions {
    pub headers: Option<Vec<(String, String)>>,
}

/// Name-value pairs as views.
pub open spec fn pairs_view(v: Seq<(String, String)>) -> Seq<(Seq<char>, Seq<char>)> {
    v.map_values(|p: (String, String)| (p.0@, p.1@))
}

/// The header that declares a content type.
pub open spec fn content_type_header(c: ContentType) -> Seq<(Seq<char>, Seq<char>)> {
    seq![("Content-Type"@, content_type_name(c))]
}

/// The headers that options add.
pub open spec fn option_headers(o: Option<BunnyCDNDataOptions>) -> Seq<(Seq<char>, Seq<char>)> {
    match o {
        Some(options) => match options.headers {
            Some(h) => pairs_view(h@),
            None => Seq::empty(),
        },
        None => Seq::empty(),
    }
}

/// An empty list of name-value pairs.
pub fn no_pairs() -> (r: Vec<(String, String)>)
    ensures
        pairs_view(r@) == Seq::<(Seq<char>, Seq<char>)>::empty(),
{
    let r: Vec<(String, String)> = Vec::new();
    assert(pairs_view(r@) =~= Seq::<(Seq<char>, Seq<char>)>::empty());
    r
}

/// Appends a name-value pair.
pub fn push_pair(pairs: &mut Vec<(String, String)>, name: &str, value: String)
    ensures
        pairs_view(final(pairs)@) == pairs_view(old(pairs)@).push((name@, value@)),
{
    let ghost before = pairs@;
    pairs.push((String::from_str(name), value));
    assert(pairs_view(pairs@) =~= pairs_view(before).push((name@, value@)));
}

impl BunnyCDNDataOptions {
    /// Options that set the `Content-Type` header alone.
    pub fn with_content_type(content_type: ContentType) -> (r: BunnyCDNDataOptions)
        ensures
            option_headers(Some(r)) == content_type_header(content_type),
    {
        let mut headers: Vec<(String, String)> = Vec::new();
        push_pair(&mut headers, CONTENT_TYPE_HEADER_NAME, String::from_str(content_type.name()));
        assert(pairs_view(headers@) =~= content_type_header(content_type));
        BunnyCDNDataOptions { headers: Some(headers) }
    }
}

/// A request ready to be sent: the access key goes in the `AccessKey`
/// header, the query pairs after the URL, and the options' headers and the
/// body as given.
#[derive(Debug)]
pub struct BunnyCDNRequest {
    pub method: HttpMethod,
    pub url: String,
    pub access_key: String,
    pub query: Vec<(String, String)>,
    pub options: Option<BunnyCDNDataOptions>,
    pub body: Vec<u8>,
}

/// What a request holds, as views.
pub struct RequestView {
    pub method: HttpMethod,
    pub url: Seq<char>,
    pub access_key: Seq<char>,
    pub query: Seq<(Seq<char>, Seq<char>)>,
    pub headers: Seq<(Seq<char>, Seq<char>)>,
    pub body: Seq<u8>,
}

impl View for BunnyCDNRequest {
    type V = RequestView;

    open spec fn view(&self) -> RequestView {
        RequestView {
            method: self.method,
            url: self.url@,
            access_key: self.access_key@,
            query: pairs_view(self.query@),
            headers: option_headers(self.options),
            body: self.body@,
        }
    }
}

/// The pair `name`, `s` where a string is given.
pub open spec fn opt_str_pair(name: Seq<char>, v: Option<String>) -> Seq<(Seq<char>, Seq<char>)> {
    match v {
        Some(s) => seq![(name, s@)],
        None => Seq::empty(),
    }
}

/// The pair `name`, `"true"` or `"false"` where a boolean is given.
pub open spec fn opt_bool_pair(name: Seq<char>, v: Option<bool>) -> Seq<(Seq<char>, Seq<char>)> {
    match v {
        Some(b) => seq![(name, bool_seq(b))],
        None => Seq::empty(),
    }
}

/// The pair `name`, decimal text where an integer is given.
pub open spec fn opt_int_pair(name: Seq<char>, v: Option<i64>) -> Seq<(Seq<char>, Seq<char>)> {
    match v {
        Some(n) => seq![(name, int_text(n as int))],
        None => Seq::empty(),
    }
}

/// Appends the pair `name`, `"true"` or `"false"` where a boolean is given.
pub fn push_opt_bool(pairs: &mut Vec<(String, String)>, name: &str, v: Option<bool>)
    ensures
        pairs_view(final(pairs)@) == pairs_view(old(pairs)@) + opt_bool_pair(name@, v),
{
    let ghost before = pairs_view(pairs@);
    if let Some(b) = v {
        push_pair(pairs, name, bool_text(b));
    }
    assert(pairs_view(pairs@) =~= before + opt_bool_pair(name@, v));
}

/// Appends the pair `name`, decimal text where an integer is given.
pub fn push_opt_int(pairs: &mut Vec<(String, String)>, name: &str, v: Option<i64>)
    ensures
        pairs_view(final(pairs)@) == pairs_view(old(pairs)@) + opt_int_pair(name@, v),
{
    let ghost before = pairs_view(pairs@);
    if let Some(n) = v {
        push_pair(pairs, name, i64_text(n));
    }
    assert(pairs_view(pairs@) =~= before + opt_int_pair(name@, v));
}

/// Appends the pair `name`, `s` where a string is given.
pub fn push_opt_str(pairs: &mut Vec<(String, String)>, name: &str, v: &Option<String>)
    ensures
        pairs_view(final(pairs)@) == pairs_view(old(pairs)@) + opt_str_pair(name@, *v),
{
    let ghost before = pairs_view(pairs@);
    if let Some(s) = v {
        push_pair(pairs, name, s.clone());
    }
    assert(pairs_view(pairs@) =~= before + opt_str_pair(name@, *v));
}

/// A GET of the management API with the API key and the given query.
pub open spec fn api_get(c: BunnyCDNClientConfig, path: Seq<char>, query: Seq<(Seq<char>, Seq<char>)>) -> RequestView {
    RequestView {
        method: HttpMethod::Get,
        url: api_root() + path,
        access_key: c.api_key@,
        query,
        headers: Seq::empty(),
        body: Seq::empty(),
    }
}

impl BunnyCDNClient {
    /// A GET of the management API at `path`, with the API key.
    pub fn api_get_request(&self, path: &str, query: Vec<(String, String)>) -> (r: BunnyCDNRequest)
        ensures
            r@ == api_get(self.config, path@, pairs_view(query@)),
    {
        BunnyCDNRequest {
            method: HttpMethod::Get,
            url: concat2(BUNNY_STORAGE_API_ROOT, path),
            access_key: self.config.api_key.clone(),
            query,
            options: None,
            body: Vec::new(),
        }
    }
}

/// Page selection for list endpoints.
#[derive(Debug)]
pub struct BunnyCDNPageParameters {
    pub page: Option<i32>,
    pub per_page: Option<i32>,
}

/// The query pairs of a page selection: `page` and `perPage`, each where set.
pub open spec fn page_pairs(p: Option<&BunnyCDNPageParameters>) -> Seq<(Seq<char>, Seq<char>)> {
    match p {
        Some(pp) => (match pp.page {
            Some(n) => seq![("page"@, int_text(n as int))],
            None => Seq::empty(),
        }) + (match pp.per_page {
            Some(n) => seq![("perPage"@, int_text(n as int))],
            None => Seq::empty(),
        }),
        None => Seq::empty(),
    }
}

/// Appends the query pairs of a page selection.
pub fn add_page_parameters(
    params: &mut Vec<(String, String)>,
    page_params_opt: Option<&BunnyCDNPageParameters>,
)
    ensures
        pairs_view(final(params)@) == pairs_view(old(params)@) + page_pairs(page_params_opt),
{
    let ghost before = pairs_view(params@);
    if let Some(page_params) = page_params_opt {
        if let Some(page) = page_params.page {
            push_pair(params, "page", i64_text(page as i64));
        }
        if let Some(per_page) = page_params.per_page {
            push_pair(params, "perPage", i64_text(per_page as i64));
        }
    }
    assert(pairs_view(params@) =~= before + page_pairs(page_params_opt));
}

/// An optional string as a view.
pub open spec fn opt_view(o: Option<String>) -> Option<Seq<char>> {
    match o {
        Some(s) => Some(s@),
        None => None,
    }
}

/// The parts of an error: key, field and message.
pub open spec fn error_view(e: Error) -> (Seq<char>, Seq<char>, Seq<char>) {
    (e.error_key@, e.field@, e.message@)
}

/// The error that three members describe: all three are strings and one at
/// least is not empty. Bodies of other shapes that happen to share a name
/// with one of the members are not taken for errors.
pub open spec fn error_members(
    key: Option<Seq<char>>,
    field: Option<Seq<char>>,
    message: Option<Seq<char>>,
) -> Option<(Seq<char>, Seq<char>, Seq<char>)> {
    match (key, field, message) {
        (Some(k), Some(f), Some(m)) => if k.len() > 0 || f.len() > 0 || m.len() > 0 {
            Some((k, f, m))
        } else {
            None
        },
        _ => None,
    }
}

/// The error that a response body holds, if it has the error shape: an
/// object with the string members `ErrorKey`, `Field` and `Message`.
pub open spec fn error_shape(body: Seq<char>) -> Option<(Seq<char>, Seq<char>, Seq<char>)> {
    error_members(
        json_string_member(body, "ErrorKey"@),
        json_string_member(body, "Field"@),
        json_string_member(body, "Message"@),
    )
}

/// What a call comes to: a status that is not a success fails with the
/// transport's message alone; a successful status whose body has the error
/// shape fails with that error; any other body is the result.
pub open spec fn response_outcome(status_ok: bool, status_message: Seq<char>, body: Seq<char>) -> Result<
    Seq<char>,
    (Seq<char>, Seq<char>, Seq<char>),
> {
    if !status_ok {
        Err((Seq::empty(), Seq::empty(), status_message))
    } else {
        match error_shape(body) {
            Some(e) => Err(e),
            None => Ok(body),
        }
    }
}

/// A body with the error shape fails the call with that very error whenever
/// the status is a success, whatever the request was: `finish_get`,
/// `finish_post` and `finish_unit`, through which every response passes,
/// all come to `response_outcome`.
pub proof fn lemma_error_body_fails_call(status_message: Seq<char>, body: Seq<char>)
    requires
        error_shape(body) is Some,
    ensures
        response_outcome(true, status_message, body) == Err::<
            Seq<char>,
            (Seq<char>, Seq<char>, Seq<char>),
        >(error_shape(body)->0),
{
}

/// The error described by three members, as `error_members` states.
pub fn error_from_members(key: Option<String>, field: Option<String>, message: Option<String>) -> (r:
    Option<Error>)
    ensures
        match r {
            Some(e) => error_members(opt_view(key), opt_view(field), opt_view(message)) == Some(
                error_view(e),
            ),
            None => error_members(opt_view(key), opt_view(field), opt_view(message)) is None,
        },
{
    match (key, field, message) {
        (Some(k), Some(f), Some(m)) => {
            if k.as_str().is_empty() && f.as_str().is_empty() && m.as_str().is_empty() {
                None
            } else {
                Some(Error { error_key: k, field: f, message: m })
            }
        },
        _ => None,
    }
}

/// Fails with the error that the body holds, where it has the error shape.
pub fn attempt_parse_request_error(response_content: &str) -> (r: Result<(), Error>)
    ensures
        match r {
            Ok(_) => error_shape(response_content@) is None,
            Err(e) => error_shape(response_content@) == Some(error_view(e)),
        },
{
    let key = string_member(response_content, "ErrorKey");
    let field = string_member(response_content, "Field");
    let message = string_member(response_content, "Message");
    match error_from_members(key, field, message) {
        Some(e) => Err(e),
        None => Ok(()),
    }
}

/// Classifies a response by its status and body, as `response_outcome` states.
pub fn classify_response(status_ok: bool, status_message: &str, body: String) -> (r: Result<
    String,
    Error,
>)
    ensures
        match r {
            Ok(b) => response_outcome(status_ok, status_message@, body@) == Ok::<
                Seq<char>,
                (Seq<char>, Seq<char>, Seq<char>),
            >(b@),
            Err(e) => response_outcome(status_ok, status_message@, body@) == Err::<
                Seq<char>,
                (Seq<char>, Seq<char>, Seq<char>),
            >(error_view(e)),
        },
{
    if !status_ok {
        return Err(Error::new_from_message(status_message));
    }
    attempt_parse_request_error(body.as_str())?;
    Ok(body)
}

/// The elements of a list response whose body is a JSON array.
pub fn list_elements(body: &str) -> (r: Result<Vec<serde_json::Value>, Error>)
    ensures
        match r {
            Ok(v) => json_array_len(body@) == Some(v@.len()),
            Err(e) => json_array_len(body@) is None && e.message@ == "Invalid Files Array"@,
        },
{
    match array_elements(body) {
        Some(elements) => Ok(elements),
        None => Err(Error::new_from_message("Invalid Files Array")),
    }
}

/// The position of the first `None`, or the length where there is none.
pub open spec fn first_none<T>(s: Seq<Option<T>>) -> nat
    decreases s.len(),
{
    if s.len() == 0 {
        0
    } else if s[0] is None {
        0
    } else {
        1 + first_none(s.drop_first())
    }
}

/// The elements of a list response that decoded before the first one that
/// did not: a list is read as far as its elements decode, and neither the
/// element that failed nor any after it is kept.
pub fn best_effort_items<T>(decoded: Vec<Option<T>>) -> (r: Vec<T>)
    ensures
        r@.len() == first_none(decoded@),
        r@.len() <= decoded@.len(),
        forall|i: int| 0 <= i < r@.len() ==> decoded@[i] == Some(#[trigger] r@[i]),
        r@.len() < decoded@.len() ==> decoded@[r@.len() as int] is None,
{
    let ghost all = decoded@;
    let mut rest = decoded;
    let mut items: Vec<T> = Vec::new();
    assert(rest@ =~= all.subrange(0, all.len() as int));
    assert(rest@ =~= all);
    loop
        invariant_except_break
            items@.len() + rest@.len() == all.len(),
            rest@ == all.subrange(items@.len() as int, all.len() as int),
            first_none(all) == items@.len() + first_none(rest@),
        invariant
            forall|i: int| 0 <= i < items@.len() ==> all[i] == Some(#[trigger] items@[i]),
        ensures
            items@.len() == first_none(all),
            items@.len() <= all.len(),
            forall|i: int| 0 <= i < items@.len() ==> all[i] == Some(#[trigger] items@[i]),
            items@.len() < all.len() ==> all[items@.len() as int] is None,
        decreases rest@.len(),
    {
        if rest.len() == 0 {
            break;
        }
        let ghost k = items@.len();
        let ghost before = rest@;
        let first = rest.remove(0);
        assert(rest@ =~= before.drop_first());
        assert(first == all[k as int]);
        match first {
            Some(x) => {
                items.push(x);
                assert(rest@ =~= all.subrange(items@.len() as int, all.len() as int));
            },
            None => {
                break;
            },
        }
    }
    items
}

/// The pagination envelope of a list response: the number of items, the
/// current page, the total number of items and whether more follow.
#[derive(Debug)]
pub struct BunnyCDNPageMeta {
    pub items: Vec<serde_json::Value>,
    pub current_page: u32,
    pub total_items: u32,
    pub has_more_items: bool,
}

/// The envelope that a body holds: `Items` an array, `CurrentPage` and
/// `TotalItems` integers that fit in a `u32`, `HasMoreItems` a boolean.
pub open spec fn page_envelope(body: Seq<char>) -> Option<(nat, u32, u32, bool)> {
    match (
        json_array_member_len(body, "Items"@),
        json_u64_member(body, "CurrentPage"@),
        json_u64_member(body, "TotalItems"@),
        json_bool_member(body, "HasMoreItems"@),
    ) {
        (Some(n), Some(c), Some(t), Some(m)) => if c <= u32::MAX && t <= u32::MAX {
            Some((n, c as u32, t as u32, m))
        } else {
            None
        },
        _ => None,
    }
}

/// Whether `m` is the envelope of `body`, or the empty one where `body` holds none.
pub open spec fn page_meta_of(m: BunnyCDNPageMeta, body: Seq<char>) -> bool {
    match page_envelope(body) {
        Some((n, c, t, more)) => m.items@.len() == n && m.current_page == c && m.total_items == t
            && m.has_more_items == more,
        None => m.items@.len() == 0 && m.current_page == 0 && m.total_items == 0
            && !m.has_more_items,
    }
}

impl BunnyCDNPageMeta {
    /// The empty envelope, which stands for none.
    pub fn new() -> (r: BunnyCDNPageMeta)
        ensures
            r.items@.len() == 0,
            r.current_page == 0,
            r.total_items == 0,
            !r.has_more_items,
    {
        BunnyCDNPageMeta { items: Vec::new(), current_page: 0, total_items: 0, has_more_items: false }
    }

    /// Whether an envelope was present: its current page is above zero.
    pub fn valid(&self) -> (r: bool)
        ensures
            r == (self.current_page > 0),
    {
        self.current_page > 0
    }

    /// The envelope of a body, or the empty one where the body holds none.
    pub fn from_body(body: &str) -> (r: BunnyCDNPageMeta)
        ensures
            page_meta_of(r, body@),
    {
        let items = array_member(body, "Items");
        let current_page = u64_member(body, "CurrentPage");
        let total_items = u64_member(body, "TotalItems");
        let has_more_items = bool_member(body, "HasMoreItems");
        match (items, current_page, total_items, has_more_items) {
            (Some(items), Some(c), Some(t), Some(more)) => {
                if c <= u32::MAX as u64 && t <= u32::MAX as u64 {
                    BunnyCDNPageMeta {
                        items,
                        current_page: c as u32,
                        total_items: t as u32,
                        has_more_items: more,
                    }
                } else {
                    BunnyCDNPageMeta::new()
                }
            },
            _ => BunnyCDNPageMeta::new(),
        }
    }
}

/// The result of a GET: the body, the response headers and the pagination
/// envelope, where the body holds one.
pub struct BunnyCDNGetResponse {
    pub body: String,
    pub headers: reqwest::header::HeaderMap,
    pub page_meta: BunnyCDNPageMeta,
}

/// The result of a POST: its body.
pub struct BunnyCDNPostResponse {
    pub body: String,
}

/// Completes a GET from what came back.
pub fn finish_get(
    status_ok: bool,
    status_message: &str,
    body: String,
    headers: reqwest::header::HeaderMap,
) -> (r: Result<BunnyCDNGetResponse, Error>)
    ensures
        match r {
            Ok(g) => response_outcome(status_ok, status_message@, body@) == Ok::<
                Seq<char>,
                (Seq<char>, Seq<char>, Seq<char>),
            >(g.body@) && page_meta_of(g.page_meta, body@),
            Err(e) => response_outcome(status_ok, status_message@, body@) == Err::<
                Seq<char>,
                (Seq<char>, Seq<char>, Seq<char>),
            >(error_view(e)),
        },
{
    let body = classify_response(status_ok, status_message, body)?;
    let page_meta = BunnyCDNPageMeta::from_body(body.as_str());
    Ok(BunnyCDNGetResponse { body, headers, page_meta })
}

/// Completes a POST from what came back.
pub fn finish_post(status_ok: bool, status_message: &str, body: String) -> (r: Result<
    BunnyCDNPostResponse,
    Error,
>)
    ensures
        match r {
            Ok(p) => response_outcome(status_ok, status_message@, body@) == Ok::<
                Seq<char>,
                (Seq<char>, Seq<char>, Seq<char>),
            >(p.body@),
            Err(e) => response_outcome(status_ok, status_message@, body@) == Err::<
                Seq<char>,
                (Seq<char>, Seq<char>, Seq<char>),
            >(error_view(e)),
        },
{
    let body = classify_response(status_ok, status_message, body)?;
    Ok(BunnyCDNPostResponse { body })
}

/// Completes a PUT or a DELETE, whose bodies carry no result.
pub fn finish_unit(status_ok: bool, status_message: &str, body: String) -> (r: Result<(), Error>)
    ensures
        match r {
            Ok(_) => response_outcome(status_ok, status_message@, body@) is Ok,
            Err(e) => response_outcome(status_ok, status_message@, body@) == Err::<
                Seq<char>,
                (Seq<char>, Seq<char>, Seq<char>),
            >(error_view(e)),
        },
{
    classify_response(status_ok, status_message, body)?;
    Ok(())
}

/// A client for one storage zone: its configuration and one shared HTTP
/// connection pool. It keeps no other state between calls.
pub struct BunnyCDNClient {
    pub config: BunnyCDNClientConfig,
    pub http_client: reqwest::Client,
}

impl BunnyCDNClient {
    /// A client over `config`, which must pass `valid`. A valid
    /// configuration gives a client unless the HTTP connection pool cannot
    /// be set up, and then the error carries the transport's message.
    pub fn new(config: BunnyCDNClientConfig) -> (r: Result<BunnyCDNClient, Error>)
        ensures
            match r {
                Ok(c) => config_problem(config) is None && c.config == config,
                Err(e) => match config_problem(config) {
                    Some(m) => e.message@ == m,
                    None => e.error_key@.len() == 0 && e.field@.len() == 0,
                },
            },
    {
        config.valid()?;
        match reqwest::Client::builder().build() {
            Ok(http_client) => Ok(BunnyCDNClient { config, http_client }),
            Err(build_error) => Err(Error::new_from_message(build_error.to_string().as_str())),
        }
    }
}

} // verus!
