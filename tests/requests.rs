use bunnystorage_rs::client::files::{
    evaluate_local_target_filepath, evaluate_remote_target_filepath, extension, file_name,
    prepare_remote_filepath,
};
use bunnystorage_rs::client::pullzones::PullZonesParameters;
use bunnystorage_rs::client::statistics::{prepare_statistics_params, StatisticsParameters};
use bunnystorage_rs::client::storagezones::{
    availability_from_body, find_storage_zone_index, storage_zone_search_parameters,
    AddStorageZoneCommonParameters, AddStorageZoneParameters, StorageZoneStatisticsParameters,
};
use bunnystorage_rs::client::{
    BunnyCDNClient, BunnyCDNClientConfig, BunnyCDNPageParameters, BunnyCDNRequest, HttpMethod,
};
use bunnystorage_rs::models::storageendpoint::StorageEndpoint;
use bunnystorage_rs::models::storagezone::StorageZoneTier;

fn client_with_write(write_password: Option<&str>) -> BunnyCDNClient {
    BunnyCDNClient::new(BunnyCDNClientConfig {
        api_key: "api".to_string(),
        read_password: "read".to_string(),
        write_password: write_password.map(|w| w.to_string()),
        endpoint: StorageEndpoint::London,
        storage_zone_name: "zone".to_string(),
    })
    .unwrap()
}

fn client() -> BunnyCDNClient {
    client_with_write(Some("write"))
}

fn query(r: &BunnyCDNRequest) -> Vec<(&str, &str)> {
    r.query.iter().map(|(k, v)| (k.as_str(), v.as_str())).collect()
}

fn headers(r: &BunnyCDNRequest) -> Vec<(String, String)> {
    match &r.options {
        Some(o) => o.headers.clone().unwrap_or_default(),
        None => Vec::new(),
    }
}

#[test]
fn upload_key_derivation() {
    let local = "./a/b/file.json";
    assert_eq!(evaluate_remote_target_filepath(local, None).unwrap(), "a/b/file.json");
    assert_eq!(evaluate_remote_target_filepath(local, Some("/x/y")).unwrap(), "x/y/file.json");
    assert!(evaluate_remote_target_filepath(local, Some("/x/y/file.txt")).is_err());
    assert_eq!(evaluate_remote_target_filepath(local, Some("/x/y/renamed.json")).unwrap(), "x/y/renamed.json");
    assert_eq!(evaluate_remote_target_filepath(local, Some(" /x/y ")).unwrap(), "x/y/file.json");
}

#[test]
fn upload_targets_of_an_image() {
    let image = "./tests/files/source/Test_Image.jpg";
    assert_eq!(evaluate_remote_target_filepath(image, None).unwrap(), "tests/files/source/Test_Image.jpg");
    let e = evaluate_remote_target_filepath(image, Some("/tests/files/source/Test_Image.jpeg")).unwrap_err();
    assert_eq!(e.message, "Invalid Remote File Extension - Expected jpg, Received jpeg");
    assert_eq!(evaluate_remote_target_filepath(image, Some("/Test_Image.jpg")).unwrap(), "Test_Image.jpg");
    assert_eq!(evaluate_remote_target_filepath(image, Some("/NewFolder")).unwrap(), "NewFolder/Test_Image.jpg");
    assert_eq!(
        evaluate_remote_target_filepath("./tests/files/source/Test_NoExtension", None).unwrap(),
        "tests/files/source/Test_NoExtension"
    );
    assert!(evaluate_remote_target_filepath("   ", None).is_err());
    assert_eq!(evaluate_remote_target_filepath(image, Some("  ")).unwrap(), "tests/files/source/Test_Image.jpg");
}

#[test]
fn download_targets() {
    let remote = "./tests/files/source/Test_Image.jpg";
    assert_eq!(evaluate_local_target_filepath(remote, Some("./tests/files/target")).unwrap(), "./tests/files/target/Test_Image.jpg");
    assert_eq!(
        evaluate_local_target_filepath(remote, Some("./tests/files/target/Test_Image_New_File.jpg")).unwrap(),
        "./tests/files/target/Test_Image_New_File.jpg"
    );
    assert_eq!(evaluate_local_target_filepath(" /a/b.txt ", None).unwrap(), "/a/b.txt");
}

#[test]
fn file_names_and_extensions() {
    assert_eq!(file_name("a/b/file.json"), "file.json");
    assert_eq!(file_name("a/b/"), "b");
    assert_eq!(file_name("/"), "");
    assert_eq!(file_name("a/.."), "");
    assert_eq!(extension("a/b.tar.gz"), "gz");
    assert_eq!(extension(".bashrc"), "");
    assert_eq!(extension("dir.d/file"), "");
    assert_eq!(prepare_remote_filepath(" ./x ").unwrap(), "x");
    assert_eq!(prepare_remote_filepath("/x/y").unwrap(), "x/y");
}

#[test]
fn delete_checks_the_trailing_separator() {
    let c = client();
    assert!(c.delete_file_request("/a/b/").is_err());
    assert!(c.delete_directory_request("/a/b").is_err());
    let r = c.delete_directory_request("/a/b/").unwrap();
    assert_eq!(r.method, HttpMethod::Delete);
    assert_eq!(r.url, "https://uk.storage.bunnycdn.com/zone//a/b/");
    assert_eq!(r.access_key, "write");
    assert!(c.delete_file_request(" /a/b/ ").is_err());
    assert_eq!(c.delete_directory_request("/a/b/  ").unwrap().url, "https://uk.storage.bunnycdn.com/zone//a/b/");
    let r = c.delete_file_request("/a/b.txt").unwrap();
    assert_eq!(r.url, "https://uk.storage.bunnycdn.com/zone//a/b.txt");
}

#[test]
fn writes_need_a_write_password() {
    let e = client_with_write(None).delete_directory_request("/a/").unwrap_err();
    assert_eq!(e.message, "No Write Password");
    let e = client_with_write(Some("")).upload_file_request("a.txt", None, vec![1]).unwrap_err();
    assert_eq!(e.message, "Invalid Write Password");
}

#[test]
fn upload_request() {
    let r = client().upload_file_request("./a/b/file.json", Some("/x/y"), vec![1, 2, 3]).unwrap();
    assert_eq!(r.method, HttpMethod::Put);
    assert_eq!(r.url, "https://uk.storage.bunnycdn.com/zone/x/y/file.json");
    assert_eq!(r.access_key, "write");
    assert_eq!(r.body, vec![1, 2, 3]);
    assert_eq!(headers(&r), vec![("Content-Type".to_string(), "application/octet-stream".to_string())]);
}

#[test]
fn download_and_listing_requests() {
    let c = client();
    let r = c.download_file_request("./tests/a.jpg").unwrap();
    assert_eq!(r.method, HttpMethod::Get);
    assert_eq!(r.url, "https://uk.storage.bunnycdn.com/zone/tests/a.jpg");
    assert_eq!(r.access_key, "read");
    assert!(c.download_file_request(" ").is_err());
    assert_eq!(c.get_files_request("/Test").url, "https://uk.storage.bunnycdn.com/zone/Test/");
    assert_eq!(c.get_files_request(" a/b/ ").url, "https://uk.storage.bunnycdn.com/zone/a/b/");
    assert_eq!(c.get_files_request("").url, "https://uk.storage.bunnycdn.com/zone/");
    assert_eq!(c.get_files_request("/").url, "https://uk.storage.bunnycdn.com/zone/");
}

#[test]
fn regions_request_is_repeatable() {
    let c = client();
    let a = c.get_regions_request();
    let b = c.get_regions_request();
    assert_eq!(a.url, "https://api.bunny.net/region");
    assert_eq!(a.url, b.url);
    assert_eq!(a.access_key, b.access_key);
    assert_eq!(a.access_key, "api");
}

#[test]
fn list_requests_carry_their_query() {
    let c = client();
    let page = BunnyCDNPageParameters { page: Some(2), per_page: Some(-5) };
    let r = c.get_api_keys_request(Some(&page));
    assert_eq!(r.url, "https://api.bunny.net/apikey");
    assert_eq!(query(&r), vec![("page", "2"), ("perPage", "-5")]);
    let filters = PullZonesParameters { search: Some("cdn".to_string()), include_certificate: Some(false) };
    let r = c.get_pull_zones_request(Some(&filters), None);
    assert_eq!(query(&r), vec![("search", "cdn"), ("includeCertificate", "false")]);
    let r = c.get_pull_zone_request(-42, Some(true));
    assert_eq!(r.url, "https://api.bunny.net/pullzone/-42");
    assert_eq!(query(&r), vec![("includeCertificate", "true")]);
    let search = storage_zone_search_parameters("Zone", None);
    let r = c.get_storage_zones_request(Some(&search), None);
    assert_eq!(query(&r), vec![("includeDeleted", "true"), ("search", "Zone")]);
    assert_eq!(c.get_storage_zone_request(1234).url, "https://api.bunny.net/storagezone/1234");
    let r = c.delete_storage_zone_request(7);
    assert_eq!(r.method, HttpMethod::Delete);
    assert_eq!(r.url, "https://api.bunny.net/storagezone/7");
}

#[test]
fn statistics_dates_are_written_in_rfc3339() {
    let params = StatisticsParameters {
        date_from: Some(0),
        date_to: Some(1431648000),
        pull_zone: Some(9),
        server_zone_id: None,
        load_errors: Some(true),
        hourly: None,
    };
    let q = prepare_statistics_params(Some(&params)).unwrap();
    let q: Vec<(&str, &str)> = q.iter().map(|(k, v)| (k.as_str(), v.as_str())).collect();
    assert_eq!(
        q,
        vec![
            ("dateFrom", "1970-01-01T00:00:00+00:00"),
            ("dateTo", "2015-05-15T00:00:00+00:00"),
            ("pullZone", "9"),
            ("loadErrors", "true"),
        ]
    );
    assert!(prepare_statistics_params(None).unwrap().is_empty());
    let far = StatisticsParameters { date_from: Some(i64::MAX), date_to: None, pull_zone: None, server_zone_id: None, load_errors: None, hourly: None };
    assert!(client().get_statistics_request(Some(&far)).is_err());
    let range = StorageZoneStatisticsParameters { date_from: None, date_to: Some(86400) };
    let r = client().get_storage_zone_statistics_request(5, Some(&range)).unwrap();
    assert_eq!(r.url, "https://api.bunny.net/storagezone/5/statistics");
    assert_eq!(query(&r), vec![("dateTo", "1970-01-02T00:00:00+00:00")]);
}

#[test]
fn storage_zone_bodies_are_json() {
    let c = client();
    let r = c.check_storage_zone_availability_request("  my \"zone\" ").unwrap();
    assert_eq!(r.method, HttpMethod::Post);
    assert_eq!(r.url, "https://api.bunny.net/storagezone/checkavailability");
    assert_eq!(String::from_utf8(r.body.clone()).unwrap(), "{\"Name\":\"my \\\"zone\\\"\"}");
    assert_eq!(headers(&r), vec![("Content-Type".to_string(), "application/json".to_string())]);
    assert!(c.check_storage_zone_availability_request(" ").is_err());
    let params = AddStorageZoneParameters {
        name: "AddTestStorageZone".to_string(),
        region: "DE".to_string(),
        zone_tier: StorageZoneTier::Standard,
        common: None,
    };
    let r = c.add_storage_zone_request(&params).unwrap();
    assert_eq!(
        String::from_utf8(r.body).unwrap(),
        "{\"Name\":\"AddTestStorageZone\",\"Region\":\"DE\",\"ZoneTier\":0}"
    );
    let params = AddStorageZoneParameters {
        name: "z".to_string(),
        region: "NY".to_string(),
        zone_tier: StorageZoneTier::Edge,
        common: Some(AddStorageZoneCommonParameters {
            replication_regions: Some(vec!["DE".to_string(), "UK".to_string()]),
            origin_url: Some("https://o".to_string()),
        }),
    };
    let r = c.add_storage_zone_request(&params).unwrap();
    assert_eq!(
        String::from_utf8(r.body).unwrap(),
        "{\"Name\":\"z\",\"Region\":\"NY\",\"ZoneTier\":1,\"Common\":{\"ReplicationRegions\":[\"DE\",\"UK\"],\"OriginUrl\":\"https://o\"}}"
    );
    let blank_region = AddStorageZoneParameters { name: "z".to_string(), region: " ".to_string(), zone_tier: StorageZoneTier::Standard, common: None };
    assert_eq!(c.add_storage_zone_request(&blank_region).unwrap_err().message, "Invalid Storage Zone Region. Must not be empty");
}

#[test]
fn storage_zones_are_found_by_name() {
    let names = vec!["Alpha".to_string(), " BETA ".to_string(), "beta".to_string()];
    assert_eq!(find_storage_zone_index(&names, "beta"), Some(1));
    assert_eq!(find_storage_zone_index(&names, "ALPHA"), Some(0));
    assert_eq!(find_storage_zone_index(&names, "gamma"), None);
    assert_eq!(availability_from_body("{\"Available\":false}").unwrap(), false);
    assert!(availability_from_body("{\"Available\":\"yes\"}").is_err());
}
