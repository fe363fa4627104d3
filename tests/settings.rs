use bunnystorage_rs::client::{BunnyCDNClient, BunnyCDNClientConfig, ContentType};
use bunnystorage_rs::environment::{
    get_i16_from_env, get_i32_from_env, get_i64_from_env, get_i8_from_env,
    get_non_empty_string_from_env, get_u16_from_env, get_u32_from_env, get_u64_from_env,
    get_u8_from_env,
};
use bunnystorage_rs::errors::Error;
use bunnystorage_rs::models::storageendpoint::StorageEndpoint;

fn s(v: &str) -> Option<String> {
    Some(v.to_string())
}

fn config() -> BunnyCDNClientConfig {
    BunnyCDNClientConfig {
        api_key: "key".to_string(),
        read_password: "read".to_string(),
        write_password: Some("write".to_string()),
        endpoint: StorageEndpoint::Falkenstein,
        storage_zone_name: "zone".to_string(),
    }
}

#[test]
fn valid_config_builds_a_client() {
    assert!(config().valid().is_ok());
    let client = BunnyCDNClient::new(config()).unwrap();
    assert_eq!(client.config.storage_zone_name, "zone");
}

#[test]
fn each_missing_field_is_named() {
    let mut c = config();
    c.api_key = String::new();
    assert_eq!(BunnyCDNClient::new(c).err().unwrap().message, "Invalid API Key");
    let mut c = config();
    c.read_password = String::new();
    assert_eq!(BunnyCDNClient::new(c).err().unwrap().message, "Invalid Read Password Key");
    let mut c = config();
    c.storage_zone_name = String::new();
    assert_eq!(BunnyCDNClient::new(c).err().unwrap().message, "Invalid Storage Zone Name");
    let mut c = config();
    c.write_password = None;
    assert!(BunnyCDNClient::new(c).is_ok());
}

#[test]
fn settings_resolve_to_a_config() {
    let c = BunnyCDNClientConfig::from_settings(
        s("  key "),
        s("read"),
        None,
        s("ny.storage.bunnycdn.com"),
        s("zone"),
    )
    .unwrap();
    assert_eq!(c.api_key, "key");
    assert_eq!(c.endpoint, StorageEndpoint::NewYork);
    assert_eq!(c.write_password, Some(String::new()));
    let c = BunnyCDNClientConfig::from_settings(s("k"), s("r"), s(" w "), s("storage.bunnycdn.com"), s("z")).unwrap();
    assert_eq!(c.write_password, Some(" w ".to_string()));
}

#[test]
fn missing_settings_are_named() {
    let e = BunnyCDNClientConfig::from_settings(None, s("r"), None, s("storage.bunnycdn.com"), s("z")).err().unwrap();
    assert_eq!(e.message, "Failed retrieving environment variable. Check BUNNYSTORAGE_API_KEY in .env");
    let e = BunnyCDNClientConfig::from_settings(s("k"), s("   "), None, s("storage.bunnycdn.com"), s("z")).err().unwrap();
    assert_eq!(e.message, "Invalid environment content. Must not be empty. Check BUNNYSTORAGE_READ_PASSWORD");
    let e = BunnyCDNClientConfig::from_settings(s("k"), s("r"), None, None, s("z")).err().unwrap();
    assert!(e.message.contains("BUNNYSTORAGE_ENDPOINT_NAME"));
    let e = BunnyCDNClientConfig::from_settings(s("k"), s("r"), None, s("mars.storage"), s("z")).err().unwrap();
    assert_eq!(e.message, "Invalid Endpoint Name - Provided mars.storage");
    let e = BunnyCDNClientConfig::from_settings(s("k"), s("r"), None, s("storage.bunnycdn.com"), s("")).err().unwrap();
    assert!(e.message.contains("BUNNYSTORAGE_STORAGE_ZONE_NAME"));
}

#[test]
fn content_type_names() {
    assert_eq!(ContentType::ApplicationJson.name(), "application/json");
    assert_eq!(ContentType::ApplicationOctetStream.name(), "application/octet-stream");
}

#[test]
fn non_empty_settings_are_trimmed() {
    assert_eq!(get_non_empty_string_from_env("K", s("\t value \n")).unwrap(), "value");
    assert!(get_non_empty_string_from_env("K", s(" \u{3000} ")).is_err());
    assert!(get_non_empty_string_from_env("K", None).is_err());
}

#[test]
fn integer_settings() {
    assert_eq!(get_i8_from_env("K", s(" 127 ")).unwrap(), 127);
    assert_eq!(get_i8_from_env("K", s("-128")).unwrap(), -128);
    assert_eq!(get_i8_from_env("K", s("128")).err().unwrap().message, "number too large to fit in target type");
    assert_eq!(get_i8_from_env("K", s("-129")).err().unwrap().message, "number too small to fit in target type");
    assert_eq!(get_i16_from_env("K", s("+300")).unwrap(), 300);
    assert_eq!(get_i32_from_env("K", s("-0")).unwrap(), 0);
    assert_eq!(get_i64_from_env("K", s("-9223372036854775808")).unwrap(), i64::MIN);
    assert_eq!(get_u8_from_env("K", s("255")).unwrap(), 255);
    assert_eq!(get_u8_from_env("K", s("-0")).err().unwrap().message, "invalid digit found in string");
    assert_eq!(get_u16_from_env("K", s("12a")).err().unwrap().message, "invalid digit found in string");
    assert_eq!(get_u32_from_env("K", s("+")).err().unwrap().message, "invalid digit found in string");
    assert_eq!(get_u64_from_env("K", s("18446744073709551615")).unwrap(), u64::MAX);
    assert_eq!(
        get_u64_from_env("K", s("99999999999999999999999999")).err().unwrap().message,
        "number too large to fit in target type"
    );
    let e: Error = get_i32_from_env("K", None).err().unwrap();
    assert!(e.message.contains("Check K"));
}

#[test]
fn error_text() {
    let e = Error { error_key: "k".to_string(), field: "f".to_string(), message: "m".to_string() };
    assert_eq!(e.display_text(), "Key: k, , Field: f, Message: m");
    assert_eq!(Error::new_from_message("boom").display_text(), "Message: boom");
    assert_eq!(Error::new_from_message("").display_text(), "Unknown");
}
