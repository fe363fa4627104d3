use bunnystorage_rs::models::storageendpoint::StorageEndpoint;

#[test]
fn test_from_str() {
    let mut test_storage_endpoint_names = Vec::<&str>::new();
    let invalid_storage_endpoint_name = "InvalidStorageEndpoint";
    test_storage_endpoint_names.push("storage.bunnycdn.com");
    test_storage_endpoint_names.push("uk.storage.bunnycdn.com");
    test_storage_endpoint_names.push("ny.storage.bunnycdn.com");
    test_storage_endpoint_names.push("la.storage.bunnycdn.com");
    test_storage_endpoint_names.push("sg.storage.bunnycdn.com");
    test_storage_endpoint_names.push("se.storage.bunnycdn.com");
    test_storage_endpoint_names.push("br.storage.bunnycdn.com");
    test_storage_endpoint_names.push("jh.storage.bunnycdn.com");
    test_storage_endpoint_names.push("syd.storage.bunnycdn.com");
    test_storage_endpoint_names.push("syd.storage.bunnycdn.com");
    test_storage_endpoint_names.push(invalid_storage_endpoint_name);
    for test_storage_endpoint_name in test_storage_endpoint_names.iter() {
        let test_storage_endpoint_name_result = StorageEndpoint::from_str(test_storage_endpoint_name);
        if *test_storage_endpoint_name != invalid_storage_endpoint_name {
            assert!(test_storage_endpoint_name_result.is_ok());
        } else {
            assert!(test_storage_endpoint_name_result.is_err());
        }
    }
}

const ALL: [StorageEndpoint; 9] = [
    StorageEndpoint::Falkenstein,
    StorageEndpoint::London,
    StorageEndpoint::NewYork,
    StorageEndpoint::LosAngeles,
    StorageEndpoint::SingaPore,
    StorageEndpoint::Stockholm,
    StorageEndpoint::SaoPaulo,
    StorageEndpoint::Johannesburg,
    StorageEndpoint::Sydney,
];

#[test]
fn endpoint_url_without_scheme_names_the_same_region() {
    for endpoint in ALL.iter() {
        let url = endpoint.url();
        assert!(url.starts_with("https://"));
        let name = &url["https://".len()..];
        assert_eq!(StorageEndpoint::from_str(name).unwrap(), *endpoint);
    }
}

#[test]
fn endpoint_urls() {
    assert_eq!(StorageEndpoint::Falkenstein.url(), "https://storage.bunnycdn.com");
    assert_eq!(StorageEndpoint::Sydney.url(), "https://syd.storage.bunnycdn.com");
    assert_eq!(StorageEndpoint::London.hostname(), "uk.storage.bunnycdn.com");
}

#[test]
fn endpoint_names_are_matched_exactly() {
    for name in ["", "STORAGE.BUNNYCDN.COM", " storage.bunnycdn.com", "storage.bunnycdn", "https://storage.bunnycdn.com"] {
        let err = StorageEndpoint::from_str(name).unwrap_err();
        assert_eq!(err.message, format!("Invalid Endpoint Name - Provided {}", name));
    }
}
