use bunnystorage_rs::client::{
    attempt_parse_request_error, best_effort_items, list_elements, classify_response, finish_post, finish_unit,
    BunnyCDNPageMeta,
};

const ERROR_BODY: &str = "{\"ErrorKey\":\"x\",\"Field\":\"y\",\"Message\":\"z\"}";

#[test]
fn error_body_with_success_status_fails_the_call() {
    let e = classify_response(true, "", ERROR_BODY.to_string()).unwrap_err();
    assert_eq!((e.error_key.as_str(), e.field.as_str(), e.message.as_str()), ("x", "y", "z"));
    let e = finish_post(true, "", ERROR_BODY.to_string()).err().unwrap();
    assert_eq!(e.field, "y");
    let e = finish_unit(true, "", ERROR_BODY.to_string()).unwrap_err();
    assert_eq!(e.message, "z");
    assert!(attempt_parse_request_error(ERROR_BODY).is_err());
}

#[test]
fn other_bodies_pass() {
    assert_eq!(classify_response(true, "", "[1,2]".to_string()).unwrap(), "[1,2]");
    let empty_error = "{\"ErrorKey\":\"\",\"Field\":\"\",\"Message\":\"\"}";
    assert!(classify_response(true, "", empty_error.to_string()).is_ok());
    let partial = "{\"Message\":\"hello\",\"Id\":3}";
    assert!(classify_response(true, "", partial.to_string()).is_ok());
    assert!(classify_response(true, "", "not json".to_string()).is_ok());
    assert_eq!(finish_post(true, "", "{}".to_string()).ok().unwrap().body, "{}");
}

#[test]
fn failed_status_keeps_the_transport_message() {
    let e = classify_response(false, "HTTP status client error (404 Not Found)", ERROR_BODY.to_string()).unwrap_err();
    assert_eq!(e.message, "HTTP status client error (404 Not Found)");
    assert_eq!(e.error_key, "");
}

#[test]
fn page_envelope_is_detected() {
    let body = "{\"Items\":[{\"Id\":1},{\"Id\":2}],\"CurrentPage\":1,\"TotalItems\":2,\"HasMoreItems\":false}";
    let m = BunnyCDNPageMeta::from_body(body);
    assert!(m.valid());
    assert_eq!(m.items.len(), 2);
    assert_eq!(m.total_items, 2);
    assert!(!m.has_more_items);
    let m = BunnyCDNPageMeta::from_body("[{\"Id\":1}]");
    assert!(!m.valid());
    assert_eq!(m.items.len(), 0);
    let too_big = "{\"Items\":[],\"CurrentPage\":4294967296,\"TotalItems\":0,\"HasMoreItems\":true}";
    assert!(!BunnyCDNPageMeta::from_body(too_big).valid());
    assert!(!BunnyCDNPageMeta::new().valid());
}

#[test]
fn lists_stop_at_the_first_bad_element() {
    assert_eq!(best_effort_items(vec![Some(1), Some(2), None]), vec![1, 2]);
    assert_eq!(best_effort_items(vec![Some(1), Some(2), None, Some(4)]), vec![1, 2]);
    assert_eq!(best_effort_items(vec![None, Some(1)]), Vec::<i32>::new());
    assert_eq!(best_effort_items(vec![Some("a"), Some("b")]), vec!["a", "b"]);
    assert_eq!(best_effort_items(Vec::<Option<u8>>::new()), Vec::<u8>::new());
}

#[test]
fn list_bodies_must_be_arrays() {
    let elements = list_elements("[{\"ObjectName\":\"a\"},{\"ObjectName\":\"b\"},7]").unwrap();
    assert_eq!(elements.len(), 3);
    assert_eq!(list_elements("[]").unwrap().len(), 0);
    assert_eq!(list_elements("{\"Items\":[]}").unwrap_err().message, "Invalid Files Array");
    assert!(list_elements("[1,").is_err());
}
