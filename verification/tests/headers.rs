use http::header::{HeaderName, HeaderValue};
use http::HeaderMap;
use jstz_proto::address::Address;
use jstz_proto::error::Error;
use jstz_proto::headers::{has_room_for_caller, test_and_set_referrer, MAX_HEADER_NAMES, REFERRER};
use jstz_proto::message::Request;

fn request_with(headers: HeaderMap) -> Request {
    Request {
        method: "GET".to_string(),
        uri: "tezos://tz4RY1TG3YhbpMNewNM8243Xj5Q68rc3hApt/".to_string(),
        headers,
        body: None,
    }
}

fn map_with_names(count: usize) -> HeaderMap {
    let mut headers = HeaderMap::new();
    for i in 0..count {
        let name = HeaderName::from_bytes(format!("x-name-{}", i).as_bytes()).unwrap();
        headers.insert(name, HeaderValue::from_static("v"));
    }
    headers
}

#[test]
fn referrer_constant_is_the_header_name() {
    assert_eq!(REFERRER, "Referer");
}

#[test]
fn clean_request_is_stamped_with_the_caller() {
    let caller = Address::digest(b"caller");
    let mut headers = HeaderMap::new();
    headers.insert("content-type", HeaderValue::from_static("text/plain"));
    let mut request = request_with(headers);
    assert_eq!(test_and_set_referrer(&mut request, &caller), Ok(()));
    assert_eq!(request.headers.get("Referer").unwrap().as_bytes(), caller.to_base58().as_bytes());
    assert_eq!(request.headers.get_all("referer").iter().count(), 1);
    assert_eq!(request.headers.get("content-type").unwrap(), "text/plain");
    assert_eq!(request.headers.keys_len(), 2);
    assert_eq!(request.method, "GET");
    assert_eq!(request.uri, "tezos://tz4RY1TG3YhbpMNewNM8243Xj5Q68rc3hApt/");
    assert_eq!(request.body, None);
}

#[test]
fn request_that_names_a_caller_is_refused_and_unchanged() {
    let caller = Address::digest(b"caller");
    let mut headers = HeaderMap::new();
    headers.insert("referer", HeaderValue::from_static("forged"));
    let mut request = request_with(headers);
    assert_eq!(
        test_and_set_referrer(&mut request, &caller),
        Err(Error::IdentitySpoofAttempt)
    );
    assert_eq!(request.headers.get("Referer").unwrap(), "forged");
    assert_eq!(request.headers.len(), 1);
}

#[test]
fn stamping_twice_is_refused() {
    let caller = Address::digest(b"caller");
    let mut request = request_with(HeaderMap::new());
    assert_eq!(test_and_set_referrer(&mut request, &caller), Ok(()));
    assert_eq!(
        test_and_set_referrer(&mut request, &caller),
        Err(Error::IdentitySpoofAttempt)
    );
    assert_eq!(request.headers.len(), 1);
}

#[test]
fn request_with_thousands_of_names_is_stamped() {
    let caller = Address::digest(b"caller");
    for count in [MAX_HEADER_NAMES - 1, MAX_HEADER_NAMES, 2 * MAX_HEADER_NAMES] {
        let mut request = request_with(map_with_names(count));
        assert_eq!(test_and_set_referrer(&mut request, &caller), Ok(()));
        assert_eq!(request.headers.keys_len(), count + 1);
        assert_eq!(
            request.headers.get("referer").unwrap().as_bytes(),
            caller.to_base58().as_bytes()
        );
    }
}

#[test]
fn request_whose_header_map_is_full_is_refused_and_unchanged() {
    let caller = Address::digest(b"caller");
    let mut request = request_with(map_with_names(24576));
    assert!(!has_room_for_caller(&request));
    assert_eq!(test_and_set_referrer(&mut request, &caller), Err(Error::HeadersFull));
    assert_eq!(request.headers.keys_len(), 24576);
    assert!(!request.headers.contains_key("referer"));
    assert_eq!(request.headers.get("x-name-0").unwrap(), "v");
    assert_eq!(request.method, "GET");
}

#[test]
fn room_is_counted_in_names() {
    assert!(has_room_for_caller(&request_with(HeaderMap::new())));
    assert!(has_room_for_caller(&request_with(map_with_names(MAX_HEADER_NAMES - 1))));
    assert!(!has_room_for_caller(&request_with(map_with_names(MAX_HEADER_NAMES))));
    let mut repeated = HeaderMap::new();
    for _ in 0..MAX_HEADER_NAMES {
        repeated.append("accept", HeaderValue::from_static("a"));
    }
    assert!(has_room_for_caller(&request_with(repeated)));
}

#[test]
fn repeated_values_count_as_one_name() {
    let caller = Address::digest(b"caller");
    let mut headers = HeaderMap::new();
    headers.append("accept", HeaderValue::from_static("a"));
    headers.append("accept", HeaderValue::from_static("b"));
    let mut request = request_with(headers);
    assert_eq!(test_and_set_referrer(&mut request, &caller), Ok(()));
    assert_eq!(request.headers.get_all("accept").iter().count(), 2);
    assert_eq!(request.headers.keys_len(), 2);
}
