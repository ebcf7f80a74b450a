use clipstash::api::{ApiError, ApiKey, ApiKeyError, API_KEY_HEADER, API_KEY_LEN};

#[test]
fn key_is_written_as_base64() {
    let key = ApiKey::from_bytes(b"hello world".to_vec());
    assert_eq!(key.to_base64(), "aGVsbG8gd29ybGQ=");
    assert_eq!(ApiKey::from_bytes(Vec::new()).to_base64(), "");
    assert_eq!(ApiKey::from_bytes(vec![0xff, 0xfe]).to_base64(), "//4=");
}

#[test]
fn key_is_read_from_base64() {
    let key = ApiKey::from_str("aGVsbG8gd29ybGQ=").unwrap();
    assert_eq!(key.into_inner(), b"hello world".to_vec());
    assert_eq!(ApiKey::from_str("").unwrap().into_inner(), Vec::<u8>::new());
}

#[test]
fn text_that_is_not_base64_is_refused() {
    for bad in ["not base64!", "a", "aGVsbG8gd29ybGQ= "] {
        match ApiKey::from_str(bad) {
            Err(ApiKeyError::DecodeError(text)) => assert!(!text.is_empty()),
            other => panic!("expected a decode error, got {:?}", other),
        }
    }
}

#[test]
fn fresh_keys_have_sixteen_bytes_and_survive_the_round_trip() {
    assert_eq!(API_KEY_LEN, 16);
    let key = ApiKey::default();
    let text = key.to_base64();
    assert_eq!(text.len(), 24);
    let back = ApiKey::from_str(&text).unwrap();
    assert_eq!(back, key);
    assert_eq!(key.into_inner().len(), 16);
}

#[test]
fn request_key_comes_from_the_header() {
    assert_eq!(API_KEY_HEADER, "x-api-key");
    assert_eq!(
        ApiKey::from_header(None),
        Err(ApiKeyError::NotFound("API key not found".to_string()))
    );
    assert_eq!(ApiKey::from_header(Some("AQID")), Ok(ApiKey::from_bytes(vec![1, 2, 3])));
    assert!(matches!(ApiKey::from_header(Some("?")), Err(ApiKeyError::DecodeError(_))));
}

#[test]
fn only_known_keys_are_accepted() {
    let key = ApiKey::from_bytes(vec![1, 2, 3]);
    assert_eq!(key.clone().accept(Some(true)), Ok(key.clone()));
    assert_eq!(
        key.clone().accept(Some(false)),
        Err(ApiError::KeyError(ApiKeyError::NotFound("API key not found".to_string())))
    );
    assert_eq!(key.accept(None), Err(ApiError::Server("server error".to_string())));
}

#[test]
fn errors_have_their_status_and_words() {
    let not_found = ApiKeyError::NotFound(String::new());
    let decode = ApiKeyError::DecodeError(String::new());
    assert_eq!((not_found.status(), not_found.message()), (404, "API key not found"));
    assert_eq!((decode.status(), decode.message()), (400, "Invalid API key format"));
    let cases = [
        (ApiError::NotFound(String::new()), 404, "not found"),
        (ApiError::Server(String::new()), 500, "server error"),
        (ApiError::User(String::new()), 401, "client error"),
        (ApiError::KeyError(decode), 400, "key error"),
    ];
    for (error, status, words) in cases {
        assert_eq!(error.status(), status);
        assert_eq!(error.message(), words);
    }
}
