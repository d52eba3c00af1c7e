use quest_verifier::errors::VerifyError;
use quest_verifier::extract::{
    extract_json_field, extract_nested_field, extract_twitter_handle, is_valid_handle,
};
use quest_verifier::hexcodec::decode_hex;

#[test]
fn test_extract_twitter_handle() {
    let data = "some data \"screen_name\":\"avnerLukk\" more data";
    let result = extract_twitter_handle(data);
    assert!(result.is_ok());
    assert_eq!(result.unwrap(), "avnerLukk");
}

#[test]
fn test_extract_json_field() {
    let data = "{\"id_str\":\"1234567890\",\"text\":\"Hello world\"}";
    assert_eq!(extract_json_field(data, "id_str").unwrap(), "1234567890");
    assert_eq!(extract_json_field(data, "text").unwrap(), "Hello world");
}

#[test]
fn test_is_valid_handle() {
    assert!(is_valid_handle("avnerLukk"));
    assert!(is_valid_handle("test_user"));
    assert!(is_valid_handle("User123"));
    assert!(!is_valid_handle("user name")); // space not allowed
    assert!(!is_valid_handle("user@name")); // @ not allowed
}

#[test]
fn test_handle_with_space_or_at_not_found() {
    let spaced = "prefix \"screen_name\":\"user name\" suffix";
    assert_eq!(
        extract_twitter_handle(spaced).unwrap_err(),
        VerifyError::HandleNotFound
    );
    let at = "prefix \"screen_name\":\"user@name\" suffix";
    assert_eq!(
        extract_twitter_handle(at).unwrap_err(),
        VerifyError::HandleNotFound
    );
}

#[test]
fn test_handle_length_limit() {
    assert!(is_valid_handle("abcdefghijklmno")); // 15 characters
    assert!(!is_valid_handle("abcdefghijklmnop")); // 16 characters
    let long = "\"screen_name\":\"abcdefghijklmnop\"";
    assert_eq!(
        extract_twitter_handle(long).unwrap_err(),
        VerifyError::HandleNotFound
    );
}

#[test]
fn test_handle_spaced_colon_form() {
    let data = "{\"screen_name\": \"avnerLukk\"}";
    assert_eq!(extract_twitter_handle(data).unwrap(), "avnerLukk");
}

#[test]
fn test_extract_field_spaced_colon_and_first_match() {
    let data = "{\"id_str\": \"42\",\"id_str\":\"99\"}";
    // the no-space form is tried first, so the second occurrence wins here
    assert_eq!(extract_json_field(data, "id_str").unwrap(), "99");
    let spaced_only = "{\"id_str\": \"42\"}";
    assert_eq!(extract_json_field(spaced_only, "id_str").unwrap(), "42");
}

#[test]
fn test_extract_field_empty_value_not_found() {
    let data = "{\"id_str\":\"\"}";
    assert_eq!(
        extract_json_field(data, "id_str").unwrap_err(),
        VerifyError::FieldNotFound("id_str".to_string())
    );
}

#[test]
fn test_extract_field_escaped_quote_truncates() {
    // the extractor is not escape-aware: the value stops at the first quote
    let data = "{\"text\":\"a\\\"b\"}";
    assert_eq!(extract_json_field(data, "text").unwrap(), "a\\");
}

#[test]
fn test_extract_nested_field() {
    let data = "{\"user\":{\"id\":\"7\",\"screen_name\":\"bob\"}}";
    assert_eq!(
        extract_nested_field(data, "user", "screen_name").unwrap(),
        "bob"
    );
}

#[test]
fn test_extract_nested_field_truncates_at_first_brace() {
    // the object slice ends at the first closing brace, not the balanced one
    let data = "{\"user\":{\"meta\":{\"x\":\"1\"},\"screen_name\":\"bob\"}}";
    assert_eq!(
        extract_nested_field(data, "user", "screen_name").unwrap_err(),
        VerifyError::FieldNotFound("screen_name".to_string())
    );
}

#[test]
fn test_extract_nested_field_missing_parent() {
    let data = "{\"account\":{\"screen_name\":\"bob\"}}";
    assert_eq!(
        extract_nested_field(data, "user", "screen_name").unwrap_err(),
        VerifyError::NestedFieldNotFound("user".to_string(), "screen_name".to_string())
    );
}

#[test]
fn test_decode_hex_round_trip() {
    let bytes: Vec<u8> = vec![0x00, 0x01, 0x7f, 0x80, 0xab, 0xff];
    let encoded = hex::encode(&bytes);
    let decoded = decode_hex(&encoded).unwrap();
    assert_eq!(decoded, bytes);
}

#[test]
fn test_decode_hex_exact_value() {
    assert_eq!(decode_hex("48656c6c6f").unwrap(), b"Hello".to_vec());
    assert_eq!(decode_hex("48656C6C6F").unwrap(), b"Hello".to_vec());
    assert_eq!(decode_hex("").unwrap(), Vec::<u8>::new());
}

#[test]
fn test_decode_hex_rejects_odd_length() {
    assert_eq!(decode_hex("123").unwrap_err(), VerifyError::InvalidEncoding);
}

#[test]
fn test_decode_hex_rejects_invalid_digit() {
    assert_eq!(decode_hex("zz").unwrap_err(), VerifyError::InvalidEncoding);
    assert_eq!(decode_hex("0g").unwrap_err(), VerifyError::InvalidEncoding);
}

#[test]
fn test_extraction_failure_message_names_field() {
    let err = extract_json_field("{}", "id_str").unwrap_err();
    assert_eq!(err.message(), "Could not find field 'id_str' in data");
}

#[test]
fn test_nested_failure_message_names_parent_and_field() {
    let err = extract_nested_field("{}", "user", "screen_name").unwrap_err();
    assert_eq!(err.message(), "Could not find nested field 'user.screen_name'");
    // a failure of the inner extraction keeps the inner message
    let inner = extract_nested_field("{\"user\":{\"id\":\"1\"}}", "user", "screen_name")
        .unwrap_err();
    assert_eq!(inner.message(), "Could not find field 'screen_name' in data");
}
