use influxdb::error::InfluxDbError;
use influxdb::response::parse_response;
use influxdb::text::{chars_of, contains_chars, contains_str};

#[test]
fn plain_body_is_the_result() {
    let body = "{\"results\":[{\"statement_id\":0}]}";
    assert_eq!(parse_response(body.as_bytes()), Ok(body.to_string()));
}

#[test]
fn empty_body_is_an_empty_result() {
    assert_eq!(parse_response(b""), Ok(String::new()));
}

#[test]
fn error_member_is_a_database_error() {
    let body = "{\"error\":\"database not found\"}";
    let e = parse_response(body.as_bytes()).unwrap_err();
    assert_eq!(
        e,
        InfluxDbError::DatabaseError {
            error: "influxdb error: \"{\"error\":\"database not found\"}\"".to_string()
        }
    );
    assert_eq!(e.error_message(), "influxdb error: \"{\"error\":\"database not found\"}\"");
}

#[test]
fn unquoted_error_word_is_no_error() {
    let body = "{\"results\":[{\"series\":[{\"name\":\"errors_total\"}]}]}";
    assert!(parse_response(body.as_bytes()).is_ok());
    assert!(parse_response(b"error").is_ok());
}

#[test]
fn invalid_utf8_cannot_be_deserialized() {
    let e = parse_response(&[0x66, 0xff, 0x6f]).unwrap_err();
    assert_eq!(
        e,
        InfluxDbError::DeserializationError {
            error: "response could not be converted to UTF-8".to_string()
        }
    );
}

#[test]
fn multibyte_text_is_decoded() {
    let body = "température=21.5 °C";
    assert_eq!(parse_response(body.as_bytes()), Ok(body.to_string()));
}

#[test]
fn contains_finds_infixes() {
    assert!(contains_str("SELECT * FROM weather", "SELECT"));
    assert!(contains_str("abc", "c"));
    assert!(contains_str("abc", ""));
    assert!(contains_str("", ""));
    assert!(!contains_str("", "a"));
    assert!(!contains_str("select * from weather", "SELECT"));
    assert!(!contains_str("SHO", "SHOW"));
}

#[test]
fn chars_keep_order() {
    let c = chars_of("aé\"z");
    assert_eq!(c, vec!['a', 'é', '"', 'z']);
    assert!(contains_chars(&c, &vec!['é', '"']));
    assert!(!contains_chars(&c, &vec!['"', 'é']));
}
