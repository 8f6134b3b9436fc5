use rustwave::auth::StoredToken;
use rustwave::storage::encode_stored_token;
use rustwave::storage::interpret_token_file;
use rustwave::storage::parse_stored_token;

fn stored(access: &str, refresh: Option<&str>, expires_at: Option<u64>) -> StoredToken {
    StoredToken {
        access_token: access.to_string(),
        refresh_token: refresh.map(|s| s.to_string()),
        expires_at,
        token_type: "Bearer".to_string(),
        created_at: 1_700_000_000,
    }
}

#[test]
fn round_trip_full_record() {
    let t = stored("abc123", Some("ref456"), Some(1_700_003_600));
    let text = encode_stored_token(&t);
    assert_eq!(parse_stored_token(&text), Some(t));
}

#[test]
fn round_trip_without_optionals() {
    let t = stored("abc123", None, None);
    let text = encode_stored_token(&t);
    assert_eq!(parse_stored_token(&text), Some(t));
}

#[test]
fn round_trip_with_escaped_characters() {
    let t = stored("a\"b\\c", Some("x\\\"y"), Some(7));
    let text = encode_stored_token(&t);
    assert_eq!(parse_stored_token(&text), Some(t));
}

#[test]
fn round_trip_extreme_numbers() {
    let mut t = stored("a", Some(""), Some(u64::MAX));
    t.created_at = 0;
    let text = encode_stored_token(&t);
    assert_eq!(parse_stored_token(&text), Some(t));
}

#[test]
fn encoding_is_the_documented_shape() {
    let t = stored("acc", Some("ref"), Some(42));
    assert_eq!(
        encode_stored_token(&t),
        "{\"access_token\":\"acc\",\"refresh_token\":\"ref\",\"expires_at\":42,\
         \"token_type\":\"Bearer\",\"created_at\":1700000000}"
    );
    let t2 = stored("acc", None, None);
    assert_eq!(
        encode_stored_token(&t2),
        "{\"access_token\":\"acc\",\"refresh_token\":null,\"expires_at\":null,\
         \"token_type\":\"Bearer\",\"created_at\":1700000000}"
    );
}

#[test]
fn parse_reads_a_handwritten_record() {
    let text = "{\"access_token\":\"a\",\"refresh_token\":null,\"expires_at\":9,\
                \"token_type\":\"Bearer\",\"created_at\":3}";
    let t = parse_stored_token(text).unwrap();
    assert_eq!(t.access_token, "a");
    assert_eq!(t.refresh_token, None);
    assert_eq!(t.expires_at, Some(9));
    assert_eq!(t.token_type, "Bearer");
    assert_eq!(t.created_at, 3);
}

#[test]
fn parse_rejects_garbage() {
    assert_eq!(parse_stored_token(""), None);
    assert_eq!(parse_stored_token("not a record"), None);
    assert_eq!(parse_stored_token("{\"access_token\":\"a\""), None);
}

#[test]
fn parse_rejects_trailing_text() {
    let t = stored("a", None, None);
    let mut text = encode_stored_token(&t);
    text.push('x');
    assert_eq!(parse_stored_token(&text), None);
}

#[test]
fn parse_rejects_numbers_that_do_not_fit() {
    let text = "{\"access_token\":\"a\",\"refresh_token\":null,\
                \"expires_at\":99999999999999999999999,\
                \"token_type\":\"Bearer\",\"created_at\":3}";
    assert_eq!(parse_stored_token(text), None);
}

#[test]
fn missing_file_means_no_credential() {
    assert_eq!(interpret_token_file(None), (None, false));
}

#[test]
fn corrupt_file_is_dropped_and_deleted() {
    assert_eq!(interpret_token_file(Some("{broken".to_string())), (None, true));
}

#[test]
fn readable_file_yields_the_credential() {
    let t = stored("acc", Some("ref"), None);
    let text = encode_stored_token(&t);
    assert_eq!(interpret_token_file(Some(text)), (Some(t), false));
}
