use attune::api::auth::{
    parse_api_token, request_token, tenant_from_lookup, tenant_from_query, tenant_owns_release,
    token_digest, TenantID,
};
use attune::api::error::{ErrorResponse, StatusCode};
use attune::api::path::percent_encode_path_segment;
use attune::cli::authorization_header;

#[test]
fn api_token_from_bearer_header() {
    assert_eq!(parse_api_token(Some(b"Bearer abc123".as_slice())), Ok(String::from("abc123")));
    assert_eq!(parse_api_token(Some(b"Bearer ".as_slice())), Ok(String::new()));
    assert_eq!(parse_api_token(Some(b"Bearer a\tb".as_slice())), Ok(String::from("a\tb")));
}

#[test]
fn api_token_missing_header() {
    assert_eq!(parse_api_token(None), Err("`Authorization` header is missing"));
}

#[test]
fn api_token_malformed_header() {
    assert_eq!(
        parse_api_token(Some(b"Bearer \xffabc".as_slice())),
        Err("`Authorization` header is malformed")
    );
    assert_eq!(
        parse_api_token(Some(b"Bearer a\nb".as_slice())),
        Err("`Authorization` header is malformed")
    );
}

#[test]
fn api_token_wrong_scheme() {
    assert_eq!(
        parse_api_token(Some(b"Basic abc".as_slice())),
        Err("`Authorization` scheme must be `Bearer`")
    );
    assert_eq!(
        parse_api_token(Some(b"Bearer".as_slice())),
        Err("`Authorization` scheme must be `Bearer`")
    );
    assert_eq!(
        parse_api_token(Some(b"bearer abc".as_slice())),
        Err("`Authorization` scheme must be `Bearer`")
    );
}

#[test]
fn token_digest_is_sha256_of_token() {
    let d = token_digest("abc");
    assert_eq!(
        hex::encode(&d),
        "ba7816bf8f01cfea414140de5dae2223b00361a396177a9cb410ff61f20015ad"
    );
}

#[test]
fn tenant_lookup_outcomes() {
    assert_eq!(tenant_from_lookup(Some(7)), Ok(TenantID(7)));
    let err = tenant_from_lookup(None).unwrap_err();
    assert_eq!(err.0, StatusCode(401));
    assert_eq!(err.1, "Invalid API token\n");
}

#[test]
fn release_of_other_tenant_reads_as_missing() {
    assert_eq!(tenant_owns_release(Some(3), TenantID(3)), Ok(()));
    let other = tenant_owns_release(Some(4), TenantID(3)).unwrap_err();
    let missing = tenant_owns_release(None, TenantID(3)).unwrap_err();
    assert_eq!(other.0, StatusCode(404));
    assert_eq!(other.1, "Repository not found\n");
    assert_eq!(missing.0, other.0);
    assert_eq!(missing.1, other.1);
}

#[test]
fn status_codes() {
    assert!(StatusCode(500).is_server_error());
    assert!(StatusCode(599).is_server_error());
    assert!(!StatusCode(600).is_server_error());
    assert!(!StatusCode(404).is_server_error());
    assert_eq!(StatusCode(409).as_u16(), 409);
}

#[test]
fn error_response_new_keeps_fields() {
    let e = ErrorResponse::new(StatusCode(400), "BAD", "bad request");
    assert_eq!(e.status, StatusCode(400));
    assert_eq!(e.error, "BAD");
    assert_eq!(e.message, "bad request");
}

#[test]
fn not_found_uppercases_entity() {
    let e = ErrorResponse::not_found("repository");
    assert_eq!(e.status, StatusCode(404));
    assert_eq!(e.error, "REPOSITORY_NOT_FOUND");
    assert_eq!(e.message, "repository not found");
    let e = ErrorResponse::not_found("größe");
    assert_eq!(e.error, "GRÖSSE_NOT_FOUND");
}

#[test]
fn database_errors_by_code() {
    let e = ErrorResponse::from_database_error(Some("40001"), "x");
    assert_eq!((e.status, e.error.as_str(), e.message.as_str()), (StatusCode(409), "CONCURRENT_INDEX_CHANGE", "concurrent index change"));
    let e = ErrorResponse::from_database_error(Some("23505"), "x");
    assert_eq!((e.status, e.error.as_str(), e.message.as_str()), (StatusCode(409), "ALREADY_EXISTS", "already exists"));
    let e = ErrorResponse::from_database_error(Some("42P01"), "no table");
    assert_eq!(
        (e.status, e.error.as_str(), e.message.as_str()),
        (StatusCode(409), "DATABASE_ERROR", "internal database error: no table")
    );
    let e = ErrorResponse::from_database_error(None, "pool timed out");
    assert_eq!(e.error, "DATABASE_ERROR");
    assert_eq!(e.message, "internal database error: pool timed out");
}

#[test]
fn path_segment_encoding() {
    assert_eq!(percent_encode_path_segment("plain-name_1.2~x"), "plain-name_1.2~x");
    assert_eq!(percent_encode_path_segment("a b/c?d#e%f"), "a%20b%2Fc%3Fd%23e%25f");
    assert_eq!(percent_encode_path_segment("\"<>`{}"), "%22%3C%3E%60%7B%7D");
    assert_eq!(percent_encode_path_segment("é\n\u{7f}"), "%C3%A9%0A%7F");
    assert_eq!(percent_encode_path_segment(""), "");
}

#[test]
fn bearer_header_round_trip() {
    for token in ["abc123", "tok with spaces", "a\tb", ""] {
        let header = authorization_header(token);
        assert_eq!(parse_api_token(Some(header.as_bytes())), Ok(String::from(token)));
    }
}

#[test]
fn encoded_segment_has_no_separators() {
    for name in ["a/b?c#d", "////", "?#", "plain", "ü/ä"] {
        let encoded = percent_encode_path_segment(name);
        assert!(!encoded.contains('/') && !encoded.contains('?') && !encoded.contains('#'), "{encoded}");
    }
}

#[test]
fn request_rejections() {
    assert_eq!(request_token(Some(b"Bearer t".as_slice())), Ok(String::from("t")));
    let err = request_token(None).unwrap_err();
    assert_eq!((err.0, err.1), (StatusCode(401), "`Authorization` header is missing"));
    let err = request_token(Some(b"Basic t".as_slice())).unwrap_err();
    assert_eq!((err.0, err.1), (StatusCode(401), "`Authorization` scheme must be `Bearer`"));
    assert_eq!(tenant_from_query(Ok(Some(4))), Ok(TenantID(4)));
    let err = tenant_from_query(Ok(None)).unwrap_err();
    assert_eq!((err.0, err.1), (StatusCode(401), "Invalid API token\n"));
    let err = tenant_from_query(Err(())).unwrap_err();
    assert_eq!((err.0, err.1), (StatusCode(500), "Could not validate API token"));
}

#[test]
fn token_digest_has_32_bytes() {
    assert_eq!(token_digest("anything").len(), 32);
    assert_eq!(ErrorResponse::not_found("Distribution").error, "DISTRIBUTION_NOT_FOUND");
}
