use presage::error::ServiceError;
use presage::http::{
    classify_authoritative_group_response, fetch_authoritative_group, group_from_response,
    groups_v2_response_error, signal_response_timestamp, timestamp_from_text,
    AuthoritativeGroupResponse, GroupFetchStep, SIGNAL_TIMESTAMP_HEADER,
};
use reqwest::header::{HeaderMap, HeaderName, HeaderValue};
use reqwest::StatusCode;

fn timestamp_headers() -> HeaderMap {
    let mut headers = HeaderMap::new();
    headers.insert(
        HeaderName::from_static(SIGNAL_TIMESTAMP_HEADER),
        HeaderValue::from_static("123456789"),
    );
    headers
}

#[test]
fn reads_signal_group_change_timestamp() {
    let mut headers = timestamp_headers();
    assert_eq!(signal_response_timestamp(&headers), Some(123_456_789));

    headers.insert(
        HeaderName::from_static(SIGNAL_TIMESTAMP_HEADER),
        HeaderValue::from_static("invalid"),
    );
    assert_eq!(signal_response_timestamp(&headers), None);
}

#[test]
fn timestamp_is_the_first_visible_decimal_value() {
    let mut headers = HeaderMap::new();
    assert_eq!(signal_response_timestamp(&headers), None);
    headers.append(
        HeaderName::from_static("another-header"),
        HeaderValue::from_static("5"),
    );
    assert_eq!(signal_response_timestamp(&headers), None);
    headers.append(
        HeaderName::from_static(SIGNAL_TIMESTAMP_HEADER),
        HeaderValue::from_static("7"),
    );
    headers.append(
        HeaderName::from_static(SIGNAL_TIMESTAMP_HEADER),
        HeaderValue::from_static("8"),
    );
    assert_eq!(signal_response_timestamp(&headers), Some(7));
    headers.insert(
        HeaderName::from_static(SIGNAL_TIMESTAMP_HEADER),
        HeaderValue::from_bytes(&[b'7', 0xff]).unwrap(),
    );
    assert_eq!(signal_response_timestamp(&headers), None);
}

#[test]
fn timestamp_text_is_a_number_of_at_most_64_bits() {
    assert_eq!(timestamp_from_text(None), None);
    assert_eq!(timestamp_from_text(Some("")), None);
    assert_eq!(timestamp_from_text(Some("+")), None);
    assert_eq!(timestamp_from_text(Some("+12")), Some(12));
    assert_eq!(timestamp_from_text(Some("-1")), None);
    assert_eq!(timestamp_from_text(Some(" 1")), None);
    assert_eq!(timestamp_from_text(Some("0012")), Some(12));
    assert_eq!(
        timestamp_from_text(Some("18446744073709551615")),
        Some(u64::MAX)
    );
    assert_eq!(timestamp_from_text(Some("18446744073709551616")), None);
}

#[test]
fn classifies_authoritative_group_responses() {
    let headers = timestamp_headers();
    assert_eq!(
        classify_authoritative_group_response(StatusCode::OK.as_u16(), &headers).unwrap(),
        AuthoritativeGroupResponse::Current
    );
    assert_eq!(
        classify_authoritative_group_response(StatusCode::FORBIDDEN.as_u16(), &headers).unwrap(),
        AuthoritativeGroupResponse::Inactive
    );
    assert_eq!(
        classify_authoritative_group_response(StatusCode::NOT_FOUND.as_u16(), &headers).unwrap(),
        AuthoritativeGroupResponse::Inactive
    );
    assert_eq!(
        classify_authoritative_group_response(StatusCode::UNAUTHORIZED.as_u16(), &headers).unwrap(),
        AuthoritativeGroupResponse::Error
    );
    assert_eq!(
        classify_authoritative_group_response(StatusCode::LOCKED.as_u16(), &headers).unwrap(),
        AuthoritativeGroupResponse::Error
    );
    assert_eq!(
        classify_authoritative_group_response(
            StatusCode::INTERNAL_SERVER_ERROR.as_u16(),
            &headers
        )
        .unwrap(),
        AuthoritativeGroupResponse::Error
    );
}

#[test]
fn rejects_departure_without_a_valid_timestamp() {
    assert!(matches!(
        classify_authoritative_group_response(StatusCode::FORBIDDEN.as_u16(), &HeaderMap::new()),
        Err(ServiceError::InvalidFrame { .. })
    ));
    assert!(matches!(
        classify_authoritative_group_response(StatusCode::NOT_FOUND.as_u16(), &HeaderMap::new()),
        Err(ServiceError::InvalidFrame { .. })
    ));

    let mut headers = timestamp_headers();
    headers.insert(
        HeaderName::from_static(SIGNAL_TIMESTAMP_HEADER),
        HeaderValue::from_static("invalid"),
    );
    assert!(matches!(
        classify_authoritative_group_response(StatusCode::FORBIDDEN.as_u16(), &headers),
        Err(ServiceError::InvalidFrame { .. })
    ));
}

#[test]
fn requires_a_group_in_the_current_state_response() {
    assert!(matches!(
        group_from_response::<()>(None),
        Err(ServiceError::GroupsV2Error)
    ));
    assert!(group_from_response(Some(())).is_ok());
}

#[test]
fn response_errors_keep_the_start_of_the_body() {
    assert!(matches!(
        groups_v2_response_error(401, "body"),
        ServiceError::Unauthorized
    ));
    let long = "\u{e4}".repeat(2000);
    match groups_v2_response_error(500, &long) {
        ServiceError::UnhandledResponseCode { status, body } => {
            assert_eq!(status, 500);
            assert_eq!(body, "\u{e4}".repeat(1024));
        }
        _ => unreachable!(),
    }
    match groups_v2_response_error(423, "locked") {
        ServiceError::UnhandledResponseCode { status, body } => {
            assert_eq!(status, 423);
            assert_eq!(body, "locked");
        }
        _ => unreachable!(),
    }
}

#[test]
fn group_state_is_read_only_from_current_responses() {
    let headers = timestamp_headers();
    assert!(matches!(
        fetch_authoritative_group(200, &headers),
        GroupFetchStep::ReadGroup
    ));
    assert!(matches!(
        fetch_authoritative_group(404, &headers),
        GroupFetchStep::Inactive
    ));
    assert!(matches!(
        fetch_authoritative_group(302, &headers),
        GroupFetchStep::ReadError
    ));
    assert!(matches!(
        fetch_authoritative_group(200, &HeaderMap::new()),
        GroupFetchStep::Fail(ServiceError::InvalidFrame { .. })
    ));
}
