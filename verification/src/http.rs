//! Reading the answers of the groups service.

use reqwest::header::{HeaderMap, HeaderValue};
use vstd::prelude::*;

use crate::error::ServiceError;

verus! {

/// The path of the groups service.
pub const GROUPS_V2_ENDPOINT: &'static str = "/v2/groups/";

/// The header in which the service tells its time in milliseconds.
pub const SIGNAL_TIMESTAMP_HEADER: &'static str = "x-signal-timestamp";

/// The number of characters of a response body that an error keeps.
pub const ERROR_BODY_LENGTH: usize = 1024;

/// `reqwest::header::HeaderMap`: the headers of a response. Nothing is known of its inside but what
/// [`header_fields`] names.
#[verifier::external_type_specification]
#[verifier::external_body]
#[verifier::reject_recursive_types(T)]
pub struct ExHeaderMap<T>(reqwest::header::HeaderMap<T>);

/// `reqwest::header::HeaderValue`: the value of a header. Nothing is known of its inside but what
/// [`header_bytes`] names.
#[verifier::external_type_specification]
#[verifier::external_body]
pub struct ExHeaderValue(reqwest::header::HeaderValue);

/// The fields that a header map holds: for each name, in lower case, the bytes of its first value.
pub uninterp spec fn header_fields(headers: HeaderMap<HeaderValue>) -> Map<Seq<char>, Seq<u8>>;

/// The bytes that a header value holds.
pub uninterp spec fn header_bytes(value: HeaderValue) -> Seq<u8>;

/// Whether no letter of a name is an upper-case one.
pub open spec fn is_lower_case(name: Seq<char>) -> bool {
    forall|i: int| 0 <= i < name.len() ==> !('A' <= #[trigger] name[i] <= 'Z')
}

/// Whether a byte is a visible ASCII character, a space or a tab.
pub open spec fn is_visible_ascii(byte: u8) -> bool {
    32 <= byte < 127 || byte == 9
}

/// Whether every byte is a visible ASCII character, a space or a tab.
pub open spec fn all_visible_ascii(bytes: Seq<u8>) -> bool {
    forall|i: int| 0 <= i < bytes.len() ==> is_visible_ascii(#[trigger] bytes[i])
}

/// The text that ASCII bytes spell.
pub open spec fn ascii_text(bytes: Seq<u8>) -> Seq<char> {
    bytes.map_values(|byte: u8| byte as char)
}

/// Calls `HeaderMap::get`: the first value under a name, or nothing when there is none. Names are
/// kept in lower case, so the name is looked up as it is written.
#[verifier::external_body]
fn header_get<'a>(headers: &'a HeaderMap<HeaderValue>, name: &str) -> (found: Option<
    &'a HeaderValue,
>)
    requires
        is_lower_case(name@),
    ensures
        found is Some <==> header_fields(*headers).contains_key(name@),
        found matches Some(value) ==> header_bytes(*value) == header_fields(*headers)[name@],
{
    headers.get(name)
}

/// Calls `HeaderValue::to_str`: the value as text, when all of it is visible ASCII.
#[verifier::external_body]
fn header_to_str(value: &HeaderValue) -> (text: Option<&str>)
    ensures
        text is Some <==> all_visible_ascii(header_bytes(*value)),
        text matches Some(t) ==> t@ == ascii_text(header_bytes(*value)),
{
    value.to_str().ok()
}

/// Whether a character is a decimal digit.
pub open spec fn is_digit(c: char) -> bool {
    '0' <= c <= '9'
}

/// The number that decimal digits spell.
pub open spec fn decimal_value(digits: Seq<char>) -> nat
    decreases digits.len(),
{
    if digits.len() == 0 {
        0
    } else {
        decimal_value(digits.drop_last()) * 10 + (digits.last() as nat - '0' as nat) as nat
    }
}

/// The digits of a number that may be written with a plus sign in front.
pub open spec fn unsigned_digits(text: Seq<char>) -> Seq<char> {
    if text.len() > 0 && text[0] == '+' {
        text.drop_first()
    } else {
        text
    }
}

/// The number that a text spells: at least one digit, nothing but digits after an optional plus
/// sign, and small enough for 64 bits.
pub open spec fn parsed_u64(text: Seq<char>) -> Option<u64> {
    let digits = unsigned_digits(text);
    if digits.len() > 0 && (forall|i: int| 0 <= i < digits.len() ==> is_digit(#[trigger] digits[i]))
        && decimal_value(digits) <= u64::MAX {
        Some(decimal_value(digits) as u64)
    } else {
        None
    }
}

/// Calls `str::parse` for `u64`.
#[verifier::external_body]
fn parse_u64(text: &str) -> (number: Option<u64>)
    ensures
        number == parsed_u64(text@),
{
    text.parse().ok()
}

/// The time that a header map tells.
pub open spec fn response_timestamp(fields: Map<Seq<char>, Seq<u8>>) -> Option<u64> {
    if fields.contains_key(SIGNAL_TIMESTAMP_HEADER@) {
        let bytes = fields[SIGNAL_TIMESTAMP_HEADER@];
        if all_visible_ascii(bytes) {
            parsed_u64(ascii_text(bytes))
        } else {
            None
        }
    } else {
        None
    }
}

/// The number in a header's text, if there is text and it spells a number.
pub fn timestamp_from_text(text: Option<&str>) -> (timestamp: Option<u64>)
    ensures
        timestamp == match text {
            Some(t) => parsed_u64(t@),
            None => None,
        },
{
    match text {
        Some(text) => parse_u64(text),
        None => None,
    }
}

/// The time that a response of the service carries, if it carries a valid one.
pub fn signal_response_timestamp(headers: &HeaderMap<HeaderValue>) -> (timestamp: Option<u64>)
    ensures
        timestamp == response_timestamp(header_fields(*headers)),
{
    proof {
        reveal_strlit("x-signal-timestamp");
        assert(is_lower_case(SIGNAL_TIMESTAMP_HEADER@));
    }
    match header_get(headers, SIGNAL_TIMESTAMP_HEADER) {
        Some(value) => timestamp_from_text(header_to_str(value)),
        None => None,
    }
}

/// What a response to a request for a group says of the group.
#[derive(Clone, Copy, Debug, PartialEq, Eq, Structural)]
pub enum AuthoritativeGroupResponse {
    /// The response carries the group's current state.
    Current,
    /// The account has no part in the group, or the group does not exist.
    Inactive,
    /// The response says nothing of the group.
    Error,
}

/// Whether a status is one of the success statuses.
pub open spec fn is_success_status(status: u16) -> bool {
    200 <= status < 300
}

/// Whether a status is one of the success statuses.
pub fn is_success(status: u16) -> (success: bool)
    ensures
        success == is_success_status(status),
{
    200 <= status && status < 300
}

/// What a response with a valid time and the given status says of the group.
pub open spec fn group_response_class(status: u16) -> AuthoritativeGroupResponse {
    if status == 403 || status == 404 {
        AuthoritativeGroupResponse::Inactive
    } else if is_success_status(status) {
        AuthoritativeGroupResponse::Current
    } else {
        AuthoritativeGroupResponse::Error
    }
}

/// Classifies a response by its status and the time that it carries.
///
/// Without a valid time the response is not the service's own word on the group, so that no
/// departure is concluded from it.
pub fn classify_group_status(status: u16, timestamp: Option<u64>) -> (class: Result<
    AuthoritativeGroupResponse,
    ServiceError,
>)
    ensures
        match class {
            Ok(c) => timestamp is Some && c == group_response_class(status),
            Err(ServiceError::InvalidFrame { reason }) => {
                &&& timestamp is None
                &&& reason@ == "groups v2 response had no valid timestamp"@
            },
            Err(_) => false,
        },
{
    if timestamp.is_none() {
        return Err(
            ServiceError::InvalidFrame { reason: "groups v2 response had no valid timestamp" },
        );
    }
    if status == 403 || status == 404 {
        Ok(AuthoritativeGroupResponse::Inactive)
    } else if is_success(status) {
        Ok(AuthoritativeGroupResponse::Current)
    } else {
        Ok(AuthoritativeGroupResponse::Error)
    }
}

/// Classifies a response to a request for a group by its status and headers.
pub fn classify_authoritative_group_response(
    status: u16,
    headers: &HeaderMap<HeaderValue>,
) -> (class: Result<AuthoritativeGroupResponse, ServiceError>)
    ensures
        match class {
            Ok(c) => {
                &&& response_timestamp(header_fields(*headers)) is Some
                &&& c == group_response_class(status)
            },
            Err(ServiceError::InvalidFrame { reason }) => {
                &&& response_timestamp(header_fields(*headers)) is None
                &&& reason@ == "groups v2 response had no valid timestamp"@
            },
            Err(_) => false,
        },
{
    classify_group_status(status, signal_response_timestamp(headers))
}

/// The part of a response body that an error keeps.
pub open spec fn error_body(body: Seq<char>) -> Seq<char> {
    if body.len() <= 1024 {
        body
    } else {
        body.take(1024)
    }
}

/// Whether an error is the one for a response with the given status and body.
pub open spec fn is_response_error(error: ServiceError, status: u16, body: Seq<char>) -> bool {
    if status == 401 {
        error is Unauthorized
    } else {
        error matches ServiceError::UnhandledResponseCode { status: s, body: b } && s == status
            && b@ == error_body(body)
    }
}

/// The error for a response of the groups service that is neither success nor an expected refusal.
pub fn groups_v2_response_error(status: u16, body: &str) -> (error: ServiceError)
    ensures
        is_response_error(error, status, body@),
{
    if status == 401 {
        return ServiceError::Unauthorized;
    }
    let length = body.unicode_len();
    let kept = if length <= ERROR_BODY_LENGTH {
        length
    } else {
        ERROR_BODY_LENGTH
    };
    let text = body.substring_char(0, kept);
    proof {
        assert(body@.subrange(0, kept as int) =~= error_body(body@));
    }
    ServiceError::UnhandledResponseCode { status, body: text.to_owned() }
}

/// The group of a group response, which a current-state response must carry.
pub fn group_from_response<G>(group: Option<G>) -> (result: Result<G, ServiceError>)
    ensures
        match result {
            Ok(g) => group == Some(g),
            Err(error) => group is None && error is GroupsV2Error,
        },
{
    match group {
        Some(group) => Ok(group),
        None => Err(ServiceError::GroupsV2Error),
    }
}

/// What follows from a response to a request for a group's current state.
#[derive(Debug)]
pub enum GroupFetchStep {
    /// The group is inactive: there is no state to read.
    Inactive,
    /// The body holds the group's state.
    ReadGroup,
    /// The body is to be read for the error that the response stands for.
    ReadError,
    /// The response is no answer at all.
    Fail(ServiceError),
}

/// Decides how to go on with a response to a request for a group's current state.
pub fn fetch_authoritative_group(status: u16, headers: &HeaderMap<HeaderValue>) -> (step:
    GroupFetchStep)
    ensures
        response_timestamp(header_fields(*headers)) is None ==> {
            step matches GroupFetchStep::Fail(ServiceError::InvalidFrame { reason }) && reason@
                == "groups v2 response had no valid timestamp"@
        },
        response_timestamp(header_fields(*headers)) is Some ==> match group_response_class(status) {
            AuthoritativeGroupResponse::Inactive => step is Inactive,
            AuthoritativeGroupResponse::Current => step is ReadGroup,
            AuthoritativeGroupResponse::Error => step is ReadError,
        },
{
    match classify_authoritative_group_response(status, headers) {
        Ok(AuthoritativeGroupResponse::Inactive) => GroupFetchStep::Inactive,
        Ok(AuthoritativeGroupResponse::Current) => GroupFetchStep::ReadGroup,
        Ok(AuthoritativeGroupResponse::Error) => GroupFetchStep::ReadError,
        Err(error) => GroupFetchStep::Fail(error),
    }
}

/// No departure is concluded from a response that does not carry a valid time, and none from one
/// with any other status than the two that tell of it.
pub proof fn law_departure_needs_a_valid_timestamp(
    status: u16,
    headers: &HeaderMap<HeaderValue>,
    step: GroupFetchStep,
)
    requires
        call_ensures(fetch_authoritative_group, (status, headers), step),
    ensures
        step is Inactive <==> response_timestamp(header_fields(*headers)) is Some && (status == 403
            || status == 404),
{
}

/// A response that carries a time tells of the group by its status alone: the two that tell that the
/// account has no part in it, any of success that tells its state, and no other. A response without a
/// time tells nothing.
pub proof fn law_status_tells_of_the_group(
    status: u16,
    timestamp: Option<u64>,
    class: Result<AuthoritativeGroupResponse, ServiceError>,
)
    requires
        call_ensures(classify_group_status, (status, timestamp), class),
    ensures
        timestamp is None ==> class matches Err(ServiceError::InvalidFrame { .. }),
        timestamp is Some ==> class is Ok,
        class matches Ok(told) ==> {
            &&& told is Inactive <==> status == 403 || status == 404
            &&& told is Current <==> 200 <= status <= 299
            &&& told is Error <==> (status < 200 || status > 299) && status != 403 && status != 404
        },
{
}

/// The state of a group is read exactly from a response of success that carries a time, and an error
/// from one of any other status than those that tell of a departure; without a time there is nothing
/// to read.
pub proof fn law_group_is_read_from_a_success(
    status: u16,
    headers: &HeaderMap<HeaderValue>,
    timestamp: Option<u64>,
    step: GroupFetchStep,
)
    requires
        call_ensures(signal_response_timestamp, (headers,), timestamp),
        call_ensures(fetch_authoritative_group, (status, headers), step),
    ensures
        step is Fail <==> timestamp is None,
        step is ReadGroup <==> timestamp is Some && 200 <= status <= 299,
        step is Inactive <==> timestamp is Some && (status == 403 || status == 404),
        step is ReadError <==> timestamp is Some && (status < 200 || status > 299) && status != 403
            && status != 404,
{
}

/// The time of a response is the number that its header for it spells, and there is none if there is
/// no such header, if it is not text or if it spells no number.
pub proof fn law_response_time_is_that_of_its_header(
    headers: &HeaderMap<HeaderValue>,
    timestamp: Option<u64>,
    text: &str,
    spelled: Option<u64>,
)
    requires
        call_ensures(signal_response_timestamp, (headers,), timestamp),
        call_ensures(timestamp_from_text, (Some(text),), spelled),
    ensures
        !header_fields(*headers).contains_key("x-signal-timestamp"@) ==> timestamp is None,
        header_fields(*headers).contains_key("x-signal-timestamp"@) ==> {
            let bytes = header_fields(*headers)["x-signal-timestamp"@];
            &&& (exists|i: int|
                0 <= i < bytes.len() && ((#[trigger] bytes[i]) < 32 && bytes[i] != 9 || bytes[i]
                    >= 127)) ==> timestamp is None
            &&& (forall|i: int| 0 <= i < bytes.len() ==> 32 <= (#[trigger] bytes[i]) < 127)
                && text@.len() == bytes.len() && (forall|i: int|
                0 <= i < bytes.len() ==> text@[i] == (#[trigger] bytes[i]) as char) ==> timestamp
                == spelled
        },
{
    if header_fields(*headers).contains_key("x-signal-timestamp"@) {
        let bytes = header_fields(*headers)["x-signal-timestamp"@];
        if exists|i: int|
            0 <= i < bytes.len() && ((#[trigger] bytes[i]) < 32 && bytes[i] != 9 || bytes[i]
                >= 127) {
            let i = choose|i: int|
                0 <= i < bytes.len() && ((#[trigger] bytes[i]) < 32 && bytes[i] != 9 || bytes[i]
                    >= 127);
            assert(!is_visible_ascii(bytes[i]));
        }
        if (forall|i: int| 0 <= i < bytes.len() ==> 32 <= (#[trigger] bytes[i]) < 127)
            && text@.len() == bytes.len() && (forall|i: int|
            0 <= i < bytes.len() ==> text@[i] == (#[trigger] bytes[i]) as char) {
            assert(all_visible_ascii(bytes));
            assert(ascii_text(bytes) =~= text@);
        }
    }
}

/// A digit spells its number, and a digit behind a number spells ten times the number and the digit,
/// as far as that is a number of 64 bits. What holds anything but digits spells no number.
pub proof fn law_digits_spell_a_number(
    shorter: &str,
    longer: &str,
    digit: u8,
    short: Option<u64>,
    long: Option<u64>,
)
    requires
        call_ensures(timestamp_from_text, (Some(shorter),), short),
        call_ensures(timestamp_from_text, (Some(longer),), long),
        digit <= 9,
        longer@ == shorter@.push(('0' as u8 + digit) as char),
    ensures
        shorter@.len() == 0 ==> short is None && long == Some(digit as u64),
        short matches Some(number) ==> (if number * 10 + digit <= u64::MAX {
            long matches Some(n) && n == number * 10 + digit
        } else {
            long is None
        }),
        (exists|i: int| 1 <= i < shorter@.len() && !('0' <= (#[trigger] shorter@[i]) <= '9'))
            ==> short is None && long is None,
{
    let c = ('0' as u8 + digit) as char;
    assert(longer@.last() == c && is_digit(c) && c as nat - '0' as nat == digit);
    assert(longer@.drop_last() =~= shorter@);
    if shorter@.len() == 0 {
        assert(longer@ =~= seq![c]);
        assert(longer@[0] == c);
        assert(unsigned_digits(longer@) =~= longer@);
        assert(decimal_value(shorter@) == 0);
        assert(decimal_value(longer@) == digit);
        assert(unsigned_digits(shorter@) =~= shorter@);
    } else {
        let few = unsigned_digits(shorter@);
        let more = unsigned_digits(longer@);
        assert(more =~= few.push(c));
        assert(more.drop_last() =~= few);
        if short is Some {
            assert forall|i: int| 0 <= i < more.len() implies is_digit(#[trigger] more[i]) by {
                if i < few.len() {
                    assert(more[i] == few[i]);
                }
            }
        }
        if exists|i: int| 1 <= i < shorter@.len() && !('0' <= (#[trigger] shorter@[i]) <= '9') {
            let i = choose|i: int|
                1 <= i < shorter@.len() && !('0' <= (#[trigger] shorter@[i]) <= '9');
            let at = if shorter@[0] == '+' {
                i - 1
            } else {
                i
            };
            assert(few[at] == shorter@[i] && more[at] == shorter@[i]);
            assert(!is_digit(few[at]) && !is_digit(more[at]));
        }
    }
}

/// The error for a response tells its status and the start of its body, as much of it as fits, except
/// that refused credentials are told as such.
pub proof fn law_error_keeps_the_start_of_the_body(status: u16, body: &str, error: ServiceError)
    requires
        call_ensures(groups_v2_response_error, (status, body), error),
    ensures
        error is Unauthorized <==> status == 401,
        status != 401 ==> (error matches ServiceError::UnhandledResponseCode {
            status: told,
            body: kept,
        } && {
            &&& told == status
            &&& kept@.len() == if body@.len() < 1024 {
                body@.len()
            } else {
                1024
            }
            &&& forall|i: int| 0 <= i < kept@.len() ==> #[trigger] kept@[i] == body@[i]
        }),
{
}

} // verus!
