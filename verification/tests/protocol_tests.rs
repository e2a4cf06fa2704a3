use schedule::auth::{finish_credentials, ScheduleCredentials};
use schedule::errors::AppError;
use schedule::s24::{
    decode_render_key_response, decode_timetables_response, render_timetable_request,
    timetables_request, Timetable,
};

#[test]
fn directory_response_yields_timetables_in_order() {
    let body = r#"{
        "data": {
            "getPersonalTimetablesResponse": {
                "studentTimetables": [
                    {
                        "firstName": "Ada",
                        "personGuid": "person-1",
                        "unitGuid": "unit-1"
                    },
                    {
                        "personGuid": "person-2",
                        "unitGuid": "unit-2"
                    }
                ]
            }
        }
    }"#;
    let ts = decode_timetables_response(body).unwrap();
    assert_eq!(ts.len(), 2);
    assert_eq!(ts[0].person_guid, "person-1");
    assert_eq!(ts[0].unit_guid, "unit-1");
    assert_eq!(ts[1].person_guid, "person-2");
}

#[test]
fn directory_envelope_of_the_wrong_shape_is_a_protocol_error() {
    for body in [
        "{}",
        r#"{"data":{}}"#,
        r#"{"data":{"getPersonalTimetablesResponse":{}}}"#,
        r#"{"data":{"getPersonalTimetablesResponse":{"studentTimetables":[{"personGuid":"p"}]}}}"#,
        r#"{"data":{"getPersonalTimetablesResponse":{"studentTimetables":[{"personGuid":7,"unitGuid":"u"}]}}}"#,
        r#"{"data":{"getPersonalTimetablesResponse":{"studentTimetables":[{"personGuid":"","unitGuid":"u"}]}}}"#,
        "][",
    ] {
        assert_eq!(
            decode_timetables_response(body).unwrap_err(),
            AppError::ProtocolError,
            "body {:?}",
            body
        );
    }
}

#[test]
fn render_key_is_unwrapped() {
    let body = r#"{"data":{"key":"one-time-key"}}"#;
    assert_eq!(decode_render_key_response(body).unwrap(), "one-time-key");
}

#[test]
fn missing_render_key_is_a_protocol_error() {
    for body in ["{}", r#"{"data":{}}"#, r#"{"data":{"key":5}}"#] {
        assert_eq!(
            decode_render_key_response(body).unwrap_err(),
            AppError::ProtocolError
        );
    }
}

#[test]
fn render_request_carries_the_fixed_protocol_constants() {
    let t = Timetable {
        person_guid: "person-1".to_owned(),
        unit_guid: "unit-1".to_owned(),
    };
    let req = render_timetable_request(&t, "key-1".to_owned(), 27, 2021);
    assert_eq!(req.render_key, "key-1");
    assert_eq!(req.host, "fns.stockholm.se");
    assert_eq!(req.unit_guid, "unit-1");
    assert_eq!(req.width, 732);
    assert_eq!(req.height, 550);
    assert_eq!(req.selection_type, 5);
    assert_eq!(req.selection, "person-1");
    assert_eq!(req.week, 27);
    assert_eq!(req.year, 2021);
}

#[test]
fn directory_request_names_the_fixed_host() {
    assert_eq!(timetables_request().host_name, "fns.stockholm.se");
}

#[test]
fn credential_headers_carry_cookie_and_scope() {
    let creds = ScheduleCredentials {
        cookies: "SMSESSION=abc".to_owned(),
        scope: "8a22163c".to_owned(),
    };
    let headers = creds.as_headers();
    assert_eq!(headers.len(), 2);
    assert_eq!(headers[0].0, "Cookie");
    assert_eq!(headers[0].1, "SMSESSION=abc");
    assert_eq!(headers[1].0, "X-Scope");
    assert_eq!(headers[1].1, "8a22163c");
}

#[test]
fn empty_or_absent_cookies_are_an_internal_error() {
    assert_eq!(
        finish_credentials("scope".to_owned(), None).unwrap_err(),
        AppError::InternalError
    );
    assert_eq!(
        finish_credentials("scope".to_owned(), Some(String::new())).unwrap_err(),
        AppError::InternalError
    );
}

#[test]
fn error_messages_distinguish_client_correctable_failures() {
    assert_eq!(AppError::InvalidUsernamePassword.message(), "authentication failed");
    assert_eq!(AppError::InvalidToken.message(), "invalid token");
    assert_eq!(AppError::NetworkError.message(), "http error");
    assert_eq!(AppError::ScrapingError.message(), "internal server error");
}

#[test]
fn status_codes_follow_the_error_taxonomy() {
    assert_eq!(AppError::InvalidUsernamePassword.status_code(), 400);
    assert_eq!(AppError::InvalidToken.status_code(), 401);
    assert_eq!(AppError::NetworkError.status_code(), 500);
    assert_eq!(AppError::InternalError.status_code(), 500);
    assert_eq!(AppError::ScrapingError.status_code(), 500);
    assert_eq!(AppError::ProtocolError.status_code(), 500);
    assert_eq!(AppError::ParseError.status_code(), 500);
}
