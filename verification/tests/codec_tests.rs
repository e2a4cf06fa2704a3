use schedule::auth::{ScheduleCredentials, SessionIsh};
use schedule::errors::AppError;
use schedule::s24::Timetable;

fn session(cookies: &str, scope: &str, person: &str, unit: &str) -> SessionIsh {
    SessionIsh {
        credentials: ScheduleCredentials {
            cookies: cookies.to_owned(),
            scope: scope.to_owned(),
        },
        timetable: Timetable {
            person_guid: person.to_owned(),
            unit_guid: unit.to_owned(),
        },
    }
}

fn assert_round_trip(cookies: &str, scope: &str, person: &str, unit: &str) {
    let s = session(cookies, scope, person, unit);
    let encoded = s.encrypt();
    let back = SessionIsh::decrypt(&encoded).unwrap();
    assert_eq!(back.credentials.cookies, cookies);
    assert_eq!(back.credentials.scope, scope);
    assert_eq!(back.timetable.person_guid, person);
    assert_eq!(back.timetable.unit_guid, unit);
}

#[test]
fn round_trip_plain_fields() {
    assert_round_trip(
        "SMSESSION=abc123; fnsid=xyz",
        "8a22163c-8662-4535-9050-bc5e1923df48",
        "ZmFrZQ==",
        "unit-1",
    );
}

#[test]
fn round_trip_empty_fields() {
    assert_round_trip("", "", "", "");
}

#[test]
fn round_trip_separator_and_escape_characters() {
    assert_round_trip("a|b\\c||", "\\", "|", "\\|\\");
}

#[test]
fn round_trip_unicode() {
    assert_round_trip("kaka=sant", "räksmörgås", "Ångström", "skola24|Städer\\öar");
}

#[test]
fn encoding_has_expected_shape() {
    let s = session("a|b", "c\\", "p", "u");
    assert_eq!(s.encrypt(), "a\\|b|c\\\\|p|u");
}

#[test]
fn decrypt_rejects_too_few_fields() {
    assert_eq!(SessionIsh::decrypt("a|b|c").unwrap_err(), AppError::InvalidToken);
}

#[test]
fn decrypt_rejects_too_many_fields() {
    assert_eq!(SessionIsh::decrypt("a|b|c|d|e").unwrap_err(), AppError::InvalidToken);
}

#[test]
fn decrypt_rejects_trailing_backslash() {
    assert_eq!(SessionIsh::decrypt("a|b|c|d\\").unwrap_err(), AppError::InvalidToken);
}

#[test]
fn decrypt_reads_escapes() {
    let s = SessionIsh::decrypt("a\\|b|c\\\\|p|u").unwrap();
    assert_eq!(s.credentials.cookies, "a|b");
    assert_eq!(s.credentials.scope, "c\\");
    assert_eq!(s.timetable.person_guid, "p");
    assert_eq!(s.timetable.unit_guid, "u");
}
