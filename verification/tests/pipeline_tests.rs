//! Drives the whole session-acquisition and lesson-retrieval sequence
//! against fixture pages and envelopes, the way the HTTP driver does,
//! checking every hand-off in between.

use std::time::{SystemTime, UNIX_EPOCH};

use schedule::auth::{
    finish_credentials, step_entry_page, step_login_form, step_login_response, step_nav_page,
    step_scope_page,
};
use schedule::lessons_from_render_response;
use schedule::s24::{decode_render_key_response, decode_timetables_response};
use schedule::token::{build_session, issue_session_token, open_session_token};

fn lookup<'a>(fields: &'a [(String, String)], key: &str) -> Option<&'a str> {
    fields.iter().find(|(k, _)| k == key).map(|(_, v)| v.as_str())
}

#[test]
fn full_pipeline_on_fixture_pages() {
    // Step 1: the SSO entry page carries the navigation button.
    let entry_page = r#"<html><a class="navBtn" href="nav.jsp?customer=x">To login</a></html>"#;
    let nav_url = step_entry_page(entry_page).unwrap();
    assert_eq!(
        nav_url,
        "https://login001.stockholm.se/siteminderagent/forms/nav.jsp?customer=x"
    );

    // Step 2: the page behind it carries the alternate login link.
    let nav_page = r#"<html><a class="beta" href="loginForm.jsp">Ny inloggning</a></html>"#;
    let login_url = step_nav_page(nav_page).unwrap();
    assert_eq!(
        login_url,
        "https://login001.stockholm.se/siteminderagent/forms/loginForm.jsp"
    );

    // Step 3: the login page's hidden state is captured and the
    // credentials are filled in.
    let login_page = r#"<form method="post" action="login.fcc">
        <input type="hidden" name="SMENC" value="ISO-8859-1">
        <input type="hidden" name="target" value="viewer">
    </form>"#;
    let login_body = step_login_form(login_page, "ada", "hunter2").unwrap();
    assert_eq!(lookup(&login_body, "SMENC"), Some("ISO-8859-1"));
    assert_eq!(lookup(&login_body, "target"), Some("viewer"));
    assert_eq!(lookup(&login_body, "user"), Some("ada"));
    assert_eq!(lookup(&login_body, "password"), Some("hunter2"));
    assert_eq!(lookup(&login_body, "submit"), Some(""));

    // Steps 4 and 5: each hop answers with a continuation form that is
    // re-submitted unchanged.
    let sso_page = r#"<form><input name="SAMLResponse" value="PHNpZ25lZD4="></form>"#;
    let sso_body = step_login_response(sso_page).unwrap();
    assert_eq!(lookup(&sso_body, "SAMLResponse"), Some("PHNpZ25lZD4="));
    let acs_page = r#"<form><input name="RelayState" value="viewer"></form>"#;
    let acs_body = step_login_response(acs_page).unwrap();
    assert_eq!(lookup(&acs_body, "RelayState"), Some("viewer"));

    // Step 6: the authenticated shell carries the tenant scope, and the
    // jar has accumulated cookies; successful credentials are non-empty.
    let viewer_page = r#"<html><nova-widget scope="8a22163c"></nova-widget></html>"#;
    let scope = step_scope_page(viewer_page).unwrap();
    let creds = finish_credentials(scope, Some("SMSESSION=abc; fnsid=1".to_owned())).unwrap();
    assert!(!creds.cookies.is_empty());
    assert!(!creds.scope.is_empty());

    // The directory lists at least one timetable; the first is chosen
    // and the session goes out as a bearer token.
    let directory_body = r#"{"data":{"getPersonalTimetablesResponse":{"studentTimetables":[
        {"personGuid":"person-1","unitGuid":"unit-1"}]}}}"#;
    let timetables = decode_timetables_response(directory_body).unwrap();
    assert!(!timetables.is_empty());
    let session = build_session(creds, timetables).unwrap();
    let epoch_now =
        SystemTime::now().duration_since(UNIX_EPOCH).unwrap().as_secs() as i64;
    let token = issue_session_token(&session, epoch_now, b"secret").unwrap();

    // On retrieval the token opens back into the session, the render key
    // is obtained, and the rendered week normalizes to lessons with the
    // hand-computed UTC instants.
    let session = open_session_token(&token, b"secret").unwrap();
    assert_eq!(session.credentials.cookies, "SMSESSION=abc; fnsid=1");
    assert_eq!(session.timetable.person_guid, "person-1");

    let key_body = r#"{"data":{"key":"render-key-1"}}"#;
    assert_eq!(decode_render_key_response(key_body).unwrap(), "render-key-1");

    let render_body = r#"{"data":{"lessonInfo":[
        {"texts":["Math","Ms. Smith","Room 4"],
         "timeStart":"08:00:00","timeEnd":"09:00:00","dayOfWeekNumber":1}]}}"#;
    let lessons = lessons_from_render_response(render_body, 2021, 27).unwrap();
    assert_eq!(lessons.len(), 1);
    // 2021-07-05 08:00–09:00 Stockholm summer time.
    assert_eq!(lessons[0].start, 1625464800);
    assert_eq!(lessons[0].end, 1625468400);
    assert_eq!(lessons[0].info.course, "Math");
    assert_eq!(lessons[0].info.teacher.as_deref(), Some("Ms. Smith"));
    assert_eq!(lessons[0].info.location.as_deref(), Some("Room 4"));
}
