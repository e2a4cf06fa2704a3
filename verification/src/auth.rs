//! The SSO authentication pipeline.
//!
//! A fixed sequence of HTTP exchanges turns a username and password into
//! `ScheduleCredentials`. The exchanges themselves are I/O and live with
//! the caller; every decision between them — which link to follow next,
//! which form to re-submit, when a missing form means a rejected password
//! and when it means upstream markup drift — is a verified step function
//! here. The caller owns one cookie jar for the whole sequence; the jar's
//! accumulated cookies become `ScheduleCredentials.cookies` at the end.

use vstd::prelude::*;

use crate::errors::{AppError, AppResult};
use crate::s24::{Timetable, TimetableView};
use crate::util::{
    attr_of, extract_form_fields, form_inputs_of, form_set, kept_fields, map_of, parse_html_form,
    select_first_attr, unique_keys,
};

verus! {

/// What the pipeline is for: the full `Cookie:` header value accumulated
/// for the application's origin, and the opaque per-tenant scope token
/// scraped from the application shell. Both go with every later API call.
#[derive(Debug)]
pub struct ScheduleCredentials {
    pub cookies: String,
    pub scope: String,
}

/// The mathematical content of `ScheduleCredentials`.
pub ghost struct ScheduleCredentialsView {
    pub cookies: Seq<char>,
    pub scope: Seq<char>,
}

impl View for ScheduleCredentials {
    type V = ScheduleCredentialsView;

    open spec fn view(&self) -> ScheduleCredentialsView {
        ScheduleCredentialsView { cookies: self.cookies@, scope: self.scope@ }
    }
}

impl ScheduleCredentials {
    /// The header pairs that authenticate an API call: the cookie header
    /// and the tenant scope header.
    pub fn as_headers(&self) -> (r: Vec<(String, String)>)
        ensures
            r.deep_view() =~= seq![("Cookie"@, self@.cookies), ("X-Scope"@, self@.scope)],
    {
        let mut r: Vec<(String, String)> = Vec::new();
        r.push(("Cookie".to_owned(), self.cookies.clone()));
        r.push(("X-Scope".to_owned(), self.scope.clone()));
        r
    }
}

/// Everything a later lesson request needs, bundled for transport inside
/// a bearer token: the harvested credentials and the chosen timetable.
#[derive(Debug)]
pub struct SessionIsh {
    pub credentials: ScheduleCredentials,
    pub timetable: Timetable,
}

/// The mathematical content of a `SessionIsh`.
pub ghost struct SessionIshView {
    pub credentials: ScheduleCredentialsView,
    pub timetable: TimetableView,
}

impl View for SessionIsh {
    type V = SessionIshView;

    open spec fn view(&self) -> SessionIshView {
        SessionIshView { credentials: self.credentials@, timetable: self.timetable@ }
    }
}

/// The SSO entry point that starts the sequence, with the fixed query
/// naming the target system.
pub fn auth_entry_url() -> (r: &'static str)
    ensures
        r@
            == "https://fnsservicesso1.stockholm.se/sso-ng/saml-2.0/authenticate?customer=https://login001.stockholm.se&targetsystem=TimetableViewer"@,
{
    "https://fnsservicesso1.stockholm.se/sso-ng/saml-2.0/authenticate?customer=https://login001.stockholm.se&targetsystem=TimetableViewer"
}

/// The base the scraped relative links of the login flow resolve against.
pub open spec fn login_forms_base() -> Seq<char> {
    "https://login001.stockholm.se/siteminderagent/forms/"@
}

/// The identity provider's login endpoint, target of the credentials form.
pub fn login_fcc_url() -> (r: &'static str)
    ensures
        r@ == "https://login001.stockholm.se/siteminderagent/forms/login.fcc"@,
{
    "https://login001.stockholm.se/siteminderagent/forms/login.fcc"
}

/// The SAML assertion-consumer endpoint.
pub fn saml_sso_url() -> (r: &'static str)
    ensures
        r@ == "https://login001.stockholm.se/affwebservices/public/saml2sso"@,
{
    "https://login001.stockholm.se/affwebservices/public/saml2sso"
}

/// The endpoint that finalizes the federation handshake; its response body
/// is discarded, only its cookie effect matters.
pub fn saml_response_url() -> (r: &'static str)
    ensures
        r@ == "https://fnsservicesso1.stockholm.se/sso-ng/saml-2.0/response"@,
{
    "https://fnsservicesso1.stockholm.se/sso-ng/saml-2.0/response"
}

/// The authenticated timetable-viewer landing page that carries the scope
/// widget.
pub fn viewer_url() -> (r: &'static str)
    ensures
        r@ == "https://fns.stockholm.se/ng/timetable/timetable-viewer/fns.stockholm.se/"@,
{
    "https://fns.stockholm.se/ng/timetable/timetable-viewer/fns.stockholm.se/"
}

/// The application origin whose cookies become the credentials.
pub fn cookie_origin_url() -> (r: &'static str)
    ensures
        r@ == "https://fns.stockholm.se"@,
{
    "https://fns.stockholm.se"
}

/// Resolves a relative `href` scraped from a login page against the login
/// forms base.
fn resolve_login_href(href: &str) -> (r: String)
    ensures
        r@ == login_forms_base() + href@,
{
    let base: String = "https://login001.stockholm.se/siteminderagent/forms/".to_owned();
    base.concat(href)
}

/// Step one of the sequence: on the SSO entry page, find the navigation
/// button and resolve where it leads. A page without the button means the
/// upstream markup changed.
pub fn step_entry_page(body: &str) -> (r: AppResult<String>)
    ensures
        match r {
            Ok(url) => attr_of(body@, "a.navBtn"@, "href"@) matches Some(h) && url@
                == login_forms_base() + h,
            Err(e) => e == AppError::ScrapingError && attr_of(body@, "a.navBtn"@, "href"@)
                is None,
        },
{
    match select_first_attr(body, "a.navBtn", "href") {
        Some(href) => Ok(resolve_login_href(href.as_str())),
        None => Err(AppError::ScrapingError),
    }
}

/// Step two: on the page behind the navigation button, find the alternate
/// login link and resolve where it leads.
pub fn step_nav_page(body: &str) -> (r: AppResult<String>)
    ensures
        match r {
            Ok(url) => attr_of(body@, "a.beta"@, "href"@) matches Some(h) && url@
                == login_forms_base() + h,
            Err(e) => e == AppError::ScrapingError && attr_of(body@, "a.beta"@, "href"@) is None,
        },
{
    match select_first_attr(body, "a.beta", "href") {
        Some(href) => Ok(resolve_login_href(href.as_str())),
        None => Err(AppError::ScrapingError),
    }
}

/// Step three: capture the first form of the login page — the hidden
/// SSO state that must be echoed back — and fill in the user's
/// credentials and an empty submit field. The result is the body to POST
/// to the login endpoint.
pub fn step_login_form(body: &str, username: &str, password: &str) -> (r: AppResult<
    Vec<(String, String)>,
>)
    ensures
        match r {
            Ok(fields) => form_inputs_of(body@) matches Some(rows) && unique_keys(
                fields.deep_view(),
            ) && map_of(fields.deep_view()) == map_of(kept_fields(rows)).insert(
                "user"@,
                username@,
            ).insert("password"@, password@).insert("submit"@, ""@),
            Err(e) => e == AppError::ScrapingError && form_inputs_of(body@) is None,
        },
{
    let rows = match parse_html_form(body) {
        Some(rows) => rows,
        None => {
            return Err(AppError::ScrapingError);
        },
    };
    let mut fields = extract_form_fields(&rows);
    form_set(&mut fields, "user".to_owned(), username.to_owned());
    form_set(&mut fields, "password".to_owned(), password.to_owned());
    form_set(&mut fields, "submit".to_owned(), "".to_owned());
    Ok(fields)
}

/// Steps four and five: after POSTing credentials (and again after the
/// SAML hop), the continuation form of the response must be re-submitted
/// unchanged. A response without any form is the identity provider's
/// rejection page — the one unambiguous wrong-credentials signal — and
/// is reported as such, never as a scraping failure.
pub fn step_login_response(body: &str) -> (r: AppResult<Vec<(String, String)>>)
    ensures
        match r {
            Ok(fields) => form_inputs_of(body@) matches Some(rows) && unique_keys(
                fields.deep_view(),
            ) && map_of(fields.deep_view()) == map_of(kept_fields(rows)),
            Err(e) => e == AppError::InvalidUsernamePassword && form_inputs_of(body@) is None,
        },
{
    match parse_html_form(body) {
        Some(rows) => Ok(extract_form_fields(&rows)),
        None => Err(AppError::InvalidUsernamePassword),
    }
}

/// Step six: on the authenticated viewer landing page, read the tenant
/// scope off the application shell's widget element. A widget without
/// the attribute — or with an empty one, which no later API call could
/// authenticate with — means the upstream markup changed.
pub fn step_scope_page(body: &str) -> (r: AppResult<String>)
    ensures
        match r {
            Ok(scope) => attr_of(body@, "nova-widget"@, "scope"@) == Some(scope@) && scope@.len()
                > 0,
            Err(e) => e == AppError::ScrapingError && match attr_of(
                body@,
                "nova-widget"@,
                "scope"@,
            ) {
                Some(s) => s.len() == 0,
                None => true,
            },
        },
{
    match select_first_attr(body, "nova-widget", "scope") {
        Some(scope) => {
            if scope.as_str().is_empty() {
                Err(AppError::ScrapingError)
            } else {
                Ok(scope)
            }
        },
        None => Err(AppError::ScrapingError),
    }
}

/// The last step: pair the scraped scope with the cookies the caller's
/// jar accumulated for the application origin. A jar that reports no
/// cookie at all for that origin after a finished handshake is a
/// malfunction on our side; successful credentials always carry a
/// non-empty cookie string.
pub fn finish_credentials(scope: String, cookies: Option<String>) -> (r: AppResult<
    ScheduleCredentials,
>)
    ensures
        match r {
            Ok(c) => cookies matches Some(s) && s@.len() > 0 && c@.cookies == s@ && c@.scope
                == scope@,
            Err(e) => e == AppError::InternalError && match cookies {
                Some(s) => s@.len() == 0,
                None => true,
            },
        },
{
    match cookies {
        Some(s) => {
            if s.as_str().unicode_len() == 0 {
                Err(AppError::InternalError)
            } else {
                Ok(ScheduleCredentials { cookies: s, scope })
            }
        },
        None => Err(AppError::InternalError),
    }
}

} // verus!
