//! The bearer-token boundary.
//!
//! A session travels to the client as the `data` claim of a short-lived
//! signed token (symmetric key, 15-minute expiry). Signing and
//! verification are done by `jsonwebtoken` behind two trusted wrappers;
//! issuing, opening and the choice of the session's timetable are
//! verified here. Opening a token does no I/O: a tampered or expired
//! token is rejected before anything touches the network.

use vstd::prelude::*;

use crate::auth::{ScheduleCredentials, SessionIsh};
use crate::codec::{spec_decode, spec_encode};
use crate::errors::{AppError, AppResult};
use crate::s24::Timetable;

verus! {

/// How long an issued session token lives, in seconds.
pub const TOKEN_LIFETIME_SECONDS: i64 = 900;

/// The signed token that `jsonwebtoken` produces for the claims
/// `{data, exp}` under HS256 with the given symmetric secret. HMAC
/// signing is deterministic: a function of the arguments alone.
pub uninterp spec fn jwt_token_of(data: Seq<char>, exp: int, secret: Seq<u8>) -> Seq<char>;

/// The `data` claim in a token's payload, when the token is a
/// well-formed JWT whose payload carries a string `data` claim: a
/// function of the token text alone. Whether verification accepts the
/// token also depends on the secret and the clock; the claim's value
/// does not.
pub uninterp spec fn jwt_data_of(token: Seq<char>) -> Option<Seq<char>>;

/// Relies on jsonwebtoken's `encode` with `Header::new(Algorithm::HS256)`
/// and `EncodingKey::from_secret`: signs the claims `{data, exp}`. This
/// call cannot fail: the key family always matches HS256, HMAC-SHA256
/// accepts a key of any length and signs infallibly, and the header and
/// the string/integer claims always serialize.
#[verifier::external_body]
fn jwt_encode(data: &str, exp: i64, secret: &[u8]) -> (r: String)
    ensures
        r@ == jwt_token_of(data@, exp as int, secret@),
{
    let mut claims = serde_json::Map::new();
    claims.insert("data".to_owned(), serde_json::Value::String(data.to_owned()));
    claims.insert("exp".to_owned(), serde_json::Value::Number(exp.into()));
    let header = jsonwebtoken::Header::new(jsonwebtoken::Algorithm::HS256);
    let key = jsonwebtoken::EncodingKey::from_secret(secret);
    jsonwebtoken::encode(&header, &serde_json::Value::Object(claims), &key)
        .expect("HS256 signing with a raw secret cannot fail")
}

/// Relies on jsonwebtoken's `decode::<serde_json::Value>` with
/// `Validation::new(Algorithm::HS256)` and `DecodingKey::from_secret`:
/// verifies the signature against the secret and the `exp` claim against
/// the clock, then yields the `data` claim. Success depends on the
/// clock; the yielded value, when there is one, is the token's own
/// `data` claim.
#[verifier::external_body]
fn jwt_decode_data(token: &str, secret: &[u8]) -> (r: Option<String>)
    ensures
        r matches Some(d) ==> jwt_data_of(token@) == Some(d@),
{
    let key = jsonwebtoken::DecodingKey::from_secret(secret);
    let validation = jsonwebtoken::Validation::new(jsonwebtoken::Algorithm::HS256);
    let decoded = jsonwebtoken::decode::<serde_json::Value>(token, &key, &validation).ok()?;
    decoded.claims.get("data")?.as_str().map(|s| s.to_owned())
}

/// Builds the session that the authentication boundary hands out: the
/// harvested credentials together with the first timetable the directory
/// returned — the deterministic choice when an account has several. A
/// directory that returned none at all is a malfunction.
pub fn build_session(credentials: ScheduleCredentials, timetables: Vec<Timetable>) -> (r:
    AppResult<SessionIsh>)
    ensures
        match r {
            Ok(s) => timetables@.len() > 0 && s@.credentials == credentials@ && s@.timetable
                == timetables@[0]@,
            Err(e) => e == AppError::InternalError && timetables@.len() == 0,
        },
{
    let mut timetables = timetables;
    if timetables.len() == 0 {
        return Err(AppError::InternalError);
    }
    let first = timetables.remove(0);
    Ok(SessionIsh { credentials, timetable: first })
}

/// Issues the signed bearer token for a session: the encoded session as
/// the `data` claim, expiring one token lifetime after `now` (seconds
/// since the epoch). Issuing always succeeds: every session encodes, and
/// HS256 signing with a raw secret cannot fail.
pub fn issue_session_token(session: &SessionIsh, now: i64, secret: &[u8]) -> (r: AppResult<
    String,
>)
    requires
        now + TOKEN_LIFETIME_SECONDS <= i64::MAX,
    ensures
        r matches Ok(t) && t@ == jwt_token_of(
            spec_encode(session@),
            now as int + TOKEN_LIFETIME_SECONDS,
            secret@,
        ),
{
    let data = session.encrypt();
    Ok(jwt_encode(data.as_str(), now + TOKEN_LIFETIME_SECONDS, secret))
}

/// Opens a bearer token back into a session, without any I/O: anything
/// that does not verify as a fresh, untampered token carrying an encoded
/// session is an invalid token.
pub fn open_session_token(token: &str, secret: &[u8]) -> (r: AppResult<SessionIsh>)
    ensures
        match r {
            Ok(s) => jwt_data_of(token@) matches Some(d) && spec_decode(d) == Some(s@),
            Err(e) => e == AppError::InvalidToken,
        },
{
    let data = match jwt_decode_data(token, secret) {
        Some(d) => d,
        None => {
            return Err(AppError::InvalidToken);
        },
    };
    match SessionIsh::decrypt(data.as_str()) {
        Ok(s) => Ok(s),
        Err(_) => Err(AppError::InvalidToken),
    }
}

} // verus!
