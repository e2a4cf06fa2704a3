//! The error taxonomy of the library.
//!
//! Every failure of the pipeline or of the retrieval protocol is one of
//! these kinds. Authentication failures are the only client-correctable
//! outcome; everything else surfaces as an opaque server-side error.

use vstd::prelude::*;

verus! {

/// What can go wrong anywhere in the session pipeline or the lesson
/// protocol.
///
/// - `NetworkError`: a transport failure; never retried here.
/// - `InternalError`: a malfunction on our own side (an empty cookie jar
///   after a finished handshake, a failed token signature).
/// - `ScrapingError`: an upstream page did not have the expected shape.
/// - `ProtocolError`: an upstream JSON envelope did not have the expected
///   shape.
/// - `InvalidUsernamePassword`: the identity provider rejected the
///   credentials; the one explicitly recognized negative outcome.
/// - `InvalidToken`: a malformed, tampered or expired session token.
/// - `ParseError`: a lesson wire record was malformed.
#[derive(Clone, Copy, Debug, PartialEq, Eq, Structural)]
pub enum AppError {
    NetworkError,
    InternalError,
    ScrapingError,
    ProtocolError,
    InvalidUsernamePassword,
    InvalidToken,
    ParseError,
}

impl AppError {
    /// The HTTP status that the web front end answers with for this error:
    /// bad credentials are the client's fault, a bad token means the client
    /// is unauthorized, and everything else is an opaque server error.
    pub fn status_code(&self) -> (code: u16)
        ensures
            code == self.spec_status_code(),
    {
        match self {
            AppError::InvalidUsernamePassword => 400,
            AppError::InvalidToken => 401,
            AppError::NetworkError => 500,
            AppError::InternalError => 500,
            AppError::ScrapingError => 500,
            AppError::ProtocolError => 500,
            AppError::ParseError => 500,
        }
    }

    /// The status mapping, as a mathematical function.
    pub open spec fn spec_status_code(&self) -> u16 {
        match self {
            AppError::InvalidUsernamePassword => 400,
            AppError::InvalidToken => 401,
            _ => 500,
        }
    }

    /// A short human-readable description for the web front end's
    /// responses.
    pub fn message(&self) -> (m: &'static str)
        ensures
            self is InvalidUsernamePassword ==> m@ == "authentication failed"@,
            self is InvalidToken ==> m@ == "invalid token"@,
            self is NetworkError ==> m@ == "http error"@,
            self is InternalError || self is ScrapingError || self is ProtocolError
                || self is ParseError ==> m@ == "internal server error"@,
    {
        match self {
            AppError::NetworkError => "http error",
            AppError::InternalError => "internal server error",
            AppError::ScrapingError => "internal server error",
            AppError::ProtocolError => "internal server error",
            AppError::InvalidUsernamePassword => "authentication failed",
            AppError::InvalidToken => "invalid token",
            AppError::ParseError => "internal server error",
        }
    }
}

/// The result type every fallible operation of the library uses.
pub type AppResult<T> = Result<T, AppError>;

} // verus!
