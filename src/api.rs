//! Plain request and response records of the identifier operations, and the
//! mapping from an error to what a caller is told.

use vstd::prelude::*;
use crate::did::DIDDocument;
use crate::types::{Error, ErrorKind};

verus! {

/// A request to create an identifier.
#[derive(Debug)]
pub struct CreateDIDRequest {
    /// Signing-key material, Base58.
    pub signing_key: String,
}

/// A request to replace an identifier's document.
#[derive(Debug)]
pub struct UpdateDIDRequest {
    /// Signing-key material, Base58.
    pub signing_key: String,
    /// The proposed document.
    pub document: DIDDocument,
}

/// A request to deactivate an identifier.
#[derive(Debug)]
pub struct DeactivateDIDRequest {
    /// Signing-key material, Base58.
    pub signing_key: String,
}

/// What a caller is told of a failure: a message and a status code.
#[derive(Debug)]
pub struct ApiError {
    pub message: String,
    pub code: u16,
}

/// The outcome of an operation as a caller receives it.
#[derive(Debug)]
pub struct ApiResponse<T> {
    pub success: bool,
    pub data: Option<T>,
    pub error: Option<ApiError>,
}

/// State shared by the request handlers.
#[derive(Clone, Copy, Debug)]
pub struct AppState {}

/// The status code of an error kind: 404, 400, 401 and 409 for a missing
/// identifier, bad input, failed proof of control and an inactive identifier;
/// 500 for every failure below the engine.
pub open spec fn status_code_of(k: ErrorKind) -> u16 {
    match k {
        ErrorKind::NotFound => 404,
        ErrorKind::InvalidInput => 400,
        ErrorKind::Unauthorized => 401,
        ErrorKind::InvalidState => 409,
        _ => 500,
    }
}

/// The message a caller is told: the error's own message for the four kinds
/// of engine failures, prefixed with the kind's name for the others.
pub open spec fn api_message_of(e: Error) -> Seq<char> {
    match e {
        Error::NotFound(m) => m@,
        Error::InvalidInput(m) => m@,
        Error::Unauthorized(m) => m@,
        Error::InvalidState(m) => m@,
        Error::DatabaseError(m) => "Database error: "@ + m@,
        Error::BlockchainError(m) => "Blockchain error: "@ + m@,
        Error::CryptoError(m) => "Crypto error: "@ + m@,
        Error::SerializationError(m) => "Serialization error: "@ + m@,
        Error::NetworkError(m) => "Network error: "@ + m@,
        Error::InternalError(m) => "Internal error: "@ + m@,
    }
}

impl ApiError {
    /// What a caller is told of an error.
    pub fn from(err: Error) -> (r: ApiError)
        ensures
            r.code == status_code_of(err.spec_kind()),
            r.message@ == api_message_of(err),
    {
        let (message, code) = match err {
            Error::NotFound(msg) => (msg, 404u16),
            Error::InvalidInput(msg) => (msg, 400u16),
            Error::Unauthorized(msg) => (msg, 401u16),
            Error::InvalidState(msg) => (msg, 409u16),
            Error::DatabaseError(msg) => ("Database error: ".to_owned().concat(msg.as_str()), 500u16),
            Error::BlockchainError(msg) => (
                "Blockchain error: ".to_owned().concat(msg.as_str()),
                500u16,
            ),
            Error::CryptoError(msg) => ("Crypto error: ".to_owned().concat(msg.as_str()), 500u16),
            Error::SerializationError(msg) => (
                "Serialization error: ".to_owned().concat(msg.as_str()),
                500u16,
            ),
            Error::NetworkError(msg) => ("Network error: ".to_owned().concat(msg.as_str()), 500u16),
            Error::InternalError(msg) => (
                "Internal error: ".to_owned().concat(msg.as_str()),
                500u16,
            ),
        };
        ApiError { message, code }
    }
}

impl<T> ApiResponse<T> {
    /// A successful response carrying `data`.
    pub fn ok(data: T) -> (r: Self)
        ensures
            r.success,
            r.data == Some(data),
            r.error is None,
    {
        ApiResponse { success: true, data: Some(data), error: None }
    }

    /// A failed response carrying what the caller is told of `err`.
    pub fn failure(err: Error) -> (r: Self)
        ensures
            !r.success,
            r.data is None,
            r.error matches Some(a) && a.code == status_code_of(err.spec_kind()) && a.message@
                == api_message_of(err),
    {
        ApiResponse { success: false, data: None, error: Some(ApiError::from(err)) }
    }
}

} // verus!
