//! Errors and the activity status of an identifier.

use vstd::prelude::*;

verus! {

/// What went wrong, with a human-readable message.
#[derive(Debug)]
pub enum Error {
    SerializationError(String),
    DatabaseError(String),
    BlockchainError(String),
    NotFound(String),
    Unauthorized(String),
    InvalidInput(String),
    InternalError(String),
    CryptoError(String),
    NetworkError(String),
    InvalidState(String),
}

/// The kind of an [`Error`], without its message.
#[derive(Debug, Clone, Copy, PartialEq, Eq, Structural)]
pub enum ErrorKind {
    SerializationError,
    DatabaseError,
    BlockchainError,
    NotFound,
    Unauthorized,
    InvalidInput,
    InternalError,
    CryptoError,
    NetworkError,
    InvalidState,
}

impl Error {
    /// The kind of this error.
    pub open spec fn spec_kind(&self) -> ErrorKind {
        match self {
            Error::SerializationError(_) => ErrorKind::SerializationError,
            Error::DatabaseError(_) => ErrorKind::DatabaseError,
            Error::BlockchainError(_) => ErrorKind::BlockchainError,
            Error::NotFound(_) => ErrorKind::NotFound,
            Error::Unauthorized(_) => ErrorKind::Unauthorized,
            Error::InvalidInput(_) => ErrorKind::InvalidInput,
            Error::InternalError(_) => ErrorKind::InternalError,
            Error::CryptoError(_) => ErrorKind::CryptoError,
            Error::NetworkError(_) => ErrorKind::NetworkError,
            Error::InvalidState(_) => ErrorKind::InvalidState,
        }
    }

    /// The kind of this error.
    #[verifier::when_used_as_spec(spec_kind)]
    pub fn kind(&self) -> (k: ErrorKind)
        ensures
            k == self.spec_kind(),
    {
        match self {
            Error::SerializationError(_) => ErrorKind::SerializationError,
            Error::DatabaseError(_) => ErrorKind::DatabaseError,
            Error::BlockchainError(_) => ErrorKind::BlockchainError,
            Error::NotFound(_) => ErrorKind::NotFound,
            Error::Unauthorized(_) => ErrorKind::Unauthorized,
            Error::InvalidInput(_) => ErrorKind::InvalidInput,
            Error::InternalError(_) => ErrorKind::InternalError,
            Error::CryptoError(_) => ErrorKind::CryptoError,
            Error::NetworkError(_) => ErrorKind::NetworkError,
            Error::InvalidState(_) => ErrorKind::InvalidState,
        }
    }

    /// The message carried by this error.
    pub open spec fn spec_message(&self) -> Seq<char> {
        match self {
            Error::SerializationError(m) => m@,
            Error::DatabaseError(m) => m@,
            Error::BlockchainError(m) => m@,
            Error::NotFound(m) => m@,
            Error::Unauthorized(m) => m@,
            Error::InvalidInput(m) => m@,
            Error::InternalError(m) => m@,
            Error::CryptoError(m) => m@,
            Error::NetworkError(m) => m@,
            Error::InvalidState(m) => m@,
        }
    }

    /// The message carried by this error.
    pub fn message(&self) -> (m: &String)
        ensures
            m@ == self.spec_message(),
    {
        match self {
            Error::SerializationError(m) => m,
            Error::DatabaseError(m) => m,
            Error::BlockchainError(m) => m,
            Error::NotFound(m) => m,
            Error::Unauthorized(m) => m,
            Error::InvalidInput(m) => m,
            Error::InternalError(m) => m,
            Error::CryptoError(m) => m,
            Error::NetworkError(m) => m,
            Error::InvalidState(m) => m,
        }
    }
}

/// The text of an error: its kind's heading, then its message.
pub open spec fn error_text(e: Error) -> Seq<char> {
    match e {
        Error::SerializationError(m) => "Serialization error: "@ + m@,
        Error::DatabaseError(m) => "Database error: "@ + m@,
        Error::BlockchainError(m) => "Blockchain error: "@ + m@,
        Error::NotFound(m) => "Resource not found: "@ + m@,
        Error::Unauthorized(m) => "Unauthorized: "@ + m@,
        Error::InvalidInput(m) => "Invalid input: "@ + m@,
        Error::InternalError(m) => "Internal error: "@ + m@,
        Error::CryptoError(m) => "Crypto error: "@ + m@,
        Error::NetworkError(m) => "Network error: "@ + m@,
        Error::InvalidState(m) => "Invalid state: "@ + m@,
    }
}

impl Error {
    /// The text of this error: its kind's heading, then its message.
    pub fn to_string(&self) -> (r: String)
        ensures
            r@ == error_text(*self),
    {
        let heading = match self {
            Error::SerializationError(_) => "Serialization error: ",
            Error::DatabaseError(_) => "Database error: ",
            Error::BlockchainError(_) => "Blockchain error: ",
            Error::NotFound(_) => "Resource not found: ",
            Error::Unauthorized(_) => "Unauthorized: ",
            Error::InvalidInput(_) => "Invalid input: ",
            Error::InternalError(_) => "Internal error: ",
            Error::CryptoError(_) => "Crypto error: ",
            Error::NetworkError(_) => "Network error: ",
            Error::InvalidState(_) => "Invalid state: ",
        };
        heading.to_owned().concat(self.message().as_str())
    }
}

/// The kind of a result's error, or the value of a success.
pub open spec fn kind_of<T>(r: Result<T, Error>) -> Result<T, ErrorKind> {
    match r {
        Ok(v) => Ok(v),
        Err(e) => Err(e.spec_kind()),
    }
}

/// Whether an identifier is live or has been deactivated.
#[derive(Debug, Clone, Copy, PartialEq, Eq, Structural)]
pub enum DIDStatus {
    Active,
    Deactivated,
}

impl Default for DIDStatus {
    fn default() -> (s: Self)
        ensures
            s == DIDStatus::Active,
    {
        DIDStatus::Active
    }
}

/// The lowercase form of a string, as std computes it.
pub uninterp spec fn lower_of(s: Seq<char>) -> Seq<char>;

/// Relies on str::to_lowercase: the result depends on the characters alone.
#[verifier::external_body]
fn lowercase(s: &str) -> (r: String)
    ensures
        r@ == lower_of(s@),
{
    s.to_lowercase()
}

/// The status that a lowercase name stands for.
pub open spec fn status_named(l: Seq<char>) -> Option<DIDStatus> {
    if l == "active"@ {
        Some(DIDStatus::Active)
    } else if l == "deactivated"@ {
        Some(DIDStatus::Deactivated)
    } else {
        None
    }
}

impl DIDStatus {
    /// Read a status from its name, already in lowercase.
    pub fn from_lowercase(lowered: &str) -> (r: Result<DIDStatus, Error>)
        ensures
            status_named(lowered@) matches Some(st) ==> r matches Ok(v) && v == st,
            status_named(lowered@) is None ==> r matches Err(Error::InvalidInput(_)),
    {
        let text = lowered.to_owned();
        if text == "active".to_owned() {
            Ok(DIDStatus::Active)
        } else if text == "deactivated".to_owned() {
            Ok(DIDStatus::Deactivated)
        } else {
            Err(Error::InvalidInput("Invalid DID status: ".to_owned().concat(lowered)))
        }
    }

    /// Read a status from its name, in any case.
    pub fn from_str(s: &str) -> (r: Result<DIDStatus, Error>)
        ensures
            status_named(lower_of(s@)) matches Some(st) ==> r matches Ok(v) && v == st,
            status_named(lower_of(s@)) is None ==> r matches Err(Error::InvalidInput(_)),
    {
        let lowered = lowercase(s);
        match DIDStatus::from_lowercase(lowered.as_str()) {
            Ok(v) => Ok(v),
            Err(_) => Err(Error::InvalidInput("Invalid DID status: ".to_owned().concat(s))),
        }
    }
}

} // verus!
