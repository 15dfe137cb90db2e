use vstd::prelude::*;

verus! {

/// How an error is classified, which decides the HTTP status it is reported with.
#[derive(Clone, Copy, Debug, PartialEq, Eq, Structural)]
pub enum ErrorKind {
    /// Bad or conflicting input, or a broken business rule (400).
    Validation,
    /// Bad credentials, or a missing or invalid token (401).
    Auth,
    /// A valid identity without the role a path asks for (403).
    Forbidden,
    /// A store or hashing failure (500).
    Internal,
}

/// Every failure that the authentication core reports.
#[derive(Clone, Copy, Debug, PartialEq, Eq, Structural)]
pub enum ApiError {
    /// Registration for an email that already has a record.
    EmailTaken,
    /// A recovery request for an email without a record.
    EmailNotRegistered,
    /// Login with an unknown email or a wrong password; the two are not told apart.
    InvalidCredentials,
    /// A code check for a record without a pending recovery code.
    NoCodePending,
    /// A code check after the pending code expired.
    CodeExpired,
    /// A code check with a code that does not match the pending one.
    InvalidCode,
    /// A protected request without an `Authorization` header.
    MissingToken,
    /// A protected request whose token does not parse, verify or is expired.
    InvalidToken,
    /// A protected request whose claims lack the role that the path asks for.
    Forbidden,
    /// Hashing a password or a code failed.
    HashFailure,
    /// The store has no identifier left for a new record.
    StoreFull,
}

pub open spec fn kind_of(e: ApiError) -> ErrorKind {
    match e {
        ApiError::EmailTaken | ApiError::EmailNotRegistered | ApiError::NoCodePending
        | ApiError::CodeExpired | ApiError::InvalidCode => ErrorKind::Validation,
        ApiError::InvalidCredentials | ApiError::MissingToken
        | ApiError::InvalidToken => ErrorKind::Auth,
        ApiError::Forbidden => ErrorKind::Forbidden,
        ApiError::HashFailure | ApiError::StoreFull => ErrorKind::Internal,
    }
}

pub open spec fn status_of(k: ErrorKind) -> u16 {
    match k {
        ErrorKind::Validation => 400,
        ErrorKind::Auth => 401,
        ErrorKind::Forbidden => 403,
        ErrorKind::Internal => 500,
    }
}

impl ApiError {
    pub fn kind(&self) -> (k: ErrorKind)
        ensures
            k == kind_of(*self),
    {
        match self {
            ApiError::EmailTaken | ApiError::EmailNotRegistered | ApiError::NoCodePending
            | ApiError::CodeExpired | ApiError::InvalidCode => ErrorKind::Validation,
            ApiError::InvalidCredentials | ApiError::MissingToken
            | ApiError::InvalidToken => ErrorKind::Auth,
            ApiError::Forbidden => ErrorKind::Forbidden,
            ApiError::HashFailure | ApiError::StoreFull => ErrorKind::Internal,
        }
    }

    /// The HTTP status code that reports this error.
    pub fn status_code(&self) -> (c: u16)
        ensures
            c == status_of(kind_of(*self)),
    {
        match self.kind() {
            ErrorKind::Validation => 400,
            ErrorKind::Auth => 401,
            ErrorKind::Forbidden => 403,
            ErrorKind::Internal => 500,
        }
    }

    /// The message shown to the client. Internal failures share one generic text.
    pub fn message(&self) -> (m: &'static str)
        ensures
            m@ == message_of(*self),
    {
        match self {
            ApiError::EmailTaken => "email already registered",
            ApiError::EmailNotRegistered => "email not registered",
            ApiError::InvalidCredentials => "invalid credentials",
            ApiError::NoCodePending => "no code found",
            ApiError::CodeExpired => "code expired",
            ApiError::InvalidCode => "invalid code",
            ApiError::MissingToken => "token not provided",
            ApiError::InvalidToken => "invalid token",
            ApiError::Forbidden => "access denied: administrators only",
            _ => "internal error",
        }
    }
}

pub open spec fn message_of(e: ApiError) -> Seq<char> {
    match e {
        ApiError::EmailTaken => "email already registered"@,
        ApiError::EmailNotRegistered => "email not registered"@,
        ApiError::InvalidCredentials => "invalid credentials"@,
        ApiError::NoCodePending => "no code found"@,
        ApiError::CodeExpired => "code expired"@,
        ApiError::InvalidCode => "invalid code"@,
        ApiError::MissingToken => "token not provided"@,
        ApiError::InvalidToken => "invalid token"@,
        ApiError::Forbidden => "access denied: administrators only"@,
        _ => "internal error"@,
    }
}

} // verus!
