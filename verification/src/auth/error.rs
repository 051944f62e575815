//! Errors of authentication, registration and login, with the HTTP status
//! code each is answered with.
use vstd::prelude::*;

use crate::database::DbAccessError;

verus! {

/// HTTP status codes the server answers with.
pub const STATUS_BAD_REQUEST: u16 = 400;
pub const STATUS_UNAUTHORIZED: u16 = 401;
pub const STATUS_INTERNAL_SERVER_ERROR: u16 = 500;

/// Why a request could not be authenticated.
#[derive(Debug)]
pub enum AuthenticationError {
    /// The request carries no `Cookie` header.
    MissingAuthCookie,
    /// The `Cookie` header holds a byte that is not visible ASCII.
    NonUtf8Cookie,
    /// The cookie entry at this position has no `=`.
    MalformedCookie(usize),
    /// The access token is not registered.
    UnknownAccessToken,
    /// This cookie field occurs twice.
    DuplicateField(&'static str),
    /// A cookie field that is not one of the three known ones.
    UnexpectedField(String),
    /// This cookie field is absent.
    MissingField(&'static str),
    /// `immich_auth_type` has a value other than `password`.
    WrongAuthTypeValue(String),
    /// `immich_is_authenticated` has a value other than `true`.
    WrongIsAuthenticatedValue(String),
    /// The authenticated user was asked for on a route without authentication.
    InternalCalledOnNonAuthRoute,
}

/// The mathematical value of an [`AuthenticationError`]: strings as
/// character sequences.
pub enum AuthFailure {
    MissingAuthCookie,
    NonUtf8Cookie,
    MalformedCookie(nat),
    UnknownAccessToken,
    DuplicateField(Seq<char>),
    UnexpectedField(Seq<char>),
    MissingField(Seq<char>),
    WrongAuthTypeValue(Seq<char>),
    WrongIsAuthenticatedValue(Seq<char>),
    InternalCalledOnNonAuthRoute,
}

impl View for AuthenticationError {
    type V = AuthFailure;

    open spec fn view(&self) -> AuthFailure {
        match self {
            AuthenticationError::MissingAuthCookie => AuthFailure::MissingAuthCookie,
            AuthenticationError::NonUtf8Cookie => AuthFailure::NonUtf8Cookie,
            AuthenticationError::MalformedCookie(i) => AuthFailure::MalformedCookie(*i as nat),
            AuthenticationError::UnknownAccessToken => AuthFailure::UnknownAccessToken,
            AuthenticationError::DuplicateField(f) => AuthFailure::DuplicateField(f@),
            AuthenticationError::UnexpectedField(f) => AuthFailure::UnexpectedField(f@),
            AuthenticationError::MissingField(f) => AuthFailure::MissingField(f@),
            AuthenticationError::WrongAuthTypeValue(v) => AuthFailure::WrongAuthTypeValue(v@),
            AuthenticationError::WrongIsAuthenticatedValue(v) => AuthFailure::WrongIsAuthenticatedValue(
                v@,
            ),
            AuthenticationError::InternalCalledOnNonAuthRoute => AuthFailure::InternalCalledOnNonAuthRoute,
        }
    }
}

impl AuthenticationError {
    /// The HTTP status this error is answered with: a missing cookie or an
    /// unknown token is unauthorized, a cookie that cannot be read is a bad
    /// request, and asking for the user on a route without authentication is
    /// a server error.
    pub fn status_code(&self) -> (r: u16)
        ensures
            r == match self {
                AuthenticationError::MissingAuthCookie => STATUS_UNAUTHORIZED,
                AuthenticationError::UnknownAccessToken => STATUS_UNAUTHORIZED,
                AuthenticationError::InternalCalledOnNonAuthRoute => STATUS_INTERNAL_SERVER_ERROR,
                _ => STATUS_BAD_REQUEST,
            },
    {
        match self {
            AuthenticationError::MissingAuthCookie => STATUS_UNAUTHORIZED,
            AuthenticationError::UnknownAccessToken => STATUS_UNAUTHORIZED,
            AuthenticationError::DuplicateField(_) => STATUS_BAD_REQUEST,
            AuthenticationError::WrongAuthTypeValue(_) => STATUS_BAD_REQUEST,
            AuthenticationError::WrongIsAuthenticatedValue(_) => STATUS_BAD_REQUEST,
            AuthenticationError::UnexpectedField(_) => STATUS_BAD_REQUEST,
            AuthenticationError::MissingField(_) => STATUS_BAD_REQUEST,
            AuthenticationError::MalformedCookie(_) => STATUS_BAD_REQUEST,
            AuthenticationError::NonUtf8Cookie => STATUS_BAD_REQUEST,
            AuthenticationError::InternalCalledOnNonAuthRoute => STATUS_INTERNAL_SERVER_ERROR,
        }
    }
}

/// The error type of the `password-hash` crate, which Argon2 hashing and
/// salt reading report.
#[verifier::external_type_specification]
#[verifier::external_body]
pub struct ExPasswordHashError(argon2::password_hash::Error);

/// Why an administrator could not be registered.
#[derive(Debug)]
pub enum AdminRegisterError {
    DbAccess(DbAccessError),
    BadUserPassword,
    /// A stored record could not be read; the message of the parse error.
    InternalDeserialization(String),
    CouldNotHashPassword(argon2::password_hash::Error),
}

impl AdminRegisterError {
    /// The HTTP status this error is answered with: a bad user or password is
    /// unauthorized, everything else is a server error.
    pub fn status_code(&self) -> (r: u16)
        ensures
            r == match self {
                AdminRegisterError::BadUserPassword => STATUS_UNAUTHORIZED,
                _ => STATUS_INTERNAL_SERVER_ERROR,
            },
    {
        match self {
            AdminRegisterError::DbAccess(_) => STATUS_INTERNAL_SERVER_ERROR,
            AdminRegisterError::BadUserPassword => STATUS_UNAUTHORIZED,
            AdminRegisterError::InternalDeserialization(_) => STATUS_INTERNAL_SERVER_ERROR,
            AdminRegisterError::CouldNotHashPassword(_) => STATUS_INTERNAL_SERVER_ERROR,
        }
    }
}

/// Why a login failed.
#[derive(Debug)]
pub enum LoginError {
    DbAccess(DbAccessError),
    BadUserPassword,
    /// A stored record could not be read; the message of the parse error.
    InternalDeserialization(String),
    InternalSalt(argon2::password_hash::Error),
    CouldNotHashPassword(argon2::password_hash::Error),
}

impl LoginError {
    /// The HTTP status this error is answered with: a bad user or password is
    /// unauthorized, everything else is a server error.
    pub fn status_code(&self) -> (r: u16)
        ensures
            r == match self {
                LoginError::BadUserPassword => STATUS_UNAUTHORIZED,
                _ => STATUS_INTERNAL_SERVER_ERROR,
            },
    {
        match self {
            LoginError::DbAccess(_) => STATUS_INTERNAL_SERVER_ERROR,
            LoginError::BadUserPassword => STATUS_UNAUTHORIZED,
            LoginError::InternalDeserialization(_) => STATUS_INTERNAL_SERVER_ERROR,
            LoginError::InternalSalt(_) => STATUS_INTERNAL_SERVER_ERROR,
            LoginError::CouldNotHashPassword(_) => STATUS_INTERNAL_SERVER_ERROR,
        }
    }
}

} // verus!
