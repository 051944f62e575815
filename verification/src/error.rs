//! The errors a request handler can end with, and the HTTP status of each.
use vstd::prelude::*;

use crate::auth::error::{
    AdminRegisterError, AuthenticationError, LoginError, STATUS_INTERNAL_SERVER_ERROR,
    STATUS_UNAUTHORIZED,
};
use crate::database::DbAccessError;

verus! {

/// An input or output failure of the standard library.
#[verifier::external_type_specification]
#[verifier::external_body]
pub struct ExIoError(std::io::Error);

/// An error of the web framework.
#[verifier::external_type_specification]
#[verifier::external_body]
pub struct ExActixError(actix_web::Error);

/// An error of the database engine.
#[verifier::external_type_specification]
#[verifier::external_body]
pub struct ExFjallError(fjall::Error);

/// A write transaction that conflicted with another and was not committed.
#[verifier::external_type_specification]
#[verifier::external_body]
pub struct ExFjallConflict(fjall::Conflict);

/// Why a request handler failed.
#[derive(Debug)]
pub enum HttpError {
    Io(std::io::Error),
    ActixWeb(actix_web::Error),
    Fjall(fjall::Error),
    DbAccess(DbAccessError),
    Login(LoginError),
    Register(AdminRegisterError),
    Auth(AuthenticationError),
    NonAdminUserTriedToFinalizeSystemOnboarding { user: String },
    CommitFailed(fjall::Conflict),
}

impl HttpError {
    /// The HTTP status this error is answered with: that of the login,
    /// registration or authentication error it carries; unauthorized for a
    /// user who is not administrator finishing the onboarding; a server error
    /// otherwise.
    pub fn status_code(&self) -> (r: u16)
        ensures
            r == match self {
                HttpError::Login(e) => match e {
                    LoginError::BadUserPassword => STATUS_UNAUTHORIZED,
                    _ => STATUS_INTERNAL_SERVER_ERROR,
                },
                HttpError::Register(e) => match e {
                    AdminRegisterError::BadUserPassword => STATUS_UNAUTHORIZED,
                    _ => STATUS_INTERNAL_SERVER_ERROR,
                },
                HttpError::Auth(e) => match e {
                    AuthenticationError::MissingAuthCookie => STATUS_UNAUTHORIZED,
                    AuthenticationError::UnknownAccessToken => STATUS_UNAUTHORIZED,
                    AuthenticationError::InternalCalledOnNonAuthRoute => STATUS_INTERNAL_SERVER_ERROR,
                    _ => crate::auth::error::STATUS_BAD_REQUEST,
                },
                HttpError::NonAdminUserTriedToFinalizeSystemOnboarding { .. } => STATUS_UNAUTHORIZED,
                _ => STATUS_INTERNAL_SERVER_ERROR,
            },
    {
        match self {
            HttpError::Io(_) => STATUS_INTERNAL_SERVER_ERROR,
            HttpError::DbAccess(_) => STATUS_INTERNAL_SERVER_ERROR,
            HttpError::Login(login_error) => login_error.status_code(),
            HttpError::Register(admin_register_error) => admin_register_error.status_code(),
            HttpError::Auth(authentication_error) => authentication_error.status_code(),
            HttpError::Fjall(_) => STATUS_INTERNAL_SERVER_ERROR,
            HttpError::ActixWeb(_) => STATUS_INTERNAL_SERVER_ERROR,
            HttpError::CommitFailed(_) => STATUS_INTERNAL_SERVER_ERROR,
            HttpError::NonAdminUserTriedToFinalizeSystemOnboarding { .. } => STATUS_UNAUTHORIZED,
        }
    }
}

} // verus!
