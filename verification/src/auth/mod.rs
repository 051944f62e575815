//! Authentication: cookie checking, access tokens, password hashing,
//! administrator registration and login.
use vstd::prelude::*;

use crate::auth::error::AuthenticationError;

pub mod error;
pub mod middleware;
pub mod password;
pub mod token_db;

verus! {

/// The authenticated user of a request, by id.
#[derive(Debug)]
pub struct UserExtractor(pub String);

impl UserExtractor {
    /// The authenticated user that the authentication left with the request;
    /// a route without authentication has none, which is an internal error.
    pub fn from_request(found: Option<UserExtractor>) -> (r: Result<UserExtractor, AuthenticationError>)
        ensures
            match found {
                Some(u) => r == Ok::<UserExtractor, AuthenticationError>(u),
                None => r matches Err(AuthenticationError::InternalCalledOnNonAuthRoute),
            },
    {
        match found {
            Some(user) => Ok(user),
            None => Err(AuthenticationError::InternalCalledOnNonAuthRoute),
        }
    }
}

} // verus!
