//! The request and response records of the HTTP API, and the decisions its
//! handlers make.
use vstd::prelude::*;

use crate::config::Config;
use crate::database::User;
use crate::error::HttpError;

pub mod auth;
pub mod me;
pub mod media_types;
pub mod server;
pub mod socket;
pub mod users;

verus! {

/// A request to finish (or not) the onboarding of the server.
#[derive(Debug, Clone, Copy, PartialEq, Eq, Structural)]
pub struct AdminOnboarding {
    pub is_onboarded: bool,
}

/// Whether the user who finishes the onboarding may do so: only an
/// administrator may, anyone else is refused with their email.
pub fn admin_onboarding_check(user: &User) -> (r: Result<(), HttpError>)
    ensures
        user.is_admin ==> r is Ok,
        !user.is_admin ==> (r matches Err(HttpError::NonAdminUserTriedToFinalizeSystemOnboarding {
            user: email,
        }) && email@ == user.email@),
{
    if !user.is_admin {
        return Err(HttpError::NonAdminUserTriedToFinalizeSystemOnboarding { user: user.email.clone() });
    }
    Ok(())
}

/// What a request to finish the onboarding does to the global
/// configuration, decided before anything is written: a request that does
/// not set the flag leaves the configuration as it is; one that does is
/// refused, with the user's email, when the user is not administrator, and
/// otherwise marks the server onboarded, keeping the rest.
pub fn admin_onboarding_step(config: Config, request: AdminOnboarding, user: &User) -> (r: Result<
    Config,
    HttpError,
>)
    ensures
        !request.is_onboarded ==> (r matches Ok(c) && c == config),
        request.is_onboarded && user.is_admin ==> (r matches Ok(c) && c == (Config {
            is_onboarded: true,
            ..config
        })),
        request.is_onboarded && !user.is_admin ==> (r matches Err(
            HttpError::NonAdminUserTriedToFinalizeSystemOnboarding { user: email },
        ) && email@ == user.email@),
{
    if !request.is_onboarded {
        return Ok(config);
    }
    match admin_onboarding_check(user) {
        Ok(()) => Ok(config.onboarded()),
        Err(e) => Err(e),
    }
}

} // verus!
