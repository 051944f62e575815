//! Login and administrator sign-up records.
use vstd::prelude::*;

use crate::database::{Timestamp, User, UserId};

verus! {

#[derive(Debug)]
pub struct LoginRequest {
    pub email: String,
    pub password: String,
}

#[derive(Debug)]
pub struct LoginResponse {
    pub access_token: String,
    pub user_id: UserId,
    pub user_email: String,
    pub name: String,
    pub is_admin: bool,
    pub profile_image_path: String,
    pub should_change_password: bool,
    pub is_onboarded: bool,
}

#[derive(Debug)]
pub struct AdminSignUpRequest {
    pub email: String,
    pub name: String,
    pub password: String,
}

#[derive(Debug)]
pub struct AdminSignUpResponse {
    pub id: UserId,
    pub email: String,
    pub name: String,
    pub profile_image_path: String,
    pub avatar_color: UserColor,
    pub profile_changed_at: Timestamp,
    pub storage_label: UserLabel,
    pub should_change_password: bool,
    pub is_admin: bool,
    pub created_at: Timestamp,
    pub deleted_at: Option<Timestamp>,
    pub updated_at: Timestamp,
    pub oauth_id: String,
    pub quota_size_in_bytes: Option<usize>,
    pub quota_usage_in_bytes: usize,
    pub status: UserStatus,
    pub license: Option<String>,
}

#[derive(Debug, Clone, Copy, PartialEq, Eq, Structural)]
pub enum UserStatus {
    Active,
}

#[derive(Debug, Clone, Copy, PartialEq, Eq, Structural)]
pub enum UserColor {
    Yellow,
}

#[derive(Debug, Clone, Copy, PartialEq, Eq, Structural)]
pub enum UserLabel {
    Admin,
}

impl vstd::std_specs::convert::FromSpecImpl<User> for AdminSignUpResponse {
    open spec fn obeys_from_spec() -> bool {
        true
    }

    open spec fn from_spec(val: User) -> AdminSignUpResponse {
        AdminSignUpResponse {
            id: val.id,
            email: val.email,
            name: val.name,
            profile_image_path: val.profile_image_path,
            avatar_color: val.avatar_color,
            profile_changed_at: val.profile_changed_at,
            storage_label: val.storage_label,
            should_change_password: val.should_change_password,
            is_admin: val.is_admin,
            created_at: val.created_at,
            deleted_at: val.deleted_at,
            updated_at: val.updated_at,
            oauth_id: val.oauth_id,
            quota_size_in_bytes: val.quota_size_in_bytes,
            quota_usage_in_bytes: val.quota_usage_in_bytes,
            status: val.status,
            license: val.license,
        }
    }
}

/// The answer to a sign-up shows the new user as stored: each of its fields
/// is the user's field of the same name (whether the user is onboarded is
/// not shown).
pub proof fn lemma_sign_up_answer_shows_user(u: User)
    ensures
        ({
            let a = <AdminSignUpResponse as vstd::std_specs::convert::FromSpec<User>>::from_spec(u);
            &&& a.id == u.id
            &&& a.email@ == u.email@
            &&& a.name@ == u.name@
            &&& a.profile_image_path@ == u.profile_image_path@
            &&& a.avatar_color == u.avatar_color
            &&& a.profile_changed_at == u.profile_changed_at
            &&& a.storage_label == u.storage_label
            &&& a.should_change_password == u.should_change_password
            &&& a.is_admin == u.is_admin
            &&& a.created_at == u.created_at
            &&& a.deleted_at == u.deleted_at
            &&& a.updated_at == u.updated_at
            &&& a.oauth_id@ == u.oauth_id@
            &&& a.quota_size_in_bytes == u.quota_size_in_bytes
            &&& a.quota_usage_in_bytes == u.quota_usage_in_bytes
            &&& a.status == u.status
            &&& a.license == u.license
        }),
{
}

impl From<User> for AdminSignUpResponse {
    /// The sign-up answer shows every field of the user but whether it is
    /// onboarded.
    fn from(val: User) -> (r: AdminSignUpResponse)
        ensures
            r.id == val.id,
            r.email@ == val.email@,
            r.name@ == val.name@,
            r.profile_image_path@ == val.profile_image_path@,
            r.avatar_color == val.avatar_color,
            r.profile_changed_at == val.profile_changed_at,
            r.storage_label == val.storage_label,
            r.should_change_password == val.should_change_password,
            r.is_admin == val.is_admin,
            r.created_at == val.created_at,
            r.deleted_at == val.deleted_at,
            r.updated_at == val.updated_at,
            r.oauth_id@ == val.oauth_id@,
            r.quota_size_in_bytes == val.quota_size_in_bytes,
            r.quota_usage_in_bytes == val.quota_usage_in_bytes,
            r.status == val.status,
            r.license == val.license,
    {
        AdminSignUpResponse {
            id: val.id,
            email: val.email,
            name: val.name,
            profile_image_path: val.profile_image_path,
            avatar_color: val.avatar_color,
            profile_changed_at: val.profile_changed_at,
            storage_label: val.storage_label,
            should_change_password: val.should_change_password,
            is_admin: val.is_admin,
            created_at: val.created_at,
            deleted_at: val.deleted_at,
            updated_at: val.updated_at,
            oauth_id: val.oauth_id,
            quota_size_in_bytes: val.quota_size_in_bytes,
            quota_usage_in_bytes: val.quota_usage_in_bytes,
            status: val.status,
            license: val.license,
        }
    }
}

} // verus!
