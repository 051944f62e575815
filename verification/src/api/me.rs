//! The fixed demonstration profile.
use vstd::prelude::*;

verus! {

broadcast use vstd::string::group_string_axioms;

/// A user profile as plain text fields.
#[derive(Debug)]
pub struct Me {
    pub id: String,
    pub email: String,
    pub name: String,
    pub profile_image_path: String,
    pub avatar_color: String,
    pub profile_changed_at: String,
    pub storage_label: String,
    pub should_change_password: bool,
    pub is_admin: bool,
    pub created_at: String,
    pub deleted_at: Option<String>,
    pub updated_at: String,
    pub oauth_id: String,
    pub quota_size_in_bytes: Option<usize>,
    pub quota_usage_in_bytes: u64,
    pub status: String,
    pub license: Option<String>,
}

/// The demonstration profile of Jane Doe, an administrator.
pub fn me() -> (r: Me)
    ensures
        r.id@ == "6bbe2767-7851-461a-aa2d-afbd3460aa85"@,
        r.email@ == "demo@immich.app"@,
        r.name@ == "Jane Doe"@,
        r.profile_image_path@ == ""@,
        r.avatar_color@ == "yellow"@,
        r.profile_changed_at@ == "2026-01-20T15:13:30.207Z"@,
        r.storage_label@ == "admin"@,
        r.should_change_password,
        r.is_admin,
        r.created_at@ == "2026-01-20T15:13:30.207Z"@,
        r.deleted_at is None,
        r.updated_at@ == "2026-02-21T00:00:00.195Z"@,
        r.oauth_id@ == ""@,
        r.quota_size_in_bytes is None,
        r.quota_usage_in_bytes == 20846462480,
        r.status@ == "active"@,
        r.license is None,
{
    Me {
        id: "6bbe2767-7851-461a-aa2d-afbd3460aa85".to_owned(),
        email: "demo@immich.app".to_owned(),
        name: "Jane Doe".to_owned(),
        profile_image_path: "".to_owned(),
        avatar_color: "yellow".to_owned(),
        profile_changed_at: "2026-01-20T15:13:30.207Z".to_owned(),
        storage_label: "admin".to_owned(),
        should_change_password: true,
        is_admin: true,
        created_at: "2026-01-20T15:13:30.207Z".to_owned(),
        deleted_at: None,
        updated_at: "2026-02-21T00:00:00.195Z".to_owned(),
        oauth_id: "".to_owned(),
        quota_size_in_bytes: None,
        quota_usage_in_bytes: 20846462480,
        status: "active".to_owned(),
        license: None,
    }
}

} // verus!
