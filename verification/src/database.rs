//! The records the main database keeps: users, the mapping from an email to
//! a user's credentials, and the errors of reading and writing them.
use vstd::prelude::*;

use crate::api::auth::{UserColor, UserLabel, UserStatus};

verus! {

broadcast use vstd::string::group_string_axioms;

/// An instant, as whole seconds since the Unix epoch and the nanoseconds
/// within that second (of the same sign as the seconds).
#[derive(Debug, Clone, Copy, PartialEq, Eq, Structural)]
pub struct Timestamp {
    pub second: i64,
    pub nanosecond: i32,
}

/// The identifier of a user: a UUID, as its 128 bits.
#[derive(Debug, Clone, Copy, PartialEq, Eq, Structural)]
pub struct UserId(pub u128);

/// What the authentication keyspace stores for an email.
#[derive(Debug)]
pub struct UserMapping {
    pub password_salt: String,
    /// The Argon2 PHC string of the password hashed with the salt.
    pub password_hash: String,
    pub id: UserId,
}

/// A user, as stored in the user's own keyspace.
#[derive(Debug)]
pub struct User {
    pub id: UserId,
    pub email: String,
    pub name: String,
    pub profile_image_path: String,
    pub avatar_color: UserColor,
    pub profile_changed_at: Timestamp,
    pub storage_label: UserLabel,
    pub should_change_password: bool,
    pub is_admin: bool,
    pub is_onboarded: bool,
    pub created_at: Timestamp,
    pub deleted_at: Option<Timestamp>,
    pub updated_at: Timestamp,
    pub oauth_id: String,
    pub quota_size_in_bytes: Option<usize>,
    pub quota_usage_in_bytes: usize,
    pub status: UserStatus,
    pub license: Option<String>,
}

/// Failures of reading or writing the database; the underlying error is kept
/// as its message.
#[derive(Debug)]
pub enum DbAccessError {
    ReadingValue { db_name: String, error: String },
    WritingValue { key: String, value: String, db_name: String, error: String },
    InternalDeserializationError { key: String, db_name: String, error: String },
    UserDoesNotExist { email: String },
}

/// The directory of the database under the base path.
pub const DB_DIR: &'static str = "db";

/// The directory of the uploaded media under the base path.
pub const MEDIA_DIR: &'static str = "media";

/// The keyspace holding the global configuration.
pub const MAIN_KEYSPACE: &'static str = "main";

/// The key of the global configuration in the main keyspace.
pub const MAIN_GLOBAL_CONFIG_KEY: &'static str = "global_config";

/// The keyspace holding the email to credentials mapping.
pub const AUTH_KEYSPACE: &'static str = "auth";

/// The key under which the credentials of `email` are stored.
pub open spec fn spec_user_mapping_prefix(email: Seq<char>) -> Seq<char> {
    "user: "@ + email
}

/// The key under which the credentials of `email` are stored: `user: `
/// followed by the email.
pub fn user_mapping_prefix(email: &str) -> (r: String)
    ensures
        r@ == spec_user_mapping_prefix(email@),
{
    let mut key = "user: ".to_owned();
    key.append(email);
    key
}

/// Different emails have their credentials under different keys, so one
/// user's credentials never overwrite another's.
pub proof fn lemma_user_mapping_prefix_injective(a: Seq<char>, b: Seq<char>)
    requires
        a != b,
    ensures
        spec_user_mapping_prefix(a) != spec_user_mapping_prefix(b),
{
    let p = "user: "@;
    if spec_user_mapping_prefix(a) == spec_user_mapping_prefix(b) {
        assert((p + a).skip(p.len() as int) =~= a);
        assert((p + b).skip(p.len() as int) =~= b);
    }
}

} // verus!
