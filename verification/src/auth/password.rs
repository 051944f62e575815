//! Passwords: salts, Argon2 hashing, the registration of the administrator
//! and the checks of a login.
use argon2::PasswordHasher;
use vstd::prelude::*;

use crate::api::auth::{AdminSignUpRequest, LoginResponse, UserColor, UserLabel, UserStatus};
use crate::auth::error::{AdminRegisterError, LoginError};
use crate::database::{spec_user_mapping_prefix, user_mapping_prefix, Timestamp, User, UserId, UserMapping};

verus! {

broadcast use vstd::string::group_string_axioms;

/// A character a salt may hold: `[a-zA-Z0-9/+.-]`.
pub open spec fn is_salt_char(c: char) -> bool {
    ('a' <= c && c <= 'z') || ('A' <= c && c <= 'Z') || ('0' <= c && c <= '9') || c == '/' || c
        == '+' || c == '.' || c == '-'
}

/// A character of standard Base64: `[A-Za-z0-9+/]`.
pub open spec fn is_base64_char(c: char) -> bool {
    ('a' <= c && c <= 'z') || ('A' <= c && c <= 'Z') || ('0' <= c && c <= '9') || c == '+' || c
        == '/'
}

/// A salt that `Salt::from_b64` accepts: 4 to 64 salt characters.
pub open spec fn salt_b64_valid(s: Seq<char>) -> bool {
    &&& 4 <= s.len() <= 64
    &&& forall|i: int| 0 <= i < s.len() ==> is_salt_char(#[trigger] s[i])
}

/// The PHC string that Argon2 with its default parameters computes for a
/// password (its UTF-8 bytes) and a salt, or `None` when it fails.
pub uninterp spec fn argon2_phc_hash(password: Seq<char>, salt: Seq<char>) -> Option<Seq<char>>;

/// `password_hash::Salt::from_b64`, kept for whether it accepts the salt: it
/// does exactly when the salt has 4 to 64 characters, all from
/// `[a-zA-Z0-9/+.-]`. A salt it refuses is one no password can be hashed
/// with, since hashing reads the salt with the same call first.
#[verifier::external_body]
fn check_salt(salt: &str) -> (r: Result<(), argon2::password_hash::Error>)
    ensures
        r is Ok <==> salt_b64_valid(salt@),
        r is Err ==> forall|p: Seq<char>| #[trigger] argon2_phc_hash(p, salt@) is None,
{
    argon2::password_hash::Salt::from_b64(salt).map(|_salt| ())
}

/// `PasswordHasher::hash_password` of `Argon2::default()` on the password's
/// bytes and the salt read by `Salt::from_b64`, written as its PHC string.
/// The result is named [`argon2_phc_hash`]; it can only succeed on a salt that
/// `Salt::from_b64` accepts.
#[verifier::external_body]
fn hash_password(password: &str, salt: &str) -> (r: Result<String, argon2::password_hash::Error>)
    ensures
        match r {
            Ok(h) => argon2_phc_hash(password@, salt@) == Some(h@),
            Err(_) => argon2_phc_hash(password@, salt@) is None,
        },
        r is Ok ==> salt_b64_valid(salt@),
{
    let salt = argon2::password_hash::Salt::from_b64(salt)?;
    argon2::Argon2::default().hash_password(password.as_bytes(), salt).map(|h| h.to_string())
}

/// `SaltString::generate` with the operating system's random source: 16
/// random bytes in standard unpadded Base64, which makes 22 salt characters
/// from `[A-Za-z0-9+/]`. Which bytes come out is left unsaid.
#[verifier::external_body]
fn generate_salt() -> (r: String)
    ensures
        salt_b64_valid(r@),
        r@.len() == 22,
        forall|i: int| 0 <= i < r@.len() ==> is_base64_char(#[trigger] r@[i]),
{
    argon2::password_hash::SaltString::generate(&mut argon2::password_hash::rand_core::OsRng).as_str().to_owned()
}

/// A version 7 UUID as its 128 bits (big-endian): the version nibble is 7
/// and the variant bits are `10`.
pub open spec fn is_uuid_v7(n: u128) -> bool {
    (n >> 76u128) & 0xfu128 == 7u128 && (n >> 62u128) & 3u128 == 2u128
}

/// `uuid::Uuid::now_v7`, as its 128 bits: a version 7 UUID from the current
/// time and random bits, so its version and variant bits are set. Which value
/// comes out is otherwise left unsaid.
#[verifier::external_body]
fn new_uuid() -> (r: u128)
    ensures
        is_uuid_v7(r),
{
    uuid::Uuid::now_v7().as_u128()
}

/// The text of `uuid::Uuid::now_v7()`: the hyphenated lower-case form, 36
/// characters of hexadecimal digits and hyphens. Which value comes out is
/// left unsaid.
#[verifier::external_body]
fn new_uuid_text() -> (r: String)
    ensures
        r@.len() == 36,
        forall|i: int| 0 <= i < r@.len() ==> is_uuid_text_char(#[trigger] r@[i]),
{
    uuid::Uuid::now_v7().to_string()
}

/// A character of a hyphenated lower-case UUID.
pub open spec fn is_uuid_text_char(c: char) -> bool {
    ('0' <= c && c <= '9') || ('a' <= c && c <= 'f') || c == '-'
}

/// `jiff::Timestamp::now`, as seconds and nanoseconds since the Unix epoch.
/// Which instant comes out is left unsaid; it lies in jiff's range of
/// timestamps, -377705023201 to 253402207200 seconds, and jiff panics when
/// the system clock lies outside it (the years -9999 to 9999).
#[verifier::external_body]
fn now() -> (r: Timestamp)
    ensures
        -999_999_999 <= r.nanosecond <= 999_999_999,
        -377_705_023_201 <= r.second <= 253_402_207_200,
{
    let t = jiff::Timestamp::now();
    Timestamp { second: t.as_second(), nanosecond: t.subsec_nanosecond() }
}

/// The records that registering an administrator writes: the credentials
/// under their key in the authentication keyspace, and the user.
#[derive(Debug)]
pub struct AdminRegistration {
    pub mapping_key: String,
    pub mapping: UserMapping,
    pub user: User,
}

/// The user record of an administrator just registered with this id, email
/// and name at `now`: no profile image, yellow, labelled admin, active, not
/// onboarded, no password change asked, no quota and nothing used, no OAuth
/// id, no license, never deleted.
pub open spec fn is_new_admin(u: User, id: UserId, email: Seq<char>, name: Seq<char>, now: Timestamp) -> bool {
    &&& u.id == id
    &&& u.email@ == email
    &&& u.name@ == name
    &&& u.profile_image_path@ == Seq::<char>::empty()
    &&& u.avatar_color == UserColor::Yellow
    &&& u.profile_changed_at == now
    &&& u.storage_label == UserLabel::Admin
    &&& !u.should_change_password
    &&& u.is_admin
    &&& !u.is_onboarded
    &&& u.created_at == now
    &&& u.deleted_at is None
    &&& u.updated_at == now
    &&& u.oauth_id@ == Seq::<char>::empty()
    &&& u.quota_size_in_bytes is None
    &&& u.quota_usage_in_bytes == 0
    &&& u.status == UserStatus::Active
    &&& u.license is None
}

/// The registration records of an administrator, hashed with the given salt
/// and stamped with the given id and instant.
pub fn register_admin_with(req: AdminSignUpRequest, salt: String, id: UserId, now: Timestamp) -> (r:
    Result<AdminRegistration, AdminRegisterError>)
    ensures
        match argon2_phc_hash(req.password@, salt@) {
            None => r matches Err(AdminRegisterError::CouldNotHashPassword(_)),
            Some(h) => r matches Ok(reg) && {
                &&& reg.mapping_key@ == spec_user_mapping_prefix(req.email@)
                &&& reg.mapping.password_salt@ == salt@
                &&& reg.mapping.password_hash@ == h
                &&& reg.mapping.id == id
                &&& is_new_admin(reg.user, id, req.email@, req.name@, now)
            },
        },
        r is Ok ==> salt_b64_valid(salt@),
{
    let password_hash = match hash_password(req.password.as_str(), salt.as_str()) {
        Ok(h) => h,
        Err(e) => {
            return Err(AdminRegisterError::CouldNotHashPassword(e));
        },
    };
    let mapping = UserMapping { password_salt: salt, password_hash, id };
    let mapping_key = user_mapping_prefix(req.email.as_str());
    let user = User {
        id,
        email: req.email,
        name: req.name,
        profile_image_path: String::new(),
        avatar_color: UserColor::Yellow,
        profile_changed_at: now,
        storage_label: UserLabel::Admin,
        should_change_password: false,
        is_admin: true,
        is_onboarded: false,
        created_at: now,
        deleted_at: None,
        updated_at: now,
        oauth_id: String::new(),
        quota_size_in_bytes: None,
        quota_usage_in_bytes: 0,
        status: UserStatus::Active,
        license: None,
    };
    Ok(AdminRegistration { mapping_key, mapping, user })
}

/// Registers the administrator of the server: a fresh random salt, a new
/// version 7 UUID as id, and the current instant, as the clock reads it, for
/// its creation, update and profile change (see [`register_admin_with`] for
/// the records made from given values).
pub fn register_admin(req: AdminSignUpRequest) -> (r: Result<AdminRegistration, AdminRegisterError>)
    ensures
        match r {
            Ok(reg) => {
                &&& reg.mapping_key@ == spec_user_mapping_prefix(req.email@)
                &&& salt_b64_valid(reg.mapping.password_salt@)
                &&& reg.mapping.password_salt@.len() == 22
                &&& argon2_phc_hash(req.password@, reg.mapping.password_salt@) == Some(
                    reg.mapping.password_hash@,
                )
                &&& is_new_admin(reg.user, reg.mapping.id, req.email@, req.name@, reg.user.created_at)
                &&& is_uuid_v7(reg.mapping.id.0)
                &&& -377_705_023_201 <= reg.user.created_at.second <= 253_402_207_200
                &&& -999_999_999 <= reg.user.created_at.nanosecond <= 999_999_999
            },
            Err(e) => {
                &&& e is CouldNotHashPassword
                &&& exists|s: Seq<char>|
                    #![trigger argon2_phc_hash(req.password@, s)]
                    salt_b64_valid(s) && s.len() == 22 && argon2_phc_hash(req.password@, s) is None
            },
        },
{
    let now = now();
    let salt = generate_salt();
    let id = UserId(new_uuid());
    register_admin_with(req, salt, id, now)
}

/// The outcome of checking a password against stored credentials.
pub enum PasswordCheck {
    Accepted,
    BadSalt,
    CannotHash,
    Mismatch,
}

/// Checking `password` against the stored salt and hash: the salt must be
/// readable, the hash must be computable, and the computed hash must be the
/// stored one.
pub open spec fn password_check(salt: Seq<char>, hash: Seq<char>, password: Seq<char>) -> PasswordCheck {
    if !salt_b64_valid(salt) {
        PasswordCheck::BadSalt
    } else {
        match argon2_phc_hash(password, salt) {
            None => PasswordCheck::CannotHash,
            Some(h) => if h == hash {
                PasswordCheck::Accepted
            } else {
                PasswordCheck::Mismatch
            },
        }
    }
}

/// Checks a login's password against the stored credentials.
pub fn verify_password(mapping: &UserMapping, password: &str) -> (r: Result<(), LoginError>)
    ensures
        match password_check(mapping.password_salt@, mapping.password_hash@, password@) {
            PasswordCheck::Accepted => r is Ok,
            PasswordCheck::BadSalt => r matches Err(LoginError::InternalSalt(_)),
            PasswordCheck::CannotHash => r matches Err(LoginError::CouldNotHashPassword(_)),
            PasswordCheck::Mismatch => r matches Err(LoginError::BadUserPassword),
        },
        argon2_phc_hash(password@, mapping.password_salt@) == Some(mapping.password_hash@) ==> r is Ok,
{
    match check_salt(mapping.password_salt.as_str()) {
        Ok(()) => {},
        Err(e) => {
            return Err(LoginError::InternalSalt(e));
        },
    }
    let password_hash = match hash_password(password, mapping.password_salt.as_str()) {
        Ok(h) => h,
        Err(e) => {
            return Err(LoginError::CouldNotHashPassword(e));
        },
    };
    if mapping.password_hash != password_hash {
        Err(LoginError::BadUserPassword)
    } else {
        Ok(())
    }
}

/// The credentials a login goes on with: the stored credentials of the
/// email, when there are some and the password passes the check against
/// them. An email with no stored credentials is answered as a bad user or
/// password, like a wrong password.
pub fn login_credentials(stored: Option<UserMapping>, password: &str) -> (r: Result<
    UserMapping,
    LoginError,
>)
    ensures
        match stored {
            None => r matches Err(LoginError::BadUserPassword),
            Some(m) => match password_check(m.password_salt@, m.password_hash@, password@) {
                PasswordCheck::Accepted => r matches Ok(x) && x == m,
                PasswordCheck::BadSalt => r matches Err(LoginError::InternalSalt(_)),
                PasswordCheck::CannotHash => r matches Err(LoginError::CouldNotHashPassword(_)),
                PasswordCheck::Mismatch => r matches Err(LoginError::BadUserPassword),
            },
        },
        (stored matches Some(m) && argon2_phc_hash(password@, m.password_salt@) == Some(
            m.password_hash@,
        )) ==> (r matches Ok(x) && x == stored->0),
{
    match stored {
        None => Err(LoginError::BadUserPassword),
        Some(m) => match verify_password(&m, password) {
            Ok(()) => Ok(m),
            Err(e) => Err(e),
        },
    }
}

/// The answer to a successful login of `user`, whose id is `id`, with the
/// given access token.
pub fn login_response_with(access_token: String, id: UserId, user: User) -> (r: LoginResponse)
    ensures
        r.access_token@ == access_token@,
        r.user_id == id,
        r.user_email@ == user.email@,
        r.name@ == user.name@,
        r.is_admin == user.is_admin,
        r.profile_image_path@ == user.profile_image_path@,
        r.should_change_password == user.should_change_password,
        r.is_onboarded == user.is_onboarded,
{
    LoginResponse {
        access_token,
        user_id: id,
        user_email: user.email,
        name: user.name,
        is_admin: user.is_admin,
        profile_image_path: user.profile_image_path,
        should_change_password: user.should_change_password,
        is_onboarded: user.is_onboarded,
    }
}

/// The answer to a successful login of `user`, with a fresh version 7 UUID,
/// in text, as access token. It is the caller's job to register the token.
pub fn login_response(id: UserId, user: User) -> (r: LoginResponse)
    ensures
        r.access_token@.len() == 36,
        forall|i: int| 0 <= i < r.access_token@.len() ==> is_uuid_text_char(#[trigger] r.access_token@[i]),
        r.user_id == id,
        r.user_email@ == user.email@,
        r.name@ == user.name@,
        r.is_admin == user.is_admin,
        r.profile_image_path@ == user.profile_image_path@,
        r.should_change_password == user.should_change_password,
        r.is_onboarded == user.is_onboarded,
{
    let token = new_uuid_text();
    login_response_with(token, id, user)
}

/// A password that registered an administrator passes the login check
/// against the credentials the registration stored.
pub proof fn lemma_registered_password_accepted(salt: Seq<char>, hash: Seq<char>, password: Seq<char>)
    requires
        salt_b64_valid(salt),
        argon2_phc_hash(password, salt) == Some(hash),
    ensures
        password_check(salt, hash, password) == PasswordCheck::Accepted,
{
}

} // verus!
