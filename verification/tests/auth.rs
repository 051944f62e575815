use chimie::api::auth::{AdminSignUpRequest, UserColor, UserLabel, UserStatus};
use chimie::auth::error::{AdminRegisterError, AuthenticationError, LoginError};
use chimie::auth::middleware::{
    authenticate, header_to_str, login_cookies, login_set_cookies, parse_cookie, AuthType, IsAuthenticated,
    ACCESS_TOKEN, AUTH_TYPE, IS_AUTHENTICATED,
};
use chimie::auth::password::{
    login_credentials, login_response, login_response_with, register_admin, register_admin_with,
    verify_password,
};
use chimie::auth::token_db::AccessTokenDatabase;
use chimie::auth::UserExtractor;
use chimie::database::{user_mapping_prefix, Timestamp, User, UserId, UserMapping};

const GOOD: &str = "immich_access_token=abc-123; immich_auth_type=password; immich_is_authenticated=true";

fn sign_up(password: &str) -> AdminSignUpRequest {
    AdminSignUpRequest {
        email: "admin@example.com".to_string(),
        name: "Admin".to_string(),
        password: password.to_string(),
    }
}

#[test]
fn cookie_with_all_fields_gives_token() {
    assert_eq!(parse_cookie(GOOD).unwrap(), "abc-123");
}

#[test]
fn cookie_fields_in_any_order_and_spacing() {
    let s = "  immich_is_authenticated=true;immich_access_token=tok ;\timmich_auth_type=password  ";
    assert_eq!(parse_cookie(s).unwrap(), "tok");
}

#[test]
fn cookie_value_may_hold_equal_sign() {
    let s = "immich_access_token=a=b; immich_auth_type=password; immich_is_authenticated=true";
    assert_eq!(parse_cookie(s).unwrap(), "a=b");
}

#[test]
fn cookie_missing_fields_in_order() {
    assert!(matches!(
        parse_cookie("immich_auth_type=password"),
        Err(AuthenticationError::MissingField(f)) if f == ACCESS_TOKEN
    ));
    assert!(matches!(
        parse_cookie("immich_access_token=x"),
        Err(AuthenticationError::MissingField(f)) if f == AUTH_TYPE
    ));
    assert!(matches!(
        parse_cookie("immich_access_token=x; immich_auth_type=password"),
        Err(AuthenticationError::MissingField(f)) if f == IS_AUTHENTICATED
    ));
}

#[test]
fn cookie_without_equal_sign_is_malformed_at_its_position() {
    assert!(matches!(
        parse_cookie("immich_access_token=x; garbage; immich_auth_type=password"),
        Err(AuthenticationError::MalformedCookie(1))
    ));
    assert!(matches!(parse_cookie(""), Err(AuthenticationError::MalformedCookie(0))));
    let trailing = format!("{GOOD};");
    assert!(matches!(parse_cookie(&trailing), Err(AuthenticationError::MalformedCookie(3))));
}

#[test]
fn cookie_duplicate_field() {
    let s = "immich_access_token=x; immich_access_token=y; immich_auth_type=password";
    assert!(matches!(
        parse_cookie(s),
        Err(AuthenticationError::DuplicateField(f)) if f == ACCESS_TOKEN
    ));
    let s = "immich_auth_type=password; immich_auth_type=oops";
    assert!(matches!(
        parse_cookie(s),
        Err(AuthenticationError::DuplicateField(f)) if f == AUTH_TYPE
    ));
    let s = "immich_is_authenticated=true; immich_is_authenticated=true";
    assert!(matches!(
        parse_cookie(s),
        Err(AuthenticationError::DuplicateField(f)) if f == IS_AUTHENTICATED
    ));
}

#[test]
fn cookie_unexpected_field() {
    let s = "immich_access_token=x; theme=dark";
    match parse_cookie(s) {
        Err(AuthenticationError::UnexpectedField(f)) => assert_eq!(f, "theme"),
        other => panic!("unexpected {other:?}"),
    }
}

#[test]
fn cookie_wrong_values() {
    match parse_cookie("immich_auth_type=oauth") {
        Err(AuthenticationError::WrongAuthTypeValue(v)) => assert_eq!(v, "oauth"),
        other => panic!("unexpected {other:?}"),
    }
    match parse_cookie("immich_is_authenticated=yes") {
        Err(AuthenticationError::WrongIsAuthenticatedValue(v)) => assert_eq!(v, "yes"),
        other => panic!("unexpected {other:?}"),
    }
}

#[test]
fn auth_type_and_flag_values() {
    assert_eq!(AuthType::from_str("password").unwrap(), AuthType::Password);
    assert!(AuthType::from_str("Password").is_err());
    assert_eq!(IsAuthenticated::from_str("true").unwrap(), IsAuthenticated::True);
    assert!(IsAuthenticated::from_str("false").is_err());
}

#[test]
fn header_text_must_be_visible_ascii() {
    assert_eq!(header_to_str(b"a b\tc~"), Some("a b\tc~"));
    assert_eq!(header_to_str(b"a\nb"), None);
    assert_eq!(header_to_str("é".as_bytes()), None);
    assert_eq!(header_to_str(b""), Some(""));
}

#[test]
fn token_database_read_after_write() {
    let mut db = AccessTokenDatabase::default();
    assert_eq!(db.get_blocking("t1".to_string()), None);
    db.register("t1".to_string(), "alice@example.com".to_string());
    db.register("t2".to_string(), "bob@example.com".to_string());
    assert_eq!(db.get_blocking("t1".to_string()).as_deref(), Some("alice@example.com"));
    assert_eq!(db.get_blocking("t2".to_string()).as_deref(), Some("bob@example.com"));
    db.register("t1".to_string(), "carol@example.com".to_string());
    assert_eq!(db.get_blocking("t1".to_string()).as_deref(), Some("carol@example.com"));
    assert_eq!(db.get_blocking("t3".to_string()), None);
}

#[test]
fn authenticate_outcomes() {
    let mut db = AccessTokenDatabase::default();
    db.register("abc-123".to_string(), "admin@example.com".to_string());
    assert!(matches!(authenticate(&db, None), Err(AuthenticationError::MissingAuthCookie)));
    assert!(matches!(
        authenticate(&db, Some(b"immich_access_token=\x01")),
        Err(AuthenticationError::NonUtf8Cookie)
    ));
    assert_eq!(authenticate(&db, Some(GOOD.as_bytes())).unwrap(), "admin@example.com");
    let other = GOOD.replace("abc-123", "zzz");
    assert!(matches!(
        authenticate(&db, Some(other.as_bytes())),
        Err(AuthenticationError::UnknownAccessToken)
    ));
}

#[test]
fn login_cookies_authenticate_after_registration() {
    let cookies = login_cookies("0190-abcd");
    let header = cookies
        .iter()
        .map(|(n, v)| format!("{n}={v}"))
        .collect::<Vec<_>>()
        .join("; ");
    assert_eq!(
        header,
        "immich_access_token=0190-abcd; immich_auth_type=password; immich_is_authenticated=true"
    );
    let mut db = AccessTokenDatabase::default();
    db.register("0190-abcd".to_string(), "me@example.com".to_string());
    assert_eq!(authenticate(&db, Some(header.as_bytes())).unwrap(), "me@example.com");
}

#[test]
fn authentication_status_codes() {
    assert_eq!(AuthenticationError::MissingAuthCookie.status_code(), 401);
    assert_eq!(AuthenticationError::UnknownAccessToken.status_code(), 401);
    assert_eq!(AuthenticationError::MalformedCookie(2).status_code(), 400);
    assert_eq!(AuthenticationError::NonUtf8Cookie.status_code(), 400);
    assert_eq!(AuthenticationError::DuplicateField(ACCESS_TOKEN).status_code(), 400);
    assert_eq!(AuthenticationError::MissingField(AUTH_TYPE).status_code(), 400);
    assert_eq!(AuthenticationError::UnexpectedField("x".into()).status_code(), 400);
    assert_eq!(AuthenticationError::WrongAuthTypeValue("x".into()).status_code(), 400);
    assert_eq!(AuthenticationError::WrongIsAuthenticatedValue("x".into()).status_code(), 400);
    assert_eq!(AuthenticationError::InternalCalledOnNonAuthRoute.status_code(), 500);
    assert_eq!(LoginError::BadUserPassword.status_code(), 401);
    assert_eq!(LoginError::InternalDeserialization("x".into()).status_code(), 500);
    assert_eq!(AdminRegisterError::BadUserPassword.status_code(), 401);
    assert_eq!(AdminRegisterError::InternalDeserialization("x".into()).status_code(), 500);
}

#[test]
fn user_extractor_needs_an_authenticated_user() {
    let u = UserExtractor::from_request(Some(UserExtractor("a@b".to_string()))).unwrap();
    assert_eq!(u.0, "a@b");
    assert!(matches!(
        UserExtractor::from_request(None),
        Err(AuthenticationError::InternalCalledOnNonAuthRoute)
    ));
}

#[test]
fn mapping_key_is_prefixed_email() {
    assert_eq!(user_mapping_prefix("a@b.c"), "user: a@b.c");
    assert_eq!(user_mapping_prefix(""), "user: ");
}

#[test]
fn registration_with_given_salt_then_password_check() {
    let now = Timestamp { second: 1_700_000_000, nanosecond: 5 };
    let reg = register_admin_with(sign_up("hunter2"), "c29tZXNhbHRzb21lc2FsdA".to_string(), UserId(42), now)
        .unwrap();
    assert_eq!(reg.mapping_key, "user: admin@example.com");
    assert_eq!(reg.mapping.password_salt, "c29tZXNhbHRzb21lc2FsdA");
    assert_ne!(reg.mapping.password_hash, "hunter2");
    assert!(reg.mapping.password_hash.starts_with("$argon2id$v=19$"));
    assert_eq!(reg.mapping.id, UserId(42));
    let u = &reg.user;
    assert_eq!(u.id, UserId(42));
    assert_eq!(u.email, "admin@example.com");
    assert_eq!(u.name, "Admin");
    assert_eq!(u.profile_image_path, "");
    assert_eq!(u.avatar_color, UserColor::Yellow);
    assert_eq!(u.storage_label, UserLabel::Admin);
    assert_eq!(u.status, UserStatus::Active);
    assert!(u.is_admin && !u.is_onboarded && !u.should_change_password);
    assert_eq!(u.created_at, now);
    assert_eq!(u.updated_at, now);
    assert_eq!(u.profile_changed_at, now);
    assert_eq!(u.deleted_at, None);
    assert_eq!(u.quota_size_in_bytes, None);
    assert_eq!(u.quota_usage_in_bytes, 0);
    assert_eq!(u.license, None);
    assert!(verify_password(&reg.mapping, "hunter2").is_ok());
    assert!(matches!(verify_password(&reg.mapping, "hunter3"), Err(LoginError::BadUserPassword)));
}

#[test]
fn registration_same_inputs_same_hash() {
    let now = Timestamp { second: 0, nanosecond: 0 };
    let a = register_admin_with(sign_up("pw"), "c29tZXNhbHRzb21lc2FsdA".to_string(), UserId(1), now).unwrap();
    let b = register_admin_with(sign_up("pw"), "c29tZXNhbHRzb21lc2FsdA".to_string(), UserId(2), now).unwrap();
    assert_eq!(a.mapping.password_hash, b.mapping.password_hash);
}

#[test]
fn registration_with_unusable_salt_fails() {
    let now = Timestamp { second: 0, nanosecond: 0 };
    assert!(matches!(
        register_admin_with(sign_up("pw"), "ab".to_string(), UserId(1), now),
        Err(AdminRegisterError::CouldNotHashPassword(_))
    ));
    assert!(matches!(
        register_admin_with(sign_up("pw"), "not a salt!".to_string(), UserId(1), now),
        Err(AdminRegisterError::CouldNotHashPassword(_))
    ));
}

#[test]
fn login_check_with_bad_salt() {
    let mapping = UserMapping {
        password_salt: "bad salt".to_string(),
        password_hash: "x".to_string(),
        id: UserId(7),
    };
    assert!(matches!(verify_password(&mapping, "pw"), Err(LoginError::InternalSalt(_))));
}

#[test]
fn random_registration_then_login() {
    let reg = register_admin(sign_up("correct horse")).unwrap();
    assert_eq!(reg.mapping.password_salt.len(), 22);
    assert_eq!(reg.user.created_at, reg.user.updated_at);
    assert_eq!(reg.user.id, reg.mapping.id);
    assert!(verify_password(&reg.mapping, "correct horse").is_ok());
    assert!(verify_password(&reg.mapping, "wrong horse").is_err());
    let other = register_admin(sign_up("correct horse")).unwrap();
    assert_ne!(reg.mapping.password_salt, other.mapping.password_salt);
    assert_ne!(reg.mapping.id, other.mapping.id);
    // a version 7 UUID: version nibble 7, variant bits 10
    assert_eq!((reg.mapping.id.0 >> 76) & 0xf, 7);
    assert_eq!((reg.mapping.id.0 >> 62) & 3, 2);
}

#[test]
fn login_credentials_outcomes() {
    assert!(matches!(login_credentials(None, "pw"), Err(LoginError::BadUserPassword)));
    let reg = register_admin(sign_up("secret")).unwrap();
    let salt = reg.mapping.password_salt.clone();
    let hash = reg.mapping.password_hash.clone();
    let id = reg.mapping.id;
    let found = login_credentials(Some(reg.mapping), "secret").unwrap();
    assert_eq!(found.password_salt, salt);
    assert_eq!(found.password_hash, hash);
    assert_eq!(found.id, id);
    let mapping = UserMapping { password_salt: salt, password_hash: hash, id };
    assert!(matches!(
        login_credentials(Some(mapping), "not secret"),
        Err(LoginError::BadUserPassword)
    ));
    let bad = UserMapping { password_salt: "bad salt".to_string(), password_hash: "x".to_string(), id };
    assert!(matches!(login_credentials(Some(bad), "secret"), Err(LoginError::InternalSalt(_))));
}

fn sample_user() -> User {
    let t = Timestamp { second: 10, nanosecond: 0 };
    User {
        id: UserId(9),
        email: "u@x".to_string(),
        name: "U".to_string(),
        profile_image_path: "p".to_string(),
        avatar_color: UserColor::Yellow,
        profile_changed_at: t,
        storage_label: UserLabel::Admin,
        should_change_password: true,
        is_admin: false,
        is_onboarded: true,
        created_at: t,
        deleted_at: Some(t),
        updated_at: t,
        oauth_id: "o".to_string(),
        quota_size_in_bytes: Some(5),
        quota_usage_in_bytes: 3,
        status: UserStatus::Active,
        license: Some("l".to_string()),
    }
}

#[test]
fn login_response_copies_user() {
    let r = login_response_with("tok".to_string(), UserId(9), sample_user());
    assert_eq!(r.access_token, "tok");
    assert_eq!(r.user_id, UserId(9));
    assert_eq!(r.user_email, "u@x");
    assert_eq!(r.name, "U");
    assert!(!r.is_admin);
    assert_eq!(r.profile_image_path, "p");
    assert!(r.should_change_password);
    assert!(r.is_onboarded);
}

#[test]
fn login_response_has_fresh_uuid_token() {
    let a = login_response(UserId(9), sample_user());
    let b = login_response(UserId(9), sample_user());
    assert_eq!(a.access_token.len(), 36);
    assert!(a.access_token.chars().all(|c| c.is_ascii_hexdigit() || c == '-'));
    assert_ne!(a.access_token, b.access_token);
    assert_eq!(a.user_id, UserId(9));
}

#[test]
fn login_set_cookies_path_and_expiry() {
    let now = Timestamp { second: 1_700_000_000, nanosecond: 250 };
    let cookies = login_set_cookies("tok-1", now);
    assert_eq!(cookies.len(), 3);
    let names: Vec<&str> = cookies.iter().map(|c| c.name.as_str()).collect();
    assert_eq!(names, vec![ACCESS_TOKEN, AUTH_TYPE, IS_AUTHENTICATED]);
    let values: Vec<&str> = cookies.iter().map(|c| c.value.as_str()).collect();
    assert_eq!(values, vec!["tok-1", "password", "true"]);
    for c in &cookies {
        assert_eq!(c.path, "/");
        assert_eq!(c.expires, Timestamp { second: 1_700_086_400, nanosecond: 250 });
    }
}
