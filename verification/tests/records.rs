use chimie::api::{admin_onboarding_check, admin_onboarding_step, AdminOnboarding};
use chimie::api::auth::{AdminSignUpResponse, UserColor, UserLabel, UserStatus};
use chimie::api::me::me;
use chimie::api::media_types::Features as MediaTypes;
use chimie::api::server::about;
use chimie::api::socket::{socket_greeting, socket_reply, SocketMessage, SocketReply};
use chimie::api::users::me::{
    onboard_user, onboarding_writes, AscDesc, Cast, Download, Duration, EmailNotifications,
    Enabled, Me, Onboarding, Preferences, Purchase, SidebarWeb,
};
use chimie::config::{
    AvailabilityChecks, Backup, Clip, Config, Database, Ffmpeg, Logging, StorageTemplate,
};
use chimie::database::{Timestamp, User, UserId};
use chimie::error::HttpError;
use chimie::features::Features;

fn user(is_admin: bool) -> User {
    let t = Timestamp { second: 1, nanosecond: 2 };
    User {
        id: UserId(3),
        email: "who@example.com".to_string(),
        name: "Who".to_string(),
        profile_image_path: "img".to_string(),
        avatar_color: UserColor::Yellow,
        profile_changed_at: t,
        storage_label: UserLabel::Admin,
        should_change_password: false,
        is_admin,
        is_onboarded: false,
        created_at: t,
        deleted_at: None,
        updated_at: Timestamp { second: 4, nanosecond: 0 },
        oauth_id: String::new(),
        quota_size_in_bytes: Some(100),
        quota_usage_in_bytes: 7,
        status: UserStatus::Active,
        license: None,
    }
}

fn empty_update() -> Preferences {
    Preferences {
        albums: None,
        folders: None,
        memories: None,
        people: None,
        shared_links: None,
        ratings: None,
        tags: None,
        email_notifications: None,
        download: None,
        purchase: None,
        cast: None,
    }
}

#[test]
fn default_preferences() {
    let p = Preferences::default();
    assert_eq!(p.albums.unwrap().default_asset_order, AscDesc::Desc);
    let folders = p.folders.unwrap();
    assert!(!folders.enabled && !folders.other.sidebar_web);
    let memories = p.memories.unwrap();
    assert!(memories.enabled);
    assert_eq!(memories.other.duration, 5);
    let people = p.people.unwrap();
    assert!(people.enabled && !people.other.sidebar_web);
    let shared = p.shared_links.unwrap();
    assert!(shared.enabled && !shared.other.sidebar_web);
    assert!(!p.ratings.unwrap().enabled);
    let tags = p.tags.unwrap();
    assert!(tags.enabled && tags.other.sidebar_web);
    let mail = p.email_notifications.unwrap();
    assert!(mail.enabled && mail.other.album_invite && mail.other.album_update);
    assert_eq!(
        p.download.unwrap(),
        Download { archive_size: 4294967296, include_embedded_videos: false }
    );
    let purchase = p.purchase.unwrap();
    assert!(purchase.show_support_badge);
    assert_eq!(purchase.hide_buy_button_until, "2124-02-20T23:40:58.100Z");
    assert_eq!(p.cast.unwrap(), Cast { g_cast_enabled: false });
}

#[test]
fn preference_update_replaces_only_given_fields() {
    let mut update = empty_update();
    update.cast = Some(Cast { g_cast_enabled: true });
    update.memories = Some(Enabled { enabled: false, other: Duration { duration: 9 } });
    let merged = Preferences::merge(update, Preferences::default());
    assert_eq!(merged.cast, Some(Cast { g_cast_enabled: true }));
    let m = merged.memories.unwrap();
    assert!(!m.enabled);
    assert_eq!(m.other.duration, 9);
    assert_eq!(merged.download.unwrap().archive_size, 4294967296);
    assert!(merged.tags.unwrap().other.sidebar_web);
}

#[test]
fn empty_preference_update_keeps_everything() {
    let merged = Preferences::merge(empty_update(), Preferences::default());
    assert_eq!(merged.albums.unwrap().default_asset_order, AscDesc::Desc);
    assert_eq!(merged.purchase.unwrap().hide_buy_button_until, "2124-02-20T23:40:58.100Z");
    assert!(merged.ratings.is_some());
}

#[test]
fn full_preference_update_replaces_everything() {
    let update = Preferences {
        albums: Some(chimie::api::users::me::Albums { default_asset_order: AscDesc::Asc }),
        folders: Some(Enabled { enabled: true, other: SidebarWeb { sidebar_web: true } }),
        memories: Some(Enabled { enabled: false, other: Duration { duration: 1 } }),
        people: Some(Enabled { enabled: false, other: SidebarWeb { sidebar_web: true } }),
        shared_links: Some(Enabled { enabled: false, other: SidebarWeb { sidebar_web: true } }),
        ratings: Some(Enabled { enabled: true, other: () }),
        tags: Some(Enabled { enabled: false, other: SidebarWeb { sidebar_web: false } }),
        email_notifications: Some(Enabled {
            enabled: false,
            other: EmailNotifications { album_invite: false, album_update: false },
        }),
        download: Some(Download { archive_size: 1, include_embedded_videos: true }),
        purchase: Some(Purchase { show_support_badge: false, hide_buy_button_until: "x".to_string() }),
        cast: Some(Cast { g_cast_enabled: true }),
    };
    let merged = Preferences::merge(update, Preferences::default());
    assert_eq!(merged.albums.unwrap().default_asset_order, AscDesc::Asc);
    assert!(merged.ratings.unwrap().enabled);
    assert_eq!(merged.download.unwrap(), Download { archive_size: 1, include_embedded_videos: true });
    assert_eq!(merged.purchase.unwrap().hide_buy_button_until, "x");
}

#[test]
fn stored_preferences_or_defaults() {
    let mut stored = empty_update();
    stored.cast = Some(Cast { g_cast_enabled: true });
    let p = Preferences::stored_or_default(Some(stored));
    assert!(p.albums.is_none());
    let d = Preferences::stored_or_default(None);
    assert!(d.albums.is_some());
}

#[test]
fn onboarding() {
    assert!(onboarding_writes(&Onboarding { is_onboarded: true }));
    assert!(!onboarding_writes(&Onboarding { is_onboarded: false }));
    let u = onboard_user(user(false));
    assert!(u.is_onboarded);
    assert_eq!(u.email, "who@example.com");
    assert_eq!(u.quota_usage_in_bytes, 7);
}

#[test]
fn only_admin_finishes_onboarding() {
    assert!(admin_onboarding_check(&user(true)).is_ok());
    match admin_onboarding_check(&user(false)) {
        Err(HttpError::NonAdminUserTriedToFinalizeSystemOnboarding { user }) => {
            assert_eq!(user, "who@example.com")
        }
        other => panic!("unexpected {other:?}"),
    }
    let e = admin_onboarding_check(&user(false)).unwrap_err();
    assert_eq!(e.status_code(), 401);
    assert_eq!(HttpError::Io(std::io::Error::other("x")).status_code(), 500);
    assert_eq!(
        HttpError::Auth(chimie::auth::error::AuthenticationError::MalformedCookie(0)).status_code(),
        400
    );
    assert_eq!(
        HttpError::Login(chimie::auth::error::LoginError::BadUserPassword).status_code(),
        401
    );
}

#[test]
fn onboarding_step_decides_before_writing() {
    let config = Config { is_initialized: true, is_onboarded: false };
    let yes = AdminOnboarding { is_onboarded: true };
    let no = AdminOnboarding { is_onboarded: false };
    assert_eq!(
        admin_onboarding_step(config, yes, &user(true)).unwrap(),
        Config { is_initialized: true, is_onboarded: true }
    );
    assert_eq!(admin_onboarding_step(config, no, &user(false)).unwrap(), config);
    assert_eq!(admin_onboarding_step(config, no, &user(true)).unwrap(), config);
    match admin_onboarding_step(config, yes, &user(false)) {
        Err(HttpError::NonAdminUserTriedToFinalizeSystemOnboarding { user }) => {
            assert_eq!(user, "who@example.com")
        }
        other => panic!("unexpected {other:?}"),
    }
}

#[test]
fn global_config_steps() {
    let c = Config::stored_or_default(None);
    assert_eq!(c, Config { is_initialized: false, is_onboarded: false });
    let c = c.initialized();
    assert_eq!(c, Config { is_initialized: true, is_onboarded: false });
    let c = c.onboarded();
    assert_eq!(c, Config { is_initialized: true, is_onboarded: true });
    assert_eq!(c.initialized(), c);
    let stored = Config { is_initialized: false, is_onboarded: true };
    assert_eq!(Config::stored_or_default(Some(stored)), stored);
}

#[test]
fn config_defaults() {
    let t = StorageTemplate::default();
    assert!(!t.enabled && t.hash_verification_enabled);
    assert_eq!(t.template, "{{y}}/{{y}}-{{MM}}-{{dd}}/{{filename}}");
    let b = Backup::default();
    assert!(b.database.enabled);
    assert_eq!(b.database.cron_expression, "0 02 * * *");
    assert_eq!(b.database.keep_last_amount, 14);
    assert_eq!(Database::default().keep_last_amount, 14);
    let f = Ffmpeg::default();
    assert_eq!(f.crf, 23);
    assert_eq!(f.preset, "ultrafast");
    assert_eq!(f.accepted_video_codecs, vec!["h264"]);
    assert_eq!(f.accepted_audio_codecs, vec!["aac", "mp3", "libopus"]);
    assert_eq!(f.accepted_containers, vec!["mov", "ogg", "webm"]);
    assert_eq!(f.bframes, -1);
    assert_eq!(f.tonemap, "hable");
    assert_eq!(f.accel, "disabled");
    let l = Logging::default();
    assert!(l.enabled);
    assert_eq!(l.level, "log");
    let a = AvailabilityChecks::default();
    assert!(a.enabled);
    assert_eq!((a.timeout, a.interval), (2000, 3000));
    let c = Clip::default();
    assert!(c.enabled);
    assert_eq!(c.model_name, "ViT-B-32__openai");
}

#[test]
fn server_features() {
    let f = Features::default();
    assert!(f.smart_search && f.facial_recognition && f.duplicate_detection && f.map);
    assert!(f.reverse_geocoding && f.sidecar && f.search && f.trash && f.ocr && f.password_login);
    assert!(!f.import_faces && !f.oauth && !f.oauth_auto_launch && !f.config_file && !f.email);
}

#[test]
fn media_types() {
    let m = MediaTypes::default();
    assert_eq!(m.video.len(), 18);
    assert_eq!(m.video[0], ".3gp");
    assert_eq!(m.video[17], ".wmv");
    assert_eq!(m.image.len(), 47);
    assert_eq!(m.image[0], ".avif");
    assert_eq!(m.image[46], ".tiff");
    assert!(m.image.iter().any(|e| e == ".heic"));
    assert_eq!(m.sidecar, vec![".xmp"]);
}

#[test]
fn about_the_server() {
    let a = about();
    assert_eq!(a.version, "v2.5.6");
    assert!(!a.licensed);
    assert_eq!(a.source_commit, "3be8e265cd5bd6ca921ff9e665e274c5de45caa0");
    assert_eq!(a.imagemagick, "7.1.2-2");
}

#[test]
fn demo_profile() {
    let m = me();
    assert_eq!(m.id, "6bbe2767-7851-461a-aa2d-afbd3460aa85");
    assert_eq!(m.email, "demo@immich.app");
    assert_eq!(m.name, "Jane Doe");
    assert_eq!(m.quota_usage_in_bytes, 20846462480);
    assert!(m.is_admin && m.should_change_password);
    assert_eq!(m.deleted_at, None);
}

#[test]
fn profile_and_sign_up_answer_copy_the_user() {
    let me_view: Me = user(true).into();
    assert_eq!(me_view.email, "who@example.com");
    assert_eq!(me_view.quota_size_in_bytes, Some(100));
    assert_eq!(me_view.updated_at, Timestamp { second: 4, nanosecond: 0 });
    let answer: AdminSignUpResponse = user(false).into();
    assert_eq!(answer.id, UserId(3));
    assert_eq!(answer.name, "Who");
    assert!(!answer.is_admin);
    assert_eq!(answer.profile_image_path, "img");
}

#[test]
fn socket_answers() {
    match socket_greeting() {
        SocketReply::Text(t) => assert_eq!(t, "2"),
        other => panic!("unexpected {other:?}"),
    }
    let reply = |s: &str| match socket_reply(SocketMessage::Text(s.to_string())) {
        SocketReply::Text(t) => Some(t),
        SocketReply::Nothing => None,
        other => panic!("unexpected {other:?}"),
    };
    assert_eq!(reply("5").as_deref(), Some("4"));
    assert_eq!(reply("0").as_deref(), Some("-1"));
    assert_eq!(reply("+10").as_deref(), Some("9"));
    assert_eq!(reply("-2147483648").as_deref(), Some("-2147483648"));
    assert_eq!(reply("2147483647").as_deref(), Some("2147483646"));
    assert_eq!(reply("2147483648"), None);
    assert_eq!(reply("abc"), None);
    assert_eq!(reply(" 5"), None);
    assert_eq!(reply("-"), None);
    assert_eq!(reply(""), None);
    assert_eq!(reply("+"), None);
    assert_eq!(reply("12a"), None);
    assert_eq!(reply("-2147483649"), None);
    assert_eq!(reply("99999999999999999999"), None);
    assert_eq!(reply("007").as_deref(), Some("6"));
    assert_eq!(reply("-0").as_deref(), Some("-1"));
    assert_eq!(reply("-1234").as_deref(), Some("-1235"));
    assert_eq!(reply("1000").as_deref(), Some("999"));
    for n in [i32::MIN + 1, -1000, -10, -1, 1, 10, 123456, i32::MAX] {
        assert_eq!(reply(&n.to_string()), Some((n - 1).to_string()));
    }
    assert!(matches!(socket_reply(SocketMessage::Ping(vec![1, 2])), SocketReply::Pong(b) if b == vec![1, 2]));
    assert!(matches!(socket_reply(SocketMessage::Pong(vec![3])), SocketReply::Ping(b) if b == vec![3]));
    assert!(matches!(socket_reply(SocketMessage::Binary(vec![4])), SocketReply::Binary(b) if b == vec![4]));
    assert!(matches!(socket_reply(SocketMessage::Close), SocketReply::Nothing));
    assert!(matches!(socket_reply(SocketMessage::Failed), SocketReply::Nothing));
}
