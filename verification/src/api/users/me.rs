//! The current user: the profile it is shown, its preferences and its
//! onboarding.
use vstd::prelude::*;

use crate::api::auth::{UserColor, UserLabel, UserStatus};
use crate::database::{Timestamp, User, UserId};

verus! {

broadcast use vstd::string::group_string_axioms;

/// The profile of the current user.
#[derive(Debug)]
pub struct Me {
    pub id: UserId,
    pub email: String,
    pub name: String,
    pub profile_image_path: String,
    pub avatar_color: UserColor,
    pub profile_changed_at: Timestamp,
    pub storage_label: UserLabel,
    pub should_change_password: bool,
    pub is_admin: bool,
    pub created_at: Timestamp,
    pub deleted_at: Option<Timestamp>,
    pub updated_at: Timestamp,
    pub oauth_id: String,
    pub quota_size_in_bytes: Option<usize>,
    pub quota_usage_in_bytes: usize,
    pub status: UserStatus,
    pub license: Option<String>,
}

impl vstd::std_specs::convert::FromSpecImpl<User> for Me {
    open spec fn obeys_from_spec() -> bool {
        true
    }

    open spec fn from_spec(user: User) -> Me {
        Me {
            id: user.id,
            email: user.email,
            name: user.name,
            profile_image_path: user.profile_image_path,
            avatar_color: user.avatar_color,
            profile_changed_at: user.profile_changed_at,
            storage_label: user.storage_label,
            should_change_password: user.should_change_password,
            is_admin: user.is_admin,
            created_at: user.created_at,
            deleted_at: user.deleted_at,
            updated_at: user.updated_at,
            oauth_id: user.oauth_id,
            quota_size_in_bytes: user.quota_size_in_bytes,
            quota_usage_in_bytes: user.quota_usage_in_bytes,
            status: user.status,
            license: user.license,
        }
    }
}

/// The profile of a user shows the user as stored: each of its fields is the
/// user's field of the same name (whether the user is onboarded is not
/// shown).
pub proof fn lemma_profile_shows_user(u: User)
    ensures
        ({
            let m = <Me as vstd::std_specs::convert::FromSpec<User>>::from_spec(u);
            &&& m.id == u.id
            &&& m.email@ == u.email@
            &&& m.name@ == u.name@
            &&& m.profile_image_path@ == u.profile_image_path@
            &&& m.avatar_color == u.avatar_color
            &&& m.profile_changed_at == u.profile_changed_at
            &&& m.storage_label == u.storage_label
            &&& m.should_change_password == u.should_change_password
            &&& m.is_admin == u.is_admin
            &&& m.created_at == u.created_at
            &&& m.deleted_at == u.deleted_at
            &&& m.updated_at == u.updated_at
            &&& m.oauth_id@ == u.oauth_id@
            &&& m.quota_size_in_bytes == u.quota_size_in_bytes
            &&& m.quota_usage_in_bytes == u.quota_usage_in_bytes
            &&& m.status == u.status
            &&& m.license == u.license
        }),
{
}

impl From<User> for Me {
    /// The profile shows every field of the user but whether it is onboarded.
    fn from(user: User) -> (r: Me)
        ensures
            r.id == user.id,
            r.email@ == user.email@,
            r.name@ == user.name@,
            r.profile_image_path@ == user.profile_image_path@,
            r.avatar_color == user.avatar_color,
            r.profile_changed_at == user.profile_changed_at,
            r.storage_label == user.storage_label,
            r.should_change_password == user.should_change_password,
            r.is_admin == user.is_admin,
            r.created_at == user.created_at,
            r.deleted_at == user.deleted_at,
            r.updated_at == user.updated_at,
            r.oauth_id@ == user.oauth_id@,
            r.quota_size_in_bytes == user.quota_size_in_bytes,
            r.quota_usage_in_bytes == user.quota_usage_in_bytes,
            r.status == user.status,
            r.license == user.license,
    {
        Me {
            id: user.id,
            email: user.email,
            name: user.name,
            profile_image_path: user.profile_image_path,
            avatar_color: user.avatar_color,
            profile_changed_at: user.profile_changed_at,
            storage_label: user.storage_label,
            should_change_password: user.should_change_password,
            is_admin: user.is_admin,
            created_at: user.created_at,
            deleted_at: user.deleted_at,
            updated_at: user.updated_at,
            oauth_id: user.oauth_id,
            quota_size_in_bytes: user.quota_size_in_bytes,
            quota_usage_in_bytes: user.quota_usage_in_bytes,
            status: user.status,
            license: user.license,
        }
    }
}

#[derive(Debug)]
pub struct Enabled<T> {
    pub enabled: bool,
    pub other: T,
}

#[derive(Debug, Clone, Copy, PartialEq, Eq, Structural)]
pub struct SidebarWeb {
    pub sidebar_web: bool,
}

#[derive(Debug, Clone, Copy, PartialEq, Eq, Structural)]
pub struct Albums {
    pub default_asset_order: AscDesc,
}

#[derive(Debug, Clone, Copy, PartialEq, Eq, Structural)]
pub enum AscDesc {
    Asc,
    Desc,
}

#[derive(Debug, Clone, Copy, PartialEq, Eq, Structural)]
pub struct Duration {
    pub duration: usize,
}

#[derive(Debug, Clone, Copy, PartialEq, Eq, Structural)]
pub struct EmailNotifications {
    pub album_invite: bool,
    pub album_update: bool,
}

#[derive(Debug, Clone, Copy, PartialEq, Eq, Structural)]
pub struct Download {
    pub archive_size: u64,
    pub include_embedded_videos: bool,
}

#[derive(Debug)]
pub struct Purchase {
    pub show_support_badge: bool,
    pub hide_buy_button_until: String,
}

#[derive(Debug, Clone, Copy, PartialEq, Eq, Structural)]
pub struct Cast {
    pub g_cast_enabled: bool,
}

/// The preferences of a user; a field left out of an update keeps its value.
#[derive(Debug)]
pub struct Preferences {
    pub albums: Option<Albums>,
    pub folders: Option<Enabled<SidebarWeb>>,
    pub memories: Option<Enabled<Duration>>,
    pub people: Option<Enabled<SidebarWeb>>,
    pub shared_links: Option<Enabled<SidebarWeb>>,
    pub ratings: Option<Enabled<()>>,
    pub tags: Option<Enabled<SidebarWeb>>,
    pub email_notifications: Option<Enabled<EmailNotifications>>,
    pub download: Option<Download>,
    pub purchase: Option<Purchase>,
    pub cast: Option<Cast>,
}

/// The preferences of a user who never set any.
pub open spec fn is_default_preferences(p: Preferences) -> bool {
    &&& p.albums == Some(Albums { default_asset_order: AscDesc::Desc })
    &&& p.folders == Some(Enabled { enabled: false, other: SidebarWeb { sidebar_web: false } })
    &&& p.memories == Some(Enabled { enabled: true, other: Duration { duration: 5 } })
    &&& p.people == Some(Enabled { enabled: true, other: SidebarWeb { sidebar_web: false } })
    &&& p.shared_links == Some(Enabled { enabled: true, other: SidebarWeb { sidebar_web: false } })
    &&& p.ratings == Some(Enabled { enabled: false, other: () })
    &&& p.tags == Some(Enabled { enabled: true, other: SidebarWeb { sidebar_web: true } })
    &&& p.email_notifications == Some(
        Enabled { enabled: true, other: EmailNotifications { album_invite: true, album_update: true } },
    )
    &&& p.download == Some(Download { archive_size: 4294967296, include_embedded_videos: false })
    &&& p.purchase matches Some(purchase) && purchase.show_support_badge
        && purchase.hide_buy_button_until@ == "2124-02-20T23:40:58.100Z"@
    &&& p.cast == Some(Cast { g_cast_enabled: false })
}

impl Default for Preferences {
    fn default() -> (r: Self)
        ensures
            is_default_preferences(r),
    {
        Self {
            albums: Some(Albums { default_asset_order: AscDesc::Desc }),
            folders: Some(Enabled { enabled: false, other: SidebarWeb { sidebar_web: false } }),
            memories: Some(Enabled { enabled: true, other: Duration { duration: 5 } }),
            people: Some(Enabled { enabled: true, other: SidebarWeb { sidebar_web: false } }),
            shared_links: Some(Enabled { enabled: true, other: SidebarWeb { sidebar_web: false } }),
            ratings: Some(Enabled { enabled: false, other: () }),
            tags: Some(Enabled { enabled: true, other: SidebarWeb { sidebar_web: true } }),
            email_notifications: Some(
                Enabled {
                    enabled: true,
                    other: EmailNotifications { album_invite: true, album_update: true },
                },
            ),
            download: Some(Download { archive_size: 4294967296, include_embedded_videos: false }),
            purchase: Some(
                Purchase {
                    show_support_badge: true,
                    hide_buy_button_until: "2124-02-20T23:40:58.100Z".to_owned(),
                },
            ),
            cast: Some(Cast { g_cast_enabled: false }),
        }
    }
}

/// The first of two optional values that is present.
pub open spec fn first_some<T>(a: Option<T>, b: Option<T>) -> Option<T> {
    match a {
        Some(x) => Some(x),
        None => b,
    }
}

/// The preferences after `update` is applied to `current`: each field the
/// update sets replaces the current one, each field it leaves out is kept.
pub open spec fn merged_preferences(update: Preferences, current: Preferences) -> Preferences {
    Preferences {
        albums: first_some(update.albums, current.albums),
        folders: first_some(update.folders, current.folders),
        memories: first_some(update.memories, current.memories),
        people: first_some(update.people, current.people),
        shared_links: first_some(update.shared_links, current.shared_links),
        ratings: first_some(update.ratings, current.ratings),
        tags: first_some(update.tags, current.tags),
        email_notifications: first_some(update.email_notifications, current.email_notifications),
        download: first_some(update.download, current.download),
        purchase: first_some(update.purchase, current.purchase),
        cast: first_some(update.cast, current.cast),
    }
}

fn or_else<T>(a: Option<T>, b: Option<T>) -> (r: Option<T>)
    ensures
        r == first_some(a, b),
{
    match a {
        Some(x) => Some(x),
        None => b,
    }
}

impl Preferences {
    /// Applies an update to the current preferences.
    pub fn merge(update: Preferences, current: Preferences) -> (r: Preferences)
        ensures
            r == merged_preferences(update, current),
            update.albums is Some ==> r.albums == update.albums,
            update.albums is None ==> r.albums == current.albums,
            update.folders is Some ==> r.folders == update.folders,
            update.folders is None ==> r.folders == current.folders,
            update.memories is Some ==> r.memories == update.memories,
            update.memories is None ==> r.memories == current.memories,
            update.people is Some ==> r.people == update.people,
            update.people is None ==> r.people == current.people,
            update.shared_links is Some ==> r.shared_links == update.shared_links,
            update.shared_links is None ==> r.shared_links == current.shared_links,
            update.ratings is Some ==> r.ratings == update.ratings,
            update.ratings is None ==> r.ratings == current.ratings,
            update.tags is Some ==> r.tags == update.tags,
            update.tags is None ==> r.tags == current.tags,
            update.email_notifications is Some ==> r.email_notifications == update.email_notifications,
            update.email_notifications is None ==> r.email_notifications == current.email_notifications,
            update.download is Some ==> r.download == update.download,
            update.download is None ==> r.download == current.download,
            update.purchase is Some ==> r.purchase == update.purchase,
            update.purchase is None ==> r.purchase == current.purchase,
            update.cast is Some ==> r.cast == update.cast,
            update.cast is None ==> r.cast == current.cast,
    {
        Preferences {
            albums: or_else(update.albums, current.albums),
            folders: or_else(update.folders, current.folders),
            memories: or_else(update.memories, current.memories),
            people: or_else(update.people, current.people),
            shared_links: or_else(update.shared_links, current.shared_links),
            ratings: or_else(update.ratings, current.ratings),
            tags: or_else(update.tags, current.tags),
            email_notifications: or_else(update.email_notifications, current.email_notifications),
            download: or_else(update.download, current.download),
            purchase: or_else(update.purchase, current.purchase),
            cast: or_else(update.cast, current.cast),
        }
    }

    /// The stored preferences of a user, or the defaults when none are stored.
    pub fn stored_or_default(stored: Option<Preferences>) -> (r: Preferences)
        ensures
            match stored {
                Some(p) => r == p,
                None => is_default_preferences(r),
            },
    {
        match stored {
            Some(p) => p,
            None => Preferences::default(),
        }
    }
}

/// An update that sets no field.
pub open spec fn is_empty_update(u: Preferences) -> bool {
    &&& u.albums is None
    &&& u.folders is None
    &&& u.memories is None
    &&& u.people is None
    &&& u.shared_links is None
    &&& u.ratings is None
    &&& u.tags is None
    &&& u.email_notifications is None
    &&& u.download is None
    &&& u.purchase is None
    &&& u.cast is None
}

/// An update that sets every field.
pub open spec fn is_full_update(u: Preferences) -> bool {
    &&& u.albums is Some
    &&& u.folders is Some
    &&& u.memories is Some
    &&& u.people is Some
    &&& u.shared_links is Some
    &&& u.ratings is Some
    &&& u.tags is Some
    &&& u.email_notifications is Some
    &&& u.download is Some
    &&& u.purchase is Some
    &&& u.cast is Some
}

/// Field by field, whatever else the update sets: a field the update sets
/// takes the update's value, a field it leaves out keeps the current value.
pub proof fn lemma_merge_field_by_field(update: Preferences, current: Preferences)
    ensures
        update.albums is Some ==> merged_preferences(update, current).albums == update.albums,
        update.albums is None ==> merged_preferences(update, current).albums == current.albums,
        update.folders is Some ==> merged_preferences(update, current).folders == update.folders,
        update.folders is None ==> merged_preferences(update, current).folders == current.folders,
        update.memories is Some ==> merged_preferences(update, current).memories == update.memories,
        update.memories is None ==> merged_preferences(update, current).memories == current.memories,
        update.people is Some ==> merged_preferences(update, current).people == update.people,
        update.people is None ==> merged_preferences(update, current).people == current.people,
        update.shared_links is Some ==> merged_preferences(update, current).shared_links == update.shared_links,
        update.shared_links is None ==> merged_preferences(update, current).shared_links == current.shared_links,
        update.ratings is Some ==> merged_preferences(update, current).ratings == update.ratings,
        update.ratings is None ==> merged_preferences(update, current).ratings == current.ratings,
        update.tags is Some ==> merged_preferences(update, current).tags == update.tags,
        update.tags is None ==> merged_preferences(update, current).tags == current.tags,
        update.email_notifications is Some ==> merged_preferences(update, current).email_notifications == update.email_notifications,
        update.email_notifications is None ==> merged_preferences(update, current).email_notifications == current.email_notifications,
        update.download is Some ==> merged_preferences(update, current).download == update.download,
        update.download is None ==> merged_preferences(update, current).download == current.download,
        update.purchase is Some ==> merged_preferences(update, current).purchase == update.purchase,
        update.purchase is None ==> merged_preferences(update, current).purchase == current.purchase,
        update.cast is Some ==> merged_preferences(update, current).cast == update.cast,
        update.cast is None ==> merged_preferences(update, current).cast == current.cast,
{
}

/// An update that sets nothing leaves the preferences as they are.
pub proof fn lemma_empty_update_keeps(update: Preferences, current: Preferences)
    requires
        is_empty_update(update),
    ensures
        merged_preferences(update, current) == current,
{
}

/// An update that sets every field replaces the preferences by itself.
pub proof fn lemma_full_update_replaces(update: Preferences, current: Preferences)
    requires
        is_full_update(update),
    ensures
        merged_preferences(update, current) == update,
{
}

/// Sending the same update twice is the same as sending it once.
pub proof fn lemma_update_idempotent(update: Preferences, current: Preferences)
    ensures
        merged_preferences(update, merged_preferences(update, current)) == merged_preferences(
            update,
            current,
        ),
{
}

/// Two updates in a row are the one update that sets what the later sets and,
/// for the rest, what the earlier sets.
pub proof fn lemma_updates_compose(first: Preferences, second: Preferences, current: Preferences)
    ensures
        merged_preferences(second, merged_preferences(first, current)) == merged_preferences(
            merged_preferences(second, first),
            current,
        ),
{
}

/// A request to mark the current user onboarded (or not).
#[derive(Debug, Clone, Copy, PartialEq, Eq, Structural)]
pub struct Onboarding {
    pub is_onboarded: bool,
}

/// The user once onboarded; the rest is kept.
pub fn onboard_user(user: User) -> (r: User)
    ensures
        r == (User { is_onboarded: true, ..user }),
{
    User { is_onboarded: true, ..user }
}

/// Whether an onboarding request changes the stored user: only a request
/// that sets `is_onboarded` does; the request is answered with itself either
/// way.
pub fn onboarding_writes(onboarding: &Onboarding) -> (r: bool)
    ensures
        r == onboarding.is_onboarded,
{
    onboarding.is_onboarded
}

} // verus!
