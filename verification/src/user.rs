//! The keys of a user's own keyspace.
use vstd::prelude::*;

verus! {

/// The key of the user record.
pub const USER: &'static str = "user";

/// The prefix of the keys of uploaded assets.
pub const ASSET_PREFIX: &'static str = "asset";

/// The key of the user's preferences.
pub const PREFERENCES: &'static str = "preferences";

/// The key of the user's system configuration.
pub const SYSTEM_CONFIG: &'static str = "system_config";

} // verus!
