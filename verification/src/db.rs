//! The records the persistence layer stores. The store itself — SQL,
//! connections, locking — is an external collaborator; only the record
//! shapes belong to the library.

use vstd::prelude::*;
use vstd::string::StringExecFns;

verus! {

/// A known chat user.
#[derive(Clone, Debug)]
pub struct User {
    /// Row id; absent until the row is inserted.
    pub id: Option<i64>,
    pub discord_user_id: String,
    pub deleted_at: Option<String>,
    pub created_at: String,
    pub updated_at: String,
}

/// The stored Spotify token of a user.
pub struct SpotifyAuthToken {
    pub user_id: i64,
    /// Empty when the token is valid but not refreshable.
    pub spotify_refresh_token: String,
    pub spotify_access_token: String,
    pub spotify_expiry_time: String,
    pub spotify_token_type: String,
    pub deleted_at: Option<String>,
    pub created_at: String,
    pub updated_at: String,
}

/// A user's registration within one chat guild.
pub struct UserGuild {
    pub user_id: i64,
    pub discord_guild_id: String,
    /// The playlist additions go to, once registered.
    pub spotify_playlist_id: Option<String>,
    pub deleted_at: Option<String>,
    pub created_at: String,
    pub updated_at: String,
}

/// A pending authorization, keyed by its `state` nonce.
pub struct AuthRequest {
    pub discord_user_id: String,
    pub state: String,
}

/// The persistence layer's lock could not be taken.
pub struct DbError;

impl DbError {
    /// A readable description of the error.
    pub fn message(&self) -> (r: String)
        ensures
            r@ == "failed to acquire db lock"@,
    {
        String::from_str("failed to acquire db lock")
    }
}

} // verus!
