//! Conversion of provider OAuth tokens into the canonical stored token.
//! A missing refresh token is treated as valid but non-refreshable, not
//! as an error; a token without an expiry cannot be stored.

use vstd::prelude::*;
use vstd::string::StringExecFns;

use crate::db::SpotifyAuthToken;

verus! {

/// An error during an authorization exchange.
#[derive(Debug)]
pub struct AuthError {
    msg: String,
}

impl AuthError {
    /// The wrapped description.
    pub closed spec fn text(&self) -> Seq<char> {
        self.msg@
    }

    /// Wraps a description of what failed.
    pub fn new(msg: String) -> (r: AuthError)
        ensures
            r.text() == msg@,
    {
        AuthError { msg }
    }

    /// A readable description of the error.
    pub fn message(&self) -> (r: String)
        ensures
            r@ == "error during auth: "@ + self.text(),
    {
        String::from_str("error during auth: ").concat(self.msg.as_str())
    }
}

/// The form data of the authorization callback.
pub struct CompleteAuthRequest {
    pub state: String,
}

/// The canonical stored OAuth token, one shape for every provider.
pub struct OAuthToken {
    pub user_id: i64,
    /// Absent for tokens that cannot be refreshed; such a token is still
    /// valid until it expires.
    pub refresh_token: Option<String>,
    pub access_token: String,
    pub expiry_time: String,
    pub token_type: String,
    pub deleted_at: Option<String>,
    pub created_at: String,
    pub updated_at: String,
    pub for_service: String,
}

/// Relies on `chrono::Utc::now` and `chrono::DateTime::to_rfc3339` for a
/// timestamp of the current moment; nothing is assumed of the clock's
/// value.
#[verifier::external_body]
fn now_rfc3339() -> String {
    chrono::Utc::now().to_rfc3339()
}

/// A provider token that converts into the canonical stored token.
pub trait IntoOAuthToken {
    /// The canonical stored token of this provider token, for `user_id`.
    fn into_oauth_token(&self, user_id: i64) -> Option<OAuthToken>;
}

/// A token as the Tidal authorization flow hands it over.
#[derive(Clone)]
pub struct TidalToken {
    pub access_token: String,
    pub refresh_token: Option<String>,
    pub expiry: String,
}

impl IntoOAuthToken for TidalToken {
    fn into_oauth_token(&self, user_id: i64) -> (r: Option<OAuthToken>)
        ensures
            r matches Some(t) && t.user_id == user_id && t.access_token@ == self.access_token@
                && t.refresh_token == self.refresh_token && t.expiry_time@ == self.expiry@
                && t.token_type@ == "Bearer"@ && t.deleted_at is None && t.for_service@
                == "tidal"@,
    {
        Some(
            OAuthToken {
                user_id,
                refresh_token: match &self.refresh_token {
                    Some(x) => Some(x.clone()),
                    None => None,
                },
                access_token: self.access_token.clone(),
                expiry_time: self.expiry.clone(),
                token_type: String::from_str("Bearer"),
                deleted_at: None,
                created_at: now_rfc3339(),
                updated_at: now_rfc3339(),
                for_service: String::from_str("tidal"),
            },
        )
    }
}

/// A token as the Spotify authorization flow hands it over.
#[derive(Clone)]
pub struct SpotifyToken {
    pub access_token: String,
    pub refresh_token: Option<String>,
    pub expires_at: Option<String>,
}

impl IntoOAuthToken for SpotifyToken {
    fn into_oauth_token(&self, user_id: i64) -> (r: Option<OAuthToken>)
        ensures
            self.expires_at is None ==> r is None,
            self.expires_at matches Some(e) ==> r matches Some(t) && t.user_id == user_id
                && t.access_token@ == self.access_token@ && t.refresh_token == self.refresh_token
                && t.expiry_time@ == e@ && t.token_type@ == "Bearer"@ && t.deleted_at is None
                && t.for_service@ == "spotify"@,
    {
        let expiry_time = match &self.expires_at {
            Some(e) => e.clone(),
            None => {
                return None;
            },
        };
        Some(
            OAuthToken {
                user_id,
                refresh_token: match &self.refresh_token {
                    Some(x) => Some(x.clone()),
                    None => None,
                },
                access_token: self.access_token.clone(),
                expiry_time,
                token_type: String::from_str("Bearer"),
                deleted_at: None,
                created_at: now_rfc3339(),
                updated_at: now_rfc3339(),
                for_service: String::from_str("spotify"),
            },
        )
    }
}

/// Builds the stored Spotify token row for a completed authorization.
/// A token without an expiry cannot be stored and is an error; a missing
/// refresh token is stored empty — the token is valid but will not be
/// refreshable.
pub fn spotify_auth_token_record(
    user_id: i64,
    access_token: String,
    refresh_token: Option<String>,
    expires_at: Option<String>,
) -> (r: Result<SpotifyAuthToken, AuthError>)
    ensures
        expires_at is None ==> r is Err,
        expires_at matches Some(e) ==> r matches Ok(t) && t.user_id == user_id
            && t.spotify_access_token@ == access_token@ && t.spotify_expiry_time@ == e@ && (match
        refresh_token {
            Some(x) => t.spotify_refresh_token@ == x@,
            None => t.spotify_refresh_token@.len() == 0,
        }) && t.spotify_token_type@ == "Bearer"@ && t.deleted_at is None,
{
    let expiry = match expires_at {
        Some(e) => e,
        None => {
            return Err(AuthError::new(String::from_str("token carries no expiry time")));
        },
    };
    let now = now_rfc3339();
    Ok(
        SpotifyAuthToken {
            user_id,
            spotify_refresh_token: match refresh_token {
                Some(x) => x,
                None => String::new(),
            },
            spotify_access_token: access_token,
            spotify_expiry_time: expiry,
            spotify_token_type: String::from_str("Bearer"),
            deleted_at: None,
            created_at: now.clone(),
            updated_at: now,
        },
    )
}

} // verus!
