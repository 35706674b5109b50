//! Token conversion and the error types' messages.

use spootifer::auth::{
    AuthError, IntoOAuthToken, SpotifyToken, TidalToken, spotify_auth_token_record,
};
use spootifer::db::DbError;
use spootifer::tidal::TidalError;
use spootifer::youtube::YoutubeError;

#[test]
fn tidal_tokens_convert_to_the_canonical_shape() {
    let t = TidalToken {
        access_token: "acc".to_string(),
        refresh_token: Some("ref".to_string()),
        expiry: "2031-01-01T00:00:00Z".to_string(),
    };
    let o = t.into_oauth_token(7).expect("conversion should succeed");
    assert_eq!(o.user_id, 7);
    assert_eq!(o.access_token, "acc");
    assert_eq!(o.refresh_token.as_deref(), Some("ref"));
    assert_eq!(o.expiry_time, "2031-01-01T00:00:00Z");
    assert_eq!(o.token_type, "Bearer");
    assert_eq!(o.for_service, "tidal");
    assert!(o.deleted_at.is_none());
}

#[test]
fn missing_refresh_token_is_kept_not_rejected() {
    // a token without a refresh token is valid but non-refreshable
    let t = TidalToken {
        access_token: "acc".to_string(),
        refresh_token: None,
        expiry: "2031-01-01T00:00:00Z".to_string(),
    };
    let o = t.into_oauth_token(1).expect("conversion should succeed");
    assert!(o.refresh_token.is_none());
}

#[test]
fn spotify_tokens_need_an_expiry() {
    let t = SpotifyToken {
        access_token: "acc".to_string(),
        refresh_token: Some("ref".to_string()),
        expires_at: None,
    };
    assert!(t.into_oauth_token(1).is_none());
    let ok = SpotifyToken {
        access_token: "acc".to_string(),
        refresh_token: None,
        expires_at: Some("2031-01-01T00:00:00Z".to_string()),
    };
    let o = ok.into_oauth_token(2).expect("conversion should succeed");
    assert_eq!(o.user_id, 2);
    assert_eq!(o.for_service, "spotify");
    assert_eq!(o.expiry_time, "2031-01-01T00:00:00Z");
    assert!(o.refresh_token.is_none());
}

#[test]
fn stored_spotify_token_rows_resolve_the_refresh_ambiguity() {
    let r = spotify_auth_token_record(
        3,
        "acc".to_string(),
        None,
        Some("2031-01-01T00:00:00Z".to_string()),
    )
    .expect("a token with an expiry is stored");
    assert_eq!(r.user_id, 3);
    assert_eq!(r.spotify_access_token, "acc");
    // missing refresh token: stored empty, not an error
    assert_eq!(r.spotify_refresh_token, "");
    assert_eq!(r.spotify_token_type, "Bearer");
    let err = spotify_auth_token_record(3, "acc".to_string(), Some("ref".to_string()), None);
    assert!(err.is_err());
}

#[test]
fn error_messages_name_their_cause() {
    let e = AuthError::new("nope".to_string());
    assert_eq!(e.message(), "error during auth: nope");
    assert_eq!(DbError.message(), "failed to acquire db lock");
    let t = TidalError::ClientInitializationError { cause: "no id".to_string() };
    assert_eq!(t.message(), "failed to initialize client: no id");
    let t2 = TidalError::ApiError { api: "albums".to_string(), cause: "down".to_string() };
    assert_eq!(t2.message(), "failed call albums api: down");
    let y = YoutubeError::ClientInitializationError { cause: "no key".to_string() };
    assert_eq!(y.message(), "failed to initialize client: no key");
    assert_eq!(spootifer::spotify::SpotifyErr.message(), "error");
}

#[test]
fn redirect_uri_is_the_callback_path() {
    assert_eq!(spootifer::tidal::redirect_uri("https://bot.example"), "https://bot.example/callback");
}
