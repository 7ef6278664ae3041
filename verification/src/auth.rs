//! Authentication and account shapes: OAuth provider flows, JWT claims,
//! API-key management, and the user records the providers hand back.
//!
//! Identifiers and timestamps that the service stores in provider-specific
//! types are carried here as plain values: key ids as their hyphenated
//! string form, creation times as seconds since the Unix epoch.

use vstd::prelude::*;

verus! {

/// The claims carried in an issued JWT.
#[derive(Clone, Debug)]
pub struct Claims {
    pub sub: String,
    pub email: String,
    pub discord_id: Option<String>,
    pub username: Option<String>,
    pub global_name: Option<String>,
    pub avatar: Option<String>,
    /// Expiration time, epoch seconds.
    pub exp: usize,
    /// Issued at, epoch seconds.
    pub iat: usize,
}

#[derive(Clone, Debug)]
pub struct CallbackQuery {
    pub code: String,
}

#[derive(Clone, Debug)]
pub struct DeletionInitiateResponse {
    pub auth_url: String,
    pub state: String,
}

#[derive(Clone, Debug)]
pub struct DeletionCallbackQuery {
    pub code: String,
    pub state: String,
}

#[derive(Clone, Debug)]
pub struct LinkDiscordQuery {
    pub token: Option<String>,
}

#[derive(Clone, Debug)]
pub struct OAuthInitiateResponse {
    pub auth_url: String,
}

#[derive(Clone, Debug)]
pub struct DiscordCallbackQuery {
    pub code: String,
    pub state: Option<String>,
}

#[derive(Clone, Debug)]
pub struct ApiKeyResponse {
    pub id: String,
    pub name: String,
    pub key_preview: String,
    pub status: String,
    pub created_at: String,
    pub last_used: Option<String>,
    pub usage_count: i64,
}

#[derive(Clone, Debug)]
pub struct CreateApiKeyResponse {
    pub id: String,
    pub name: String,
    pub full_key: String,
    pub key_preview: String,
    pub status: String,
    pub created_at: String,
    pub warning: String,
}

#[derive(Clone, Debug)]
pub struct DeleteApiKeyResponse {
    pub message: String,
}

#[derive(Clone, Debug)]
pub struct CreateApiKeyRequest {
    pub name: String,
}

/// A freshly generated API key. The id is the key's unique id in hyphenated
/// string form; `created_at` is epoch seconds.
#[derive(Clone, Debug)]
pub struct GeneratedApiKey {
    pub id: String,
    pub full_key: String,
    pub name: String,
    pub status: String,
    pub created_at: i64,
    pub key_preview: String,
}

#[derive(Clone, Debug)]
pub struct DiscordTokenResponse {
    pub access_token: String,
    pub token_type: String,
    pub expires_in: i64,
    pub refresh_token: String,
    pub scope: String,
}

#[derive(Clone, Debug)]
pub struct DiscordUser {
    pub id: String,
    pub username: String,
    pub discriminator: Option<String>,
    pub global_name: Option<String>,
    pub avatar: Option<String>,
    pub email: String,
}

#[derive(Clone, Debug)]
pub struct GoogleTokenResponse {
    pub access_token: String,
    pub token_type: String,
    pub expires_in: i64,
    pub refresh_token: Option<String>,
    pub scope: String,
}

#[derive(Clone, Debug)]
pub struct GoogleUser {
    pub id: String,
    pub email: String,
    pub verified_email: bool,
    pub name: Option<String>,
    pub given_name: Option<String>,
    pub family_name: Option<String>,
    pub picture: Option<String>,
}

#[derive(Clone, Debug)]
pub struct GitHubTokenResponse {
    pub access_token: String,
    pub token_type: String,
    pub scope: String,
}

#[derive(Clone, Debug)]
pub struct GitHubUser {
    pub id: i64,
    pub login: String,
    pub email: Option<String>,
    pub name: Option<String>,
    pub avatar_url: Option<String>,
}

#[derive(Clone, Debug)]
pub struct GitHubEmail {
    pub email: String,
    pub primary: bool,
    pub verified: bool,
    pub visibility: Option<String>,
}

#[derive(Clone, Debug)]
pub struct AuthResponse {
    pub token: String,
    pub user: UserInfo,
}

#[derive(Clone, Debug)]
pub struct UserInfo {
    pub id: String,
    pub discord_id: Option<String>,
    pub email: String,
    pub username: String,
    pub global_name: Option<String>,
    pub avatar: Option<String>,
}

/// The fields of an OAuth token-exchange request.
#[derive(Clone, Debug)]
pub struct TokenRequest<'a> {
    pub client_id: &'a str,
    pub client_secret: &'a str,
    pub grant_type: &'a str,
    pub code: &'a str,
    pub redirect_uri: &'a str,
}

/// The identity providers a user can sign in with.
#[derive(Clone, Copy, Debug, PartialEq, Eq, Structural)]
pub enum OAuthProviderType {
    Discord,
    Google,
    GitHub,
}

#[derive(Clone, Debug)]
pub struct AuthState {
    pub is_authenticated: bool,
    pub user: Option<UserInfo>,
    pub jwt_token: Option<String>,
}

/// The lowercase name of each provider.
pub open spec fn provider_name(p: OAuthProviderType) -> Seq<char> {
    match p {
        OAuthProviderType::Discord => "discord"@,
        OAuthProviderType::Google => "google"@,
        OAuthProviderType::GitHub => "github"@,
    }
}

impl OAuthProviderType {
    /// The lowercase name of this provider.
    pub fn as_str(&self) -> (r: &'static str)
        ensures
            r@ == provider_name(*self),
    {
        match self {
            OAuthProviderType::Discord => "discord",
            OAuthProviderType::Google => "google",
            OAuthProviderType::GitHub => "github",
        }
    }
}

} // verus!
