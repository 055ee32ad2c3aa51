//! The identity provider's configuration, the checks that an ID token's
//! claims must pass, the steps around code exchange and refresh, and the
//! provider's end-session URL.

use std::str::FromStr;
use vstd::prelude::*;

use crate::token::{opt_view, OidcToken, TokenError, TokenResponse, TokenView};

verus! {

/// The text of a URL after parsing and normalisation, or None where it does not parse.
pub uninterp spec fn parsed_url(s: Seq<char>) -> Option<Seq<char>>;

/// `url` with the query pair `key=value` appended (form-encoded), or None
/// where `url` does not parse.
pub uninterp spec fn url_with_query_pair(url: Seq<char>, key: Seq<char>, value: Seq<char>) -> Option<Seq<char>>;

/// The access-token hash (`at_hash`) of `access_token` under the signing
/// algorithm of `id_token`, or None where the identity token does not parse or
/// its algorithm has no hash.
pub uninterp spec fn access_token_hash_of(id_token: Seq<char>, access_token: Seq<char>) -> Option<Seq<char>>;

/// The value of a UUID in text form, or None where the text is no UUID.
pub uninterp spec fn parsed_uuid(s: Seq<char>) -> Option<u128>;

/// Relies on `url::Url::parse` and the URL's serialisation.
#[verifier::external_body]
fn parse_url(s: &str) -> (r: Option<String>)
    ensures
        opt_view(r) == parsed_url(s@),
{
    url::Url::parse(s).ok().map(|u| u.to_string())
}

/// Relies on `url::Url::query_pairs_mut().append_pair`, on a URL parsed with
/// `url::Url::parse`.
#[verifier::external_body]
fn append_query_pair(url: &str, key: &str, value: &str) -> (r: Option<String>)
    ensures
        opt_view(r) == url_with_query_pair(url@, key@, value@),
{
    let mut u = url::Url::parse(url).ok()?;
    u.query_pairs_mut().append_pair(key, value);
    Some(u.to_string())
}

/// Relies on openidconnect's `AccessTokenHash::from_token`, with the signing
/// algorithm that `IdToken::signing_alg` reads from the parsed identity token.
#[verifier::external_body]
fn access_token_hash(id_token: &str, access_token: &str) -> (r: Option<String>)
    ensures
        opt_view(r) == access_token_hash_of(id_token@, access_token@),
{
    let id = openidconnect::core::CoreIdToken::from_str(id_token).ok()?;
    let alg = id.signing_alg().ok()?;
    let token = openidconnect::AccessToken::new(access_token.to_string());
    openidconnect::AccessTokenHash::from_token(&token, &alg).ok().map(|h| (*h).clone())
}

/// Relies on `uuid::Uuid::parse_str` and `Uuid::as_u128`.
#[verifier::external_body]
pub(crate) fn parse_uuid(s: &str) -> (r: Option<u128>)
    ensures
        r == parsed_uuid(s@),
{
    uuid::Uuid::parse_str(s).ok().map(|u| u.as_u128())
}

/// A misconfiguration found while setting the provider up.
#[derive(Debug, Clone)]
pub enum ConfigError {
    InvalidBaseUrl,
    InvalidRedirectUrl,
    /// The provider's metadata names no end-session endpoint.
    NoLogoutUrl,
}

/// The client's registration with the provider.
#[derive(Debug, Clone)]
pub struct OidcCredentials {
    pub client_id: String,
    pub client_secret: String,
    /// The application's base URL, normalised.
    pub base_url: String,
    /// Where the provider sends the browser back, as given.
    pub redirect_url: String,
}

impl OidcCredentials {
    /// Fails when the base URL or the redirect URL does not parse.
    pub fn new(client_id: String, client_secret: String, base_url: String, redirect_url: String) -> (r: Result<Self, ConfigError>)
        ensures
            parsed_url(base_url@) is None ==> r matches Err(ConfigError::InvalidBaseUrl),
            parsed_url(base_url@) is Some && parsed_url(redirect_url@) is None ==> r matches Err(ConfigError::InvalidRedirectUrl),
            parsed_url(base_url@) is Some && parsed_url(redirect_url@) is Some <==> r is Ok,
            r matches Ok(c) ==> c.client_id == client_id && c.client_secret == client_secret
                && Some(c.base_url@) == parsed_url(base_url@) && c.redirect_url == redirect_url,
    {
        let base = match parse_url(base_url.as_str()) {
            Some(b) => b,
            None => return Err(ConfigError::InvalidBaseUrl),
        };
        if parse_url(redirect_url.as_str()).is_none() {
            return Err(ConfigError::InvalidRedirectUrl);
        }
        Ok(OidcCredentials { client_id, client_secret, base_url: base, redirect_url })
    }
}

/// The claims of an ID token whose signature has been verified, as plain values.
#[derive(Debug, Clone)]
pub struct IdClaims {
    pub subject: String,
    pub nonce: Option<String>,
    pub access_token_hash: Option<String>,
    pub email: Option<String>,
    pub email_verified: Option<bool>,
    pub given_name: Option<String>,
    pub family_name: Option<String>,
    pub preferred_username: Option<String>,
}

/// Whether claims fit a bundle: the claimed nonce is the bundle's, and a
/// claimed access-token hash equals the one recomputed from the bundle.
pub open spec fn claims_fit(t: TokenView, nonce: Option<Seq<char>>, at_hash: Option<Seq<char>>, recomputed: Option<Seq<char>>) -> bool {
    &&& nonce == Some(t.nonce)
    &&& match at_hash {
        None => true,
        Some(h) => recomputed == Some(h),
    }
}

fn same_text(a: &Option<String>, b: &String) -> (r: bool)
    ensures
        r == (opt_view(*a) == Some(b@)),
{
    match a {
        Some(x) => x.eq(b),
        None => false,
    }
}

/// Checks claims against a bundle, given the access-token hash recomputed
/// from the bundle (None where it could not be computed).
pub fn check_claims(token: &OidcToken, claims: &IdClaims, recomputed: &Option<String>) -> (r: Result<(), TokenError>)
    ensures
        r is Ok <==> claims_fit(token@, opt_view(claims.nonce), opt_view(claims.access_token_hash), opt_view(*recomputed)),
        opt_view(claims.nonce) != Some(token@.nonce) ==> r matches Err(TokenError::NonceMismatch),
        r is Err && opt_view(claims.nonce) == Some(token@.nonce) ==> r matches Err(TokenError::AccessTokenHashMismatch),
{
    if !same_text(&claims.nonce, &token.nonce) {
        return Err(TokenError::NonceMismatch);
    }
    match &claims.access_token_hash {
        None => Ok(()),
        Some(expected) => {
            if same_text(recomputed, expected) {
                Ok(())
            } else {
                Err(TokenError::AccessTokenHashMismatch)
            }
        },
    }
}

/// The step that starts a refresh: the refresh token to send, or
/// `NoRefreshToken`, in which case nothing is to be sent.
pub fn refresh_grant(token: &OidcToken) -> (r: Result<String, TokenError>)
    ensures
        token.refresh_token is None <==> r is Err,
        r is Err ==> r matches Err(TokenError::NoRefreshToken),
        r matches Ok(rt) ==> token.refresh_token == Some(rt),
{
    match &token.refresh_token {
        Some(rt) => Ok(rt.clone()),
        None => Err(TokenError::NoRefreshToken),
    }
}

/// Ends a refresh with what the token endpoint answered: a transport failure
/// is passed on, an answer without an identity token fails, and otherwise the
/// new tokens are kept with the old nonce.
pub fn finish_refresh(token: OidcToken, outcome: Result<TokenResponse, String>) -> (r: Result<OidcToken, TokenError>)
    ensures
        outcome matches Err(msg) ==> r == Err::<OidcToken, TokenError>(TokenError::Transfer { msg }),
        outcome matches Ok(resp) ==> (resp.id_token is None <==> r is Err),
        outcome is Ok && r is Err ==> r matches Err(TokenError::MissingIdToken),
        outcome matches Ok(resp) ==> (r is Ok ==> r->Ok_0@ == (TokenView {
            id_token: resp.id_token->Some_0@,
            access_token: resp.access_token@,
            refresh_token: opt_view(resp.refresh_token),
            nonce: token.nonce@,
        })),
{
    match outcome {
        Err(msg) => Err(TokenError::Transfer { msg }),
        Ok(resp) => match token.refresh(resp) {
            Some(t) => Ok(t),
            None => Err(TokenError::MissingIdToken),
        },
    }
}

/// Ends a code exchange with what the token endpoint answered.
pub fn finish_code_exchange(outcome: Result<TokenResponse, String>, nonce: String) -> (r: Result<OidcToken, TokenError>)
    ensures
        outcome matches Err(msg) ==> r == Err::<OidcToken, TokenError>(TokenError::Transfer { msg }),
        outcome matches Ok(resp) ==> (resp.id_token is None <==> r is Err),
        outcome is Ok && r is Err ==> r matches Err(TokenError::MissingIdToken),
        outcome matches Ok(resp) ==> (r is Ok ==> r->Ok_0@ == (TokenView {
            id_token: resp.id_token->Some_0@,
            access_token: resp.access_token@,
            refresh_token: opt_view(resp.refresh_token),
            nonce: nonce@,
        })),
{
    match outcome {
        Err(msg) => Err(TokenError::Transfer { msg }),
        Ok(resp) => OidcToken::from_token_response(resp, nonce),
    }
}

/// The provider as the flow needs it once discovery is done: the
/// application's base URL and the provider's end-session endpoint.
#[derive(Debug, Clone)]
pub struct IdentityProvider {
    pub base_url: String,
    pub logout_url: String,
}

/// The end-session URL: `logout` with `id_token_hint` and then
/// `post_logout_redirect_uri` appended.
pub open spec fn logout_target(logout: Seq<char>, id_token: Seq<char>, redirect: Seq<char>) -> Option<Seq<char>> {
    match url_with_query_pair(logout, "id_token_hint"@, id_token) {
        None => None,
        Some(u) => url_with_query_pair(u, "post_logout_redirect_uri"@, redirect),
    }
}

impl IdentityProvider {
    /// Sets the provider up from the credentials and the end-session endpoint
    /// that discovery found; fails where there is none.
    pub fn new(oidc: &OidcCredentials, end_session_endpoint: Option<String>) -> (r: Result<Self, ConfigError>)
        ensures
            end_session_endpoint is None <==> r is Err,
            r is Err ==> r matches Err(ConfigError::NoLogoutUrl),
            r matches Ok(p) ==> p.base_url == oidc.base_url && Some(p.logout_url) == end_session_endpoint,
    {
        match end_session_endpoint {
            Some(logout_url) => Ok(IdentityProvider { base_url: oidc.base_url.clone(), logout_url }),
            None => Err(ConfigError::NoLogoutUrl),
        }
    }

    /// Checks the verified claims of `token`'s identity token against the
    /// bundle: the nonce must be the bundle's, and a claimed access-token hash
    /// must equal the hash recomputed from the bundle's access token.
    pub fn validate_token(&self, token: &OidcToken, claims: &IdClaims) -> (r: Result<(), TokenError>)
        ensures
            r is Ok <==> claims_fit(
                token@,
                opt_view(claims.nonce),
                opt_view(claims.access_token_hash),
                access_token_hash_of(token@.id_token, token@.access_token),
            ),
            opt_view(claims.nonce) != Some(token@.nonce) ==> r matches Err(TokenError::NonceMismatch),
            r is Err && opt_view(claims.nonce) == Some(token@.nonce) ==> r matches Err(TokenError::AccessTokenHashMismatch),
    {
        let recomputed = if claims.access_token_hash.is_some() {
            access_token_hash(token.id_token.as_str(), token.access_token.as_str())
        } else {
            None
        };
        check_claims(token, claims, &recomputed)
    }

    /// The provider's end-session URL for `token`, returning to
    /// `redirect_uri` under the application's base URL.
    pub fn logout_oidc(&self, redirect_uri: &str, token: &OidcToken) -> (r: Option<String>)
        ensures
            opt_view(r) == logout_target(self.logout_url@, token.id_token@, self.base_url@ + redirect_uri@),
    {
        let mut back = self.base_url.clone();
        back.append(redirect_uri);
        match append_query_pair(self.logout_url.as_str(), "id_token_hint", token.id_token.as_str()) {
            None => None,
            Some(u) => append_query_pair(u.as_str(), "post_logout_redirect_uri", back.as_str()),
        }
    }
}

} // verus!
