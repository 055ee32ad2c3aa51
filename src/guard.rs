//! The per-request authentication decision.

use vstd::prelude::*;

use crate::errors::AuthRejectReason;
use crate::provider::{claims_fit, parse_uuid, parsed_uuid, access_token_hash_of, IdClaims, IdentityProvider};
use crate::session::SessionState;
use crate::token::{decode_bearer, opt_view, OidcToken, TokenError, TokenView};

verus! {

/// The body of a request that creates a user.
#[derive(Debug, Clone)]
pub struct UserPayload {
    pub email: String,
}

/// The identity that a request was authenticated as.
#[derive(Debug, Clone)]
pub struct AuthenticatedUser {
    pub id: u128,
    pub username: String,
    pub email: String,
    pub email_verified: bool,
    pub given_name: Option<String>,
    pub family_name: Option<String>,
}

/// Whether `u` is the projection of `c`: the subject read as a UUID, the
/// preferred user name or else the subject, the email or else nothing.
pub open spec fn projects(u: AuthenticatedUser, c: IdClaims) -> bool {
    &&& Some(u.id) == parsed_uuid(c.subject@)
    &&& u.username@ == (match c.preferred_username {
        Some(n) => n@,
        None => c.subject@,
    })
    &&& u.email@ == (match c.email {
        Some(e) => e@,
        None => Seq::<char>::empty(),
    })
    &&& u.email_verified == (c.email_verified == Some(true))
    &&& u.given_name == c.given_name
    &&& u.family_name == c.family_name
}

/// Whether `u` is the user that a local deployment, without an identity
/// provider, knows by `id` alone.
pub open spec fn is_local_user(u: AuthenticatedUser, id: u128) -> bool {
    &&& u.id == id
    &&& u.username@ == "FAKE_NAME"@
    &&& u.email@ == "FAKE_EMAIL"@
    &&& !u.email_verified
    &&& u.given_name is None
    &&& u.family_name is None
}

impl AuthenticatedUser {
    /// The user that verified claims describe; None where the subject is no UUID.
    pub fn from_claims(claims: &IdClaims) -> (r: Option<Self>)
        ensures
            parsed_uuid(claims.subject@) is None <==> r is None,
            r matches Some(u) ==> projects(u, *claims),
    {
        let id = match parse_uuid(claims.subject.as_str()) {
            Some(id) => id,
            None => return None,
        };
        let username = match &claims.preferred_username {
            Some(n) => n.clone(),
            None => claims.subject.clone(),
        };
        let email = match &claims.email {
            Some(e) => e.clone(),
            None => String::new(),
        };
        let email_verified = match claims.email_verified {
            Some(v) => v,
            None => false,
        };
        Some(AuthenticatedUser {
            id,
            username,
            email,
            email_verified,
            given_name: claims.given_name.clone(),
            family_name: claims.family_name.clone(),
        })
    }

    /// The user of a local deployment with this id.
    pub fn local(id: u128) -> (r: Self)
        ensures
            is_local_user(r, id),
    {
        AuthenticatedUser {
            id,
            username: String::from_str("FAKE_NAME"),
            email: String::from_str("FAKE_EMAIL"),
            email_verified: false,
            given_name: None,
            family_name: None,
        }
    }
}

/// How the deployment authenticates, chosen once at startup.
#[derive(Debug, Clone)]
pub enum AuthMode {
    Oidc(IdentityProvider),
    /// No identity provider: a local user id stands unverified.
    Local,
}

/// The auth cookie of a request, as the session encoding decoded it.
#[derive(Debug, Clone)]
pub enum CookieToken {
    Oidc(OidcToken),
    Local(u128),
    /// The cookie did not decode; the decoder's reason.
    Malformed(String),
}

/// What the guard decided.
#[derive(Debug, Clone)]
pub enum GuardStep {
    /// Verify the signature of this bundle's identity token, then finish
    /// with `finish_authentication`.
    Validate(OidcToken),
    Authenticated(AuthenticatedUser),
    Rejected(AuthRejectReason),
}

pub ghost enum CookieView {
    Oidc(TokenView),
    Local(u128),
    Malformed,
}

pub open spec fn cookie_view(c: Option<CookieToken>) -> Option<CookieView> {
    match c {
        None => None,
        Some(CookieToken::Oidc(t)) => Some(CookieView::Oidc(t@)),
        Some(CookieToken::Local(id)) => Some(CookieView::Local(id)),
        Some(CookieToken::Malformed(_)) => Some(CookieView::Malformed),
    }
}

pub ghost enum StepView {
    Validate(TokenView),
    Authenticated(u128),
    InvalidSessionToken,
    NoSessionToken,
    Other,
}

pub open spec fn step_view(s: GuardStep) -> StepView {
    match s {
        GuardStep::Validate(t) => StepView::Validate(t@),
        GuardStep::Authenticated(u) => StepView::Authenticated(u.id),
        GuardStep::Rejected(AuthRejectReason::InvalidSessionToken { .. }) => StepView::InvalidSessionToken,
        GuardStep::Rejected(AuthRejectReason::NoSessionToken) => StepView::NoSessionToken,
        GuardStep::Rejected(_) => StepView::Other,
    }
}

pub open spec fn bearer_prefix() -> Seq<char> {
    "Bearer "@
}

/// `s` without every leading `Bearer ` prefix.
pub open spec fn trim_bearer(s: Seq<char>) -> Seq<char>
    decreases s.len(),
{
    if s.len() >= 7 && s.take(7) == bearer_prefix() {
        trim_bearer(s.skip(7))
    } else {
        s
    }
}

/// The credential a bearer header carries: present only where the header
/// starts with `Bearer `.
pub open spec fn bearer_content(h: Option<Seq<char>>) -> Option<Seq<char>> {
    match h {
        Some(s) => if s.len() >= 7 && s.take(7) == bearer_prefix() {
            Some(trim_bearer(s))
        } else {
            None
        },
        None => None,
    }
}

/// The guard's decision. With an identity provider, a bearer credential wins
/// over the cookie; a credential that does not decode is an invalid session
/// token; no credential at all is `NoSessionToken`. Without one, only a local
/// user id in the cookie is accepted.
pub open spec fn guard_spec(oidc: bool, bearer: Option<Seq<char>>, cookie: Option<CookieView>) -> StepView {
    if oidc {
        match bearer_content(bearer) {
            Some(c) => match decode_bearer(c) {
                Some(t) => StepView::Validate(t),
                None => StepView::InvalidSessionToken,
            },
            None => match cookie {
                Some(CookieView::Oidc(t)) => StepView::Validate(t),
                Some(_) => StepView::InvalidSessionToken,
                None => StepView::NoSessionToken,
            },
        }
    } else {
        match cookie {
            Some(CookieView::Local(id)) => StepView::Authenticated(id),
            Some(_) => StepView::InvalidSessionToken,
            None => StepView::NoSessionToken,
        }
    }
}

fn starts_with_bearer(s: &str) -> (r: bool)
    ensures
        r == (s@.len() >= 7 && s@.take(7) == bearer_prefix()),
{
    proof {
        reveal_strlit("Bearer ");
    }
    let n = s.unicode_len();
    if n < 7 {
        return false;
    }
    let head = s.substring_char(0, 7);
    let p = "Bearer ";
    assert(head@.len() == 7);
    let mut i: usize = 0;
    while i < 7
        invariant
            head@ == s@.take(7),
            p@ == bearer_prefix(),
            p@.len() == 7,
            head@.len() == 7,
            i <= 7,
            forall|k: int| 0 <= k < i ==> head@[k] == p@[k],
        decreases 7 - i,
    {
        if head.get_char(i) != p.get_char(i) {
            return false;
        }
        i = i + 1;
    }
    proof {
        assert(head@ =~= p@);
    }
    true
}

fn trim_bearer_prefix(s: &str) -> (r: String)
    ensures
        r@ == trim_bearer(s@),
{
    let mut rest = s.to_owned();
    while starts_with_bearer(rest.as_str())
        invariant
            trim_bearer(rest@) == trim_bearer(s@),
        decreases rest@.len(),
    {
        let n = rest.as_str().unicode_len();
        let next = rest.as_str().substring_char(7, n).to_owned();
        proof {
            assert(next@ =~= rest@.skip(7));
        }
        rest = next;
    }
    rest
}

fn malformed_reason(source: &str, err: &str) -> (r: AuthRejectReason)
    ensures
        r is InvalidSessionToken,
{
    let mut reason = String::from_str(source);
    reason.append(": ");
    reason.append(err);
    AuthRejectReason::InvalidSessionToken { reason }
}

/// Decides a request. Where the deployment has an identity provider and the
/// request carries no credential, the requested path is recorded in the
/// session as the page to return to after login; otherwise the session is
/// left as it was.
pub fn authenticate(mode: &AuthMode, bearer: Option<String>, cookie: Option<CookieToken>, path: String, session: &mut SessionState) -> (r: GuardStep)
    ensures
        step_view(r) == guard_spec(mode is Oidc, opt_view(bearer), cookie_view(cookie)),
        r matches GuardStep::Authenticated(u) ==> is_local_user(u, u.id),
        mode is Oidc && step_view(r) == StepView::NoSessionToken ==> *final(session) == (SessionState {
            redirect_path: Some(path),
            changed: true,
            ..*old(session)
        }),
        !(mode is Oidc && step_view(r) == StepView::NoSessionToken) ==> *final(session) == *old(session),
{
    match mode {
        AuthMode::Oidc(_) => {
            let content = match &bearer {
                Some(b) => if starts_with_bearer(b.as_str()) {
                    Some(trim_bearer_prefix(b.as_str()))
                } else {
                    None
                },
                None => None,
            };
            match content {
                Some(c) => match OidcToken::from_bearer(c.as_str()) {
                    Some(t) => GuardStep::Validate(t),
                    None => GuardStep::Rejected(malformed_reason("bearer", "malformed token")),
                },
                None => match cookie {
                    Some(CookieToken::Oidc(t)) => GuardStep::Validate(t),
                    Some(CookieToken::Malformed(e)) => GuardStep::Rejected(malformed_reason("cookie", e.as_str())),
                    Some(CookieToken::Local(_)) => GuardStep::Rejected(
                        malformed_reason("cookie", "not an identity provider token"),
                    ),
                    None => {
                        session.redirect_path = Some(path);
                        session.changed = true;
                        GuardStep::Rejected(AuthRejectReason::NoSessionToken)
                    },
                },
            }
        },
        AuthMode::Local => match cookie {
            Some(CookieToken::Local(id)) => GuardStep::Authenticated(AuthenticatedUser::local(id)),
            Some(CookieToken::Malformed(e)) => GuardStep::Rejected(malformed_reason("cookie", e.as_str())),
            Some(CookieToken::Oidc(_)) => GuardStep::Rejected(malformed_reason("cookie", "not a local user token")),
            None => GuardStep::Rejected(AuthRejectReason::NoSessionToken),
        },
    }
}

/// Finishes a `Validate` step, given the claims of the bundle's identity
/// token once its signature was verified. A bundle whose claims do not fit it,
/// or whose subject is no user id, is an invalid session token; no refresh is
/// tried.
pub fn finish_authentication(idp: &IdentityProvider, token: &OidcToken, claims: &IdClaims) -> (r: Result<AuthenticatedUser, AuthRejectReason>)
    ensures
        r is Ok <==> claims_fit(
            token@,
            opt_view(claims.nonce),
            opt_view(claims.access_token_hash),
            access_token_hash_of(token@.id_token, token@.access_token),
        ) && parsed_uuid(claims.subject@) is Some,
        r matches Ok(u) ==> projects(u, *claims),
        r matches Err(e) ==> e is InvalidSessionToken,
{
    match idp.validate_token(token, claims) {
        Ok(()) => {},
        Err(TokenError::NonceMismatch) => {
            return Err(AuthRejectReason::InvalidSessionToken { reason: String::from_str("token: nonce mismatch") });
        },
        Err(_) => {
            return Err(
                AuthRejectReason::InvalidSessionToken { reason: String::from_str("token: access token hash mismatch") },
            );
        },
    }
    match AuthenticatedUser::from_claims(claims) {
        Some(u) => Ok(u),
        None => Err(AuthRejectReason::InvalidSessionToken { reason: String::from_str("subject is not a user id") }),
    }
}

} // verus!
