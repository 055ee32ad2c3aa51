//! The per-browser-session record and the login, callback and logout
//! transitions on it.

use vstd::prelude::*;

use crate::errors::AuthRejectReason;
use crate::token::{opt_view, OidcToken, TokenView};

verus! {

/// The text that percent-decoding gives, or None where the decoded bytes are not UTF-8.
pub uninterp spec fn percent_decoded(s: Seq<char>) -> Option<Seq<char>>;

/// Relies on `urlencoding::decode`.
#[verifier::external_body]
fn percent_decode(s: &str) -> (r: Option<String>)
    ensures
        opt_view(r) == percent_decoded(s@),
{
    urlencoding::decode(s).ok().map(|c| c.into_owned())
}

/// The `Set-Cookie` value of an HTTP-only, `SameSite=Lax`, secure cookie.
pub open spec fn secure_cookie_text(name: Seq<char>, value: Seq<char>, path: Seq<char>) -> Seq<char> {
    name + "="@ + value + "; HttpOnly; SameSite=Lax; Secure; Path="@ + path
}

/// Relies on `cookie::Cookie::build` and the cookie's `Display`, which writes
/// the name, the value unencoded, then the flags and the path in this order.
#[verifier::external_body]
fn secure_cookie(name: &str, value: &str, path: &str) -> (r: String)
    ensures
        r@ == secure_cookie_text(name@, value@, path@),
{
    cookie::Cookie::build((name, value))
        .path(path)
        .http_only(true)
        .same_site(cookie::SameSite::Lax)
        .secure(true)
        .build()
        .to_string()
}

/// The name of the cookie that carries the stored token.
pub open spec fn auth_cookie_name() -> Seq<char> {
    "access_token"@
}

/// The query of a login request: the page to return to afterwards.
#[derive(Debug, Clone)]
pub struct RedirectQuery {
    pub origin: Option<String>,
}

/// What a session stores as its credential.
#[derive(Debug, Clone)]
pub enum StoredToken {
    Oidc(OidcToken),
    /// A local user id, where no identity provider is configured.
    Local(u128),
}

/// One browser session: the flow state of the login in progress, the path to
/// return to after login, the stored credential, and whether anything
/// changed since the session was read.
#[derive(Debug, Clone)]
pub struct SessionState {
    pub csrf_token: Option<String>,
    pub pkce_verifier: Option<String>,
    pub nonce: Option<String>,
    pub redirect_uri: Option<String>,
    pub redirect_path: Option<String>,
    pub token: Option<StoredToken>,
    pub changed: bool,
}

/// Whether a session holds no flow state.
pub open spec fn flow_cleared(s: SessionState) -> bool {
    &&& s.csrf_token is None
    &&& s.pkce_verifier is None
    &&& s.nonce is None
    &&& s.redirect_uri is None
}

/// What a callback asks for next.
#[derive(Debug, Clone)]
pub enum CallbackStep {
    /// The flow state was incomplete: start the login again.
    RestartLogin,
    /// Exchange `code` with this verifier and nonce, then send the browser to `redirect_to`.
    Exchange { code: String, pkce_verifier: String, nonce: String, redirect_to: String },
}

/// Where the browser goes after login: the stored target, percent-decoded,
/// or the root where there is none or it does not decode.
pub open spec fn redirect_target(stored: Option<Seq<char>>) -> Seq<char> {
    match stored {
        None => "/"@,
        Some(s) => match percent_decoded(s) {
            Some(d) => d,
            None => "/"@,
        },
    }
}

/// The page that sends the browser on to `target` once login is done.
pub open spec fn redirect_page_text(target: Seq<char>) -> Seq<char> {
    "<html><head><meta http-equiv=\"refresh\" content=\"0; URL='"@ + target + "'\"/></head></html>"@
}

/// The `Set-Cookie` value that removes the auth cookie.
pub open spec fn clear_cookie_text() -> Seq<char> {
    "access_token=; Max-Age=0; Path=/; HttpOnly; Secure"@
}

/// The session after a login begins.
pub open spec fn after_begin_login(s: SessionState, csrf_token: String, pkce_verifier: String, nonce: String, origin: Option<String>) -> SessionState {
    SessionState {
        csrf_token: Some(csrf_token),
        pkce_verifier: Some(pkce_verifier),
        nonce: Some(nonce),
        redirect_uri: match origin {
            Some(o) => Some(o),
            None => s.redirect_uri,
        },
        changed: true,
        ..s
    }
}

/// What a callback decides, as plain values.
pub ghost enum CallbackView {
    RestartLogin,
    CsrfMismatch,
    Exchange { pkce_verifier: Seq<char>, nonce: Seq<char>, redirect_to: Seq<char> },
    Other,
}

pub open spec fn callback_view(r: Result<CallbackStep, AuthRejectReason>) -> CallbackView {
    match r {
        Ok(CallbackStep::RestartLogin) => CallbackView::RestartLogin,
        Ok(CallbackStep::Exchange { pkce_verifier, nonce, redirect_to, .. }) => CallbackView::Exchange {
            pkce_verifier: pkce_verifier@,
            nonce: nonce@,
            redirect_to: redirect_to@,
        },
        Err(AuthRejectReason::CsrfMismatch) => CallbackView::CsrfMismatch,
        Err(_) => CallbackView::Other,
    }
}

/// The callback's decision on session `s` for a returned `state`.
pub open spec fn callback_spec(s: SessionState, state: Seq<char>) -> CallbackView {
    match (s.csrf_token, s.pkce_verifier, s.nonce) {
        (Some(c), Some(v), Some(n)) => if c@ == state {
            CallbackView::Exchange { pkce_verifier: v@, nonce: n@, redirect_to: redirect_target(opt_view(s.redirect_uri)) }
        } else {
            CallbackView::CsrfMismatch
        },
        _ => CallbackView::RestartLogin,
    }
}

/// Two logins begun on one session: the session holds the second one's
/// CSRF token, verifier and nonce, and a callback that returns the first
/// one's CSRF token, distinct from the second's, never reaches the code
/// exchange.
pub proof fn lemma_last_login_wins(
    s: SessionState,
    csrf_a: String, verifier_a: String, nonce_a: String, origin_a: Option<String>,
    csrf_b: String, verifier_b: String, nonce_b: String, origin_b: Option<String>,
)
    requires
        csrf_a@ != csrf_b@,
    ensures
        ({
            let s2 = after_begin_login(after_begin_login(s, csrf_a, verifier_a, nonce_a, origin_a), csrf_b, verifier_b, nonce_b, origin_b);
            &&& s2.csrf_token == Some(csrf_b)
            &&& s2.pkce_verifier == Some(verifier_b)
            &&& s2.nonce == Some(nonce_b)
            &&& callback_spec(s2, csrf_a@) == CallbackView::CsrfMismatch
            &&& !(callback_spec(s2, csrf_a@) is Exchange)
        }),
{
}

/// A callback that returns the CSRF token of the login just begun reaches
/// the code exchange with that login's verifier and nonce.
pub proof fn lemma_matching_callback_exchanges(
    s: SessionState,
    csrf_token: String,
    pkce_verifier: String,
    nonce: String,
    origin: Option<String>,
)
    ensures
        callback_spec(after_begin_login(s, csrf_token, pkce_verifier, nonce, origin), csrf_token@) == (CallbackView::Exchange {
            pkce_verifier: pkce_verifier@,
            nonce: nonce@,
            redirect_to: redirect_target(opt_view(match origin {
                Some(o) => Some(o),
                None => s.redirect_uri,
            })),
        }),
{
}

/// The page that sends the browser on to `target`.
pub fn redirect_page(target: &str) -> (r: String)
    ensures
        r@ == redirect_page_text(target@),
{
    let mut s = String::from_str("<html><head><meta http-equiv=\"refresh\" content=\"0; URL='");
    s.append(target);
    s.append("'\"/></head></html>");
    s
}

impl SessionState {
    /// A session with nothing in it.
    pub fn new() -> (r: Self)
        ensures
            flow_cleared(r),
            r.redirect_path is None,
            r.token is None,
            !r.changed,
    {
        SessionState {
            csrf_token: None,
            pkce_verifier: None,
            nonce: None,
            redirect_uri: None,
            redirect_path: None,
            token: None,
            changed: false,
        }
    }

    /// Records a login that begins: the CSRF token, PKCE verifier and nonce
    /// replace whatever an earlier login left, and `origin`, when given,
    /// becomes the page to return to.
    pub fn begin_login(&mut self, csrf_token: String, pkce_verifier: String, nonce: String, origin: Option<String>)
        ensures
            *final(self) == after_begin_login(*old(self), csrf_token, pkce_verifier, nonce, origin),
    {
        self.csrf_token = Some(csrf_token);
        self.pkce_verifier = Some(pkce_verifier);
        self.nonce = Some(nonce);
        if origin.is_some() {
            self.redirect_uri = origin;
        }
        self.changed = true;
    }

    /// Reads the flow state back at the callback and discards it, whatever
    /// the outcome. Missing flow state restarts the login; a `state` other
    /// than the stored CSRF token is a `CsrfMismatch`; otherwise the code is
    /// to be exchanged with the stored verifier and nonce.
    pub fn callback(&mut self, code: String, state: String) -> (r: Result<CallbackStep, AuthRejectReason>)
        ensures
            callback_view(r) == callback_spec(*old(self), state@),
            *final(self) == (SessionState {
                csrf_token: None,
                pkce_verifier: None,
                nonce: None,
                redirect_uri: None,
                changed: true,
                ..*old(self)
            }),
            (old(self).csrf_token is None || old(self).pkce_verifier is None || old(self).nonce is None)
                <==> r == Ok::<CallbackStep, AuthRejectReason>(CallbackStep::RestartLogin),
            old(self).csrf_token is Some && old(self).pkce_verifier is Some && old(self).nonce is Some
                ==> (old(self).csrf_token->Some_0@ != state@ <==> r == Err::<CallbackStep, AuthRejectReason>(AuthRejectReason::CsrfMismatch)),
            r matches Ok(CallbackStep::Exchange { code: c, pkce_verifier: v, nonce: n, redirect_to: t }) ==> {
                &&& old(self).csrf_token->Some_0@ == state@
                &&& c == code
                &&& Some(v) == old(self).pkce_verifier
                &&& Some(n) == old(self).nonce
                &&& t@ == redirect_target(opt_view(old(self).redirect_uri))
            },
    {
        let csrf = self.csrf_token.take();
        let verifier = self.pkce_verifier.take();
        let nonce = self.nonce.take();
        let stored = self.redirect_uri.take();
        self.changed = true;
        let (csrf, verifier, nonce) = match (csrf, verifier, nonce) {
            (Some(c), Some(v), Some(n)) => (c, v, n),
            _ => return Ok(CallbackStep::RestartLogin),
        };
        if !state.eq(&csrf) {
            return Err(AuthRejectReason::CsrfMismatch);
        }
        let redirect_to = match stored {
            None => String::from_str("/"),
            Some(s) => match percent_decode(s.as_str()) {
                Some(d) => d,
                None => String::from_str("/"),
            },
        };
        Ok(CallbackStep::Exchange { code, pkce_verifier: verifier, nonce, redirect_to })
    }

    /// Ends a login with the outcome of the code exchange: the bundle is
    /// stored, or the failure becomes `TokenTransferFailed` and the session is
    /// left as it was.
    pub fn complete_login(&mut self, outcome: Result<OidcToken, String>) -> (r: Result<(), AuthRejectReason>)
        ensures
            outcome matches Err(msg) ==> r == Err::<(), AuthRejectReason>(AuthRejectReason::TokenTransferFailed { msg }) && *final(self) == *old(self),
            outcome matches Ok(t) ==> r is Ok && *final(self) == (SessionState {
                token: Some(StoredToken::Oidc(t)),
                changed: true,
                ..*old(self)
            }),
    {
        match outcome {
            Err(msg) => Err(AuthRejectReason::TokenTransferFailed { msg }),
            Ok(t) => {
                self.token = Some(StoredToken::Oidc(t));
                self.changed = true;
                Ok(())
            },
        }
    }

    /// Logs in a local user, where no identity provider is configured: the
    /// form's user id must be a UUID.
    pub fn local_login(&mut self, user_id: &str) -> (r: Result<(), AuthRejectReason>)
        ensures
            crate::provider::parsed_uuid(user_id@) is None <==> r is Err,
            r is Err ==> r == Err::<(), AuthRejectReason>(AuthRejectReason::InvalidCredentials) && *final(self) == *old(self),
            r is Ok ==> *final(self) == (SessionState {
                token: Some(StoredToken::Local(crate::provider::parsed_uuid(user_id@)->Some_0)),
                changed: true,
                ..*old(self)
            }),
    {
        match crate::provider::parse_uuid(user_id) {
            Some(id) => {
                self.token = Some(StoredToken::Local(id));
                self.changed = true;
                Ok(())
            },
            None => Err(AuthRejectReason::InvalidCredentials),
        }
    }

    /// Destroys the session: flow state, return path and credential are
    /// gone. Returns the `Set-Cookie` value that clears the auth cookie.
    pub fn logout(&mut self) -> (r: String)
        ensures
            flow_cleared(*final(self)),
            final(self).redirect_path is None,
            final(self).token is None,
            !final(self).changed,
            r@ == clear_cookie_text(),
    {
        *self = SessionState::new();
        String::from_str("access_token=; Max-Age=0; Path=/; HttpOnly; Secure")
    }
}

/// The `Set-Cookie` value that carries the session's credential, given its
/// serialised form; None where the session did not change or stores no
/// credential.
pub fn store_auth_cookie(session: &SessionState, serialized_token: Option<String>) -> (r: Option<String>)
    ensures
        r is Some <==> session.changed && session.token is Some && serialized_token is Some,
        r matches Some(c) ==> c@ == secure_cookie_text(auth_cookie_name(), serialized_token->Some_0@, "/"@),
{
    if !session.changed || session.token.is_none() {
        return None;
    }
    match serialized_token {
        Some(raw) => Some(secure_cookie("access_token", raw.as_str(), "/")),
        None => None,
    }
}

/// The headers that a redirect carries so that no intermediary caches it.
pub fn no_cache_headers() -> (r: Vec<(String, String)>)
    ensures
        r@.len() == 2,
        r@[0].0@ == "Cache-Control"@ && r@[0].1@ == "no-store, must-revalidate"@,
        r@[1].0@ == "Expires"@ && r@[1].1@ == "0"@,
{
    let mut v: Vec<(String, String)> = Vec::new();
    v.push((String::from_str("Cache-Control"), String::from_str("no-store, must-revalidate")));
    v.push((String::from_str("Expires"), String::from_str("0")));
    v
}

} // verus!
