//! The token bundle and its compact bearer encoding
//! (`id_token:access_token[:refresh_token]:nonce`).

use std::str::FromStr;
use vstd::prelude::*;

verus! {

/// Splits `s` at every occurrence of `sep`; the result always holds at least one piece.
pub open spec fn split_on(s: Seq<char>, sep: char) -> Seq<Seq<char>>
    decreases s.len(),
{
    if s.len() == 0 {
        seq![Seq::<char>::empty()]
    } else {
        let rest = split_on(s.drop_last(), sep);
        if s.last() == sep {
            rest.push(Seq::<char>::empty())
        } else {
            rest.update(rest.len() - 1, rest.last().push(s.last()))
        }
    }
}

/// Joins `parts` with `sep` between consecutive pieces.
pub open spec fn join_on(parts: Seq<Seq<char>>, sep: char) -> Seq<char>
    decreases parts.len(),
{
    if parts.len() == 0 {
        Seq::<char>::empty()
    } else if parts.len() == 1 {
        parts[0]
    } else {
        join_on(parts.drop_last(), sep).push(sep) + parts.last()
    }
}

/// Whether `c` occurs nowhere in `s`.
pub open spec fn free_of(s: Seq<char>, c: char) -> bool {
    forall|i: int| 0 <= i < s.len() ==> s[i] != c
}

/// The texts of a sequence of strings.
pub open spec fn string_views(v: Seq<String>) -> Seq<Seq<char>> {
    v.map_values(|x: String| x@)
}

/// Whether a text parses as a signed ID token (a JWT in compact form).
pub uninterp spec fn is_id_token(s: Seq<char>) -> bool;

/// Relies on openidconnect's `FromStr` for `CoreIdToken`: whether the text
/// deserialises as an ID token.
#[verifier::external_body]
fn id_token_parses(s: &str) -> (r: bool)
    ensures
        r == is_id_token(s@),
{
    openidconnect::core::CoreIdToken::from_str(s).is_ok()
}

/// Splitting always yields at least one piece.
pub proof fn lemma_split_nonempty(s: Seq<char>, sep: char)
    ensures
        split_on(s, sep).len() >= 1,
    decreases s.len(),
{
    if s.len() > 0 {
        lemma_split_nonempty(s.drop_last(), sep);
    }
}

/// Appending a piece free of the separator extends the last piece.
pub proof fn lemma_split_append_free(x: Seq<char>, b: Seq<char>, sep: char)
    requires
        free_of(b, sep),
    ensures
        split_on(x + b, sep) == split_on(x, sep).update(
            split_on(x, sep).len() - 1,
            split_on(x, sep).last() + b,
        ),
    decreases b.len(),
{
    lemma_split_nonempty(x, sep);
    let sx = split_on(x, sep);
    if b.len() == 0 {
        assert(x + b =~= x);
        assert(sx.last() + b =~= sx.last());
        assert(sx.update(sx.len() - 1, sx.last()) =~= sx);
    } else {
        let b0 = b.drop_last();
        let c = b.last();
        assert(free_of(b0, sep));
        lemma_split_append_free(x, b0, sep);
        assert((x + b).drop_last() =~= x + b0);
        assert((x + b).last() == c);
        lemma_split_nonempty(x + b0, sep);
        assert((sx.last() + b0).push(c) =~= sx.last() + b);
        assert(split_on(x + b, sep) =~= sx.update(sx.len() - 1, sx.last() + b));
    }
}

/// Splitting undoes joining when no piece holds the separator.
pub proof fn lemma_split_join(parts: Seq<Seq<char>>, sep: char)
    requires
        parts.len() >= 1,
        forall|k: int| 0 <= k < parts.len() ==> free_of(#[trigger] parts[k], sep),
    ensures
        split_on(join_on(parts, sep), sep) == parts,
    decreases parts.len(),
{
    if parts.len() == 1 {
        let e = Seq::<char>::empty();
        lemma_split_append_free(e, parts[0], sep);
        assert(e + parts[0] =~= parts[0]);
        assert(split_on(e, sep) =~= seq![e]);
        assert(e + parts[0] =~= parts[0]);
        assert(split_on(parts[0], sep) =~= parts);
    } else {
        let init = parts.drop_last();
        assert forall|k: int| 0 <= k < init.len() implies free_of(#[trigger] init[k], sep) by {
            assert(init[k] == parts[k]);
        }
        lemma_split_join(init, sep);
        let j = join_on(init, sep).push(sep);
        assert(j.drop_last() =~= join_on(init, sep));
        assert(split_on(j, sep) == init.push(Seq::<char>::empty()));
        assert(free_of(parts.last(), sep));
        lemma_split_append_free(j, parts.last(), sep);
        assert(Seq::<char>::empty() + parts.last() =~= parts.last());
        assert(split_on(join_on(parts, sep), sep) =~= parts);
    }
}

/// Splits `s` at every `:`.
fn split_colons(s: &str) -> (r: Vec<String>)
    ensures
        string_views(r@) == split_on(s@, ':'),
{
    let n = s.unicode_len();
    let mut parts: Vec<String> = Vec::new();
    let mut start: usize = 0;
    let mut i: usize = 0;
    proof {
        assert(s@.take(0) =~= Seq::<char>::empty());
        assert(string_views(parts@) =~= Seq::<Seq<char>>::empty());
        assert(s@.subrange(0, 0) =~= Seq::<char>::empty());
        assert(string_views(parts@).push(Seq::<char>::empty()) =~= seq![Seq::<char>::empty()]);
    }
    while i < n
        invariant
            n == s@.len(),
            start <= i <= n,
            split_on(s@.take(i as int), ':') == string_views(parts@).push(
                s@.subrange(start as int, i as int),
            ),
        decreases n - i,
    {
        let c = s.get_char(i);
        proof {
            assert(s@.take(i + 1).drop_last() =~= s@.take(i as int));
            assert(s@.take(i + 1).last() == c);
        }
        if c == ':' {
            let piece = s.substring_char(start, i).to_owned();
            proof {
                assert(string_views(parts@.push(piece)) =~= string_views(parts@).push(piece@));
                assert(s@.subrange(i + 1, i + 1) =~= Seq::<char>::empty());
            }
            parts.push(piece);
            start = i + 1;
        } else {
            proof {
                assert(s@.subrange(start as int, i as int).push(c) =~= s@.subrange(
                    start as int,
                    i + 1,
                ));
            }
        }
        i = i + 1;
    }
    let last = s.substring_char(start, n).to_owned();
    proof {
        assert(s@.take(n as int) =~= s@);
        assert(string_views(parts@.push(last)) =~= string_views(parts@).push(last@));
    }
    parts.push(last);
    parts
}

/// Joining one more piece adds a separator and the piece.
pub proof fn lemma_join_push(parts: Seq<Seq<char>>, x: Seq<char>, sep: char)
    requires
        parts.len() >= 1,
    ensures
        join_on(parts.push(x), sep) == join_on(parts, sep).push(sep) + x,
{
    assert(parts.push(x).drop_last() =~= parts);
}

/// What a token bundle holds, as plain sequences of characters.
pub struct TokenView {
    pub id_token: Seq<char>,
    pub access_token: Seq<char>,
    pub refresh_token: Option<Seq<char>>,
    pub nonce: Seq<char>,
}

/// An identity token, an access token, an optional refresh token and the
/// nonce that was sent to the provider when the tokens were issued.
/// The identity token is held in its compact signed form.
#[derive(Debug, Clone)]
pub struct OidcToken {
    pub id_token: String,
    pub access_token: String,
    pub refresh_token: Option<String>,
    pub nonce: String,
}

/// The text of an optional string.
pub open spec fn opt_view(o: Option<String>) -> Option<Seq<char>> {
    match o {
        Some(s) => Some(s@),
        None => None,
    }
}

impl View for OidcToken {
    type V = TokenView;

    open spec fn view(&self) -> TokenView {
        TokenView {
            id_token: self.id_token@,
            access_token: self.access_token@,
            refresh_token: opt_view(self.refresh_token),
            nonce: self.nonce@,
        }
    }
}

/// The fields of the compact bearer form, in order.
pub open spec fn bearer_fields(t: TokenView) -> Seq<Seq<char>> {
    match t.refresh_token {
        None => seq![t.id_token, t.access_token, t.nonce],
        Some(r) => seq![t.id_token, t.access_token, r, t.nonce],
    }
}

/// The compact bearer form of a bundle.
pub open spec fn bearer_text(t: TokenView) -> Seq<char> {
    join_on(bearer_fields(t), ':')
}

/// The bundle that a compact bearer text stands for: three fields without a
/// refresh token, four with one, and an identity token that parses.
pub open spec fn decode_bearer(s: Seq<char>) -> Option<TokenView> {
    let p = split_on(s, ':');
    if p.len() == 3 && is_id_token(p[0]) {
        Some(TokenView { id_token: p[0], access_token: p[1], refresh_token: None, nonce: p[2] })
    } else if p.len() == 4 && is_id_token(p[0]) {
        Some(TokenView { id_token: p[0], access_token: p[1], refresh_token: Some(p[2]), nonce: p[3] })
    } else {
        None
    }
}

/// A bundle that the compact form can carry: no field holds a `:` and the
/// identity token parses.
pub open spec fn bearer_ready(t: TokenView) -> bool {
    &&& is_id_token(t.id_token)
    &&& free_of(t.id_token, ':')
    &&& free_of(t.access_token, ':')
    &&& free_of(t.nonce, ':')
    &&& match t.refresh_token {
        Some(r) => free_of(r, ':'),
        None => true,
    }
}

/// Decoding the compact bearer form of a bundle gives the bundle back.
pub proof fn lemma_bearer_round_trip(t: TokenView)
    requires
        bearer_ready(t),
    ensures
        decode_bearer(bearer_text(t)) == Some(t),
{
    let f = bearer_fields(t);
    assert forall|k: int| 0 <= k < f.len() implies free_of(#[trigger] f[k], ':') by {}
    lemma_split_join(f, ':');
}

/// What a token endpoint answered: an identity token when the provider sent
/// one, the access token and an optional refresh token.
#[derive(Debug, Clone)]
pub struct TokenResponse {
    pub id_token: Option<String>,
    pub access_token: String,
    pub refresh_token: Option<String>,
}

/// Why a bundle could not be built, refreshed or accepted.
#[derive(Debug, Clone)]
pub enum TokenError {
    /// The token endpoint sent no identity token.
    MissingIdToken,
    /// A refresh was asked of a bundle without a refresh token.
    NoRefreshToken,
    /// The identity token's nonce is absent or differs from the bundle's.
    NonceMismatch,
    /// The identity token's access-token hash differs from the recomputed one.
    AccessTokenHashMismatch,
    /// The call to the token endpoint failed.
    Transfer { msg: String },
}

impl OidcToken {
    pub fn new(id_token: String, access_token: String, refresh_token: Option<String>, nonce: String) -> (r: Self)
        ensures
            r.id_token == id_token,
            r.access_token == access_token,
            r.refresh_token == refresh_token,
            r.nonce == nonce,
    {
        OidcToken { id_token, access_token, refresh_token, nonce }
    }

    /// Builds the bundle of a code exchange; fails when the provider sent no
    /// identity token.
    pub fn from_token_response(token: TokenResponse, nonce: String) -> (r: Result<Self, TokenError>)
        ensures
            token.id_token is None <==> r is Err,
            r is Err ==> r->Err_0 is MissingIdToken,
            r matches Ok(t) ==> t@ == (TokenView {
                id_token: token.id_token->Some_0@,
                access_token: token.access_token@,
                refresh_token: opt_view(token.refresh_token),
                nonce: nonce@,
            }),
    {
        match token.id_token {
            Some(id_token) => Ok(OidcToken {
                id_token,
                access_token: token.access_token,
                refresh_token: token.refresh_token,
                nonce,
            }),
            None => Err(TokenError::MissingIdToken),
        }
    }

    /// The bundle that replaces this one after a refresh: the new tokens with
    /// this bundle's nonce. None when the provider sent no identity token.
    pub fn refresh(self, token: TokenResponse) -> (r: Option<Self>)
        ensures
            token.id_token is None <==> r is None,
            r matches Some(t) ==> t@ == (TokenView {
                id_token: token.id_token->Some_0@,
                access_token: token.access_token@,
                refresh_token: opt_view(token.refresh_token),
                nonce: self.nonce@,
            }),
    {
        match token.id_token {
            Some(id_token) => Some(OidcToken {
                id_token,
                access_token: token.access_token,
                refresh_token: token.refresh_token,
                nonce: self.nonce,
            }),
            None => None,
        }
    }

    /// The compact bearer form of this bundle.
    pub fn to_bearer(&self) -> (r: String)
        ensures
            r@ == bearer_text(self@),
    {
        proof {
            reveal_strlit(":");
        }
        let mut s = self.id_token.clone();
        s.append(":");
        s.append(self.access_token.as_str());
        let ghost head = seq![self.id_token@, self.access_token@];
        proof {
            assert(seq![self.id_token@] =~= head.drop_last());
            lemma_join_push(seq![self.id_token@], self.access_token@, ':');
            assert(seq![self.id_token@].push(self.access_token@) =~= head);
            assert(s@ =~= join_on(head, ':'));
        }
        match &self.refresh_token {
            Some(rt) => {
                s.append(":");
                s.append(rt.as_str());
                proof {
                    lemma_join_push(head, rt@, ':');
                    assert(s@ =~= join_on(head.push(rt@), ':'));
                    lemma_join_push(head.push(rt@), self.nonce@, ':');
                    assert(head.push(rt@).push(self.nonce@) =~= bearer_fields(self@));
                }
            },
            None => {
                proof {
                    lemma_join_push(head, self.nonce@, ':');
                    assert(head.push(self.nonce@) =~= bearer_fields(self@));
                }
            },
        }
        s.append(":");
        s.append(self.nonce.as_str());
        proof {
            assert(s@ =~= bearer_text(self@));
        }
        s
    }

    /// Reads a bundle from its compact bearer form; None for any count of
    /// fields but three or four, or an identity token that does not parse.
    pub fn from_bearer(tok: &str) -> (r: Option<Self>)
        ensures
            r matches Some(t) ==> decode_bearer(tok@) == Some(t@),
            r is None ==> decode_bearer(tok@) is None,
    {
        let parts = split_colons(tok);
        let ghost p = split_on(tok@, ':');
        if parts.len() == 3 || parts.len() == 4 {
            proof {
                assert(p[0] == parts@[0]@);
                assert(p[1] == parts@[1]@);
                assert(p[2] == parts@[2]@);
            }
            if !id_token_parses(parts[0].as_str()) {
                return None;
            }
            if parts.len() == 3 {
                Some(OidcToken {
                    id_token: parts[0].clone(),
                    access_token: parts[1].clone(),
                    refresh_token: None,
                    nonce: parts[2].clone(),
                })
            } else {
                proof {
                    assert(p[3] == parts@[3]@);
                }
                Some(OidcToken {
                    id_token: parts[0].clone(),
                    access_token: parts[1].clone(),
                    refresh_token: Some(parts[2].clone()),
                    nonce: parts[3].clone(),
                })
            }
        } else {
            None
        }
    }
}

} // verus!
