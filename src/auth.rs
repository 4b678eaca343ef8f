use vstd::prelude::*;
use crate::pkce::{s256_challenge, PkcePair};

verus! {

/// The client id registered with the provider.
pub const SPOTIFY_CLIENT_ID: &'static str = "f3a1096e3b9d43498c0a91fb713b65f1";

/// The local redirect address registered with the provider.
pub const SPOTIFY_REDIRECT_URL: &'static str = "http://localhost:8080";

/// The provider's authorization endpoint.
pub const SPOTIFY_AUTH_URL: &'static str = "https://accounts.spotify.com/authorize";

/// The provider's token endpoint.
pub const SPOTIFY_TOKEN_URL: &'static str = "https://accounts.spotify.com/api/token";

/// What `application/x-www-form-urlencoded` serialisation makes of a string.
pub uninterp spec fn form_escape(s: Seq<char>) -> Seq<char>;

/// Whether a string parses as an absolute URL.
pub uninterp spec fn parses_as_url(s: Seq<char>) -> bool;

/// Relies on url::form_urlencoded::byte_serialize, which escapes the UTF-8 bytes of a
/// string for a form-encoded query.
#[verifier::external_body]
fn escape(s: &str) -> (r: String)
    ensures
        r@ == form_escape(s@),
{
    url::form_urlencoded::byte_serialize(s.as_bytes()).collect::<String>()
}

/// Relies on url::Url::parse, which tells whether a string is a URL.
#[verifier::external_body]
fn is_url(s: &str) -> (r: bool)
    ensures
        r == parses_as_url(s@),
{
    url::Url::parse(s).is_ok()
}

/// A list of string pairs, as characters.
pub open spec fn pairs_view(v: Seq<(String, String)>) -> Seq<(Seq<char>, Seq<char>)> {
    v.map_values(|p: (String, String)| (p.0@, p.1@))
}

/// A list of strings, as characters.
pub open spec fn strings_view(v: Seq<String>) -> Seq<Seq<char>> {
    v.map_values(|s: String| s@)
}

/// One `key=value` item of a query, both sides escaped.
pub open spec fn encode_pair(p: (Seq<char>, Seq<char>)) -> Seq<char> {
    form_escape(p.0) + "="@ + form_escape(p.1)
}

/// The pairs, encoded and joined by `&`.
pub open spec fn encode_query(ps: Seq<(Seq<char>, Seq<char>)>) -> Seq<char>
    decreases ps.len(),
{
    if ps.len() == 0 {
        Seq::empty()
    } else if ps.len() == 1 {
        encode_pair(ps[0])
    } else {
        encode_query(ps.drop_last()) + "&"@ + encode_pair(ps.last())
    }
}

/// The scopes joined by single spaces.
pub open spec fn join_scopes(s: Seq<Seq<char>>) -> Seq<char>
    decreases s.len(),
{
    if s.len() == 0 {
        Seq::empty()
    } else if s.len() == 1 {
        s[0]
    } else {
        join_scopes(s.drop_last()) + " "@ + s.last()
    }
}

/// The query parameters of an authorization request; `scope` only when scopes are asked.
pub open spec fn authorization_params(
    client_id: Seq<char>,
    redirect_uri: Seq<char>,
    scopes: Seq<Seq<char>>,
    challenge: Seq<char>,
    state: Seq<char>,
) -> Seq<(Seq<char>, Seq<char>)> {
    let base = seq![
        ("response_type"@, "code"@),
        ("client_id"@, client_id),
        ("state"@, state),
        ("code_challenge"@, challenge),
        ("code_challenge_method"@, "S256"@),
        ("redirect_uri"@, redirect_uri),
    ];
    if scopes.len() == 0 {
        base
    } else {
        base.push(("scope"@, join_scopes(scopes)))
    }
}

/// The endpoint followed by the encoded query.
pub open spec fn url_with_query(endpoint: Seq<char>, ps: Seq<(Seq<char>, Seq<char>)>) -> Seq<char> {
    endpoint + "?"@ + encode_query(ps)
}

/// A string pair made of two literals or borrowed strings.
pub(crate) fn pair(k: &str, v: &str) -> (r: (String, String))
    ensures
        r.0@ == k@,
        r.1@ == v@,
{
    (String::from_str(k), String::from_str(v))
}

/// Encodes pairs as a form-encoded query.
pub fn encode_query_string(ps: &Vec<(String, String)>) -> (r: String)
    ensures
        r@ == encode_query(pairs_view(ps@)),
{
    let mut r = String::new();
    let mut i: usize = 0;
    while i < ps.len()
        invariant
            i <= ps@.len(),
            r@ == encode_query(pairs_view(ps@).take(i as int)),
        decreases ps@.len() - i,
    {
        let ghost before = pairs_view(ps@).take(i as int);
        let ghost after = pairs_view(ps@).take(i + 1);
        assert(after.drop_last() =~= before);
        if i > 0 {
            r.append("&");
        }
        let k = escape(ps[i].0.as_str());
        let v = escape(ps[i].1.as_str());
        r.append(k.as_str());
        r.append("=");
        r.append(v.as_str());
        i = i + 1;
    }
    assert(pairs_view(ps@).take(ps@.len() as int) =~= pairs_view(ps@));
    r
}

/// Joins scopes by single spaces.
pub fn join_scope_list(scopes: &Vec<String>) -> (r: String)
    ensures
        r@ == join_scopes(strings_view(scopes@)),
{
    let mut r = String::new();
    let mut i: usize = 0;
    while i < scopes.len()
        invariant
            i <= scopes@.len(),
            r@ == join_scopes(strings_view(scopes@).take(i as int)),
        decreases scopes@.len() - i,
    {
        let ghost before = strings_view(scopes@).take(i as int);
        let ghost after = strings_view(scopes@).take(i + 1);
        assert(after.drop_last() =~= before);
        if i > 0 {
            r.append(" ");
        }
        r.append(scopes[i].as_str());
        i = i + 1;
    }
    assert(strings_view(scopes@).take(scopes@.len() as int) =~= strings_view(scopes@));
    r
}

/// The provider's endpoints and this application's registration with it.
pub struct OAuthClient {
    pub client_id: String,
    pub auth_url: String,
    pub token_url: String,
    pub redirect_uri: String,
}

/// Why the client could not be set up: the named address is not a URL.
#[derive(Debug, PartialEq, Eq)]
pub enum ClientError {
    InvalidAuthUrl,
    InvalidTokenUrl,
    InvalidRedirectUrl,
}

/// The client for the given registration, checking that each address is a URL.
pub fn new_oauth_client(client_id: &str, auth_url: &str, token_url: &str, redirect_uri: &str) -> (r:
    Result<OAuthClient, ClientError>)
    ensures
        !parses_as_url(auth_url@) <==> r == Err::<OAuthClient, ClientError>(
            ClientError::InvalidAuthUrl,
        ),
        parses_as_url(auth_url@) && !parses_as_url(token_url@) <==> r == Err::<
            OAuthClient,
            ClientError,
        >(ClientError::InvalidTokenUrl),
        parses_as_url(auth_url@) && parses_as_url(token_url@) && !parses_as_url(redirect_uri@)
            <==> r == Err::<OAuthClient, ClientError>(ClientError::InvalidRedirectUrl),
        r is Ok <==> parses_as_url(auth_url@) && parses_as_url(token_url@) && parses_as_url(
            redirect_uri@,
        ),
        r matches Ok(c) ==> {
            &&& c.client_id@ == client_id@
            &&& c.auth_url@ == auth_url@
            &&& c.token_url@ == token_url@
            &&& c.redirect_uri@ == redirect_uri@
        },
{
    if !is_url(auth_url) {
        return Err(ClientError::InvalidAuthUrl);
    }
    if !is_url(token_url) {
        return Err(ClientError::InvalidTokenUrl);
    }
    if !is_url(redirect_uri) {
        return Err(ClientError::InvalidRedirectUrl);
    }
    Ok(
        OAuthClient {
            client_id: String::from_str(client_id),
            auth_url: String::from_str(auth_url),
            token_url: String::from_str(token_url),
            redirect_uri: String::from_str(redirect_uri),
        },
    )
}

/// The client for this application's registration with the provider.
pub fn get_oauth_client() -> (r: Result<OAuthClient, ClientError>)
    ensures
        r is Ok <==> parses_as_url(SPOTIFY_AUTH_URL@) && parses_as_url(SPOTIFY_TOKEN_URL@)
            && parses_as_url(SPOTIFY_REDIRECT_URL@),
        r matches Ok(c) ==> c.client_id@ == SPOTIFY_CLIENT_ID@ && c.auth_url@ == SPOTIFY_AUTH_URL@
            && c.token_url@ == SPOTIFY_TOKEN_URL@ && c.redirect_uri@ == SPOTIFY_REDIRECT_URL@,
{
    new_oauth_client(SPOTIFY_CLIENT_ID, SPOTIFY_AUTH_URL, SPOTIFY_TOKEN_URL, SPOTIFY_REDIRECT_URL)
}

/// The scopes that login asks for: remote control of playback.
pub fn login_scopes() -> (r: Vec<String>)
    ensures
        strings_view(r@) == seq!["app-remote-control"@, "user-modify-playback-state"@],
{
    let mut r: Vec<String> = Vec::new();
    r.push(String::from_str("app-remote-control"));
    r.push(String::from_str("user-modify-playback-state"));
    assert(strings_view(r@) =~= seq!["app-remote-control"@, "user-modify-playback-state"@]);
    r
}

impl OAuthClient {
    /// The authorization URL that the browser is sent to: the client, the redirect
    /// address, the scopes, the anti-forgery state and the PKCE challenge.
    pub fn authorize_url(&self, scopes: &Vec<String>, pkce: &PkcePair, state: &str) -> (r: String)
        ensures
            r@ == url_with_query(
                self.auth_url@,
                authorization_params(
                    self.client_id@,
                    self.redirect_uri@,
                    strings_view(scopes@),
                    pkce.challenge@,
                    state@,
                ),
            ),
    {
        let mut ps: Vec<(String, String)> = Vec::new();
        ps.push(pair("response_type", "code"));
        ps.push(pair("client_id", self.client_id.as_str()));
        ps.push(pair("state", state));
        ps.push(pair("code_challenge", pkce.challenge.as_str()));
        ps.push(pair("code_challenge_method", "S256"));
        ps.push(pair("redirect_uri", self.redirect_uri.as_str()));
        if scopes.len() > 0 {
            let joined = join_scope_list(scopes);
            ps.push(pair("scope", joined.as_str()));
        }
        assert(pairs_view(ps@) =~= authorization_params(
            self.client_id@,
            self.redirect_uri@,
            strings_view(scopes@),
            pkce.challenge@,
            state@,
        ));
        let query = encode_query_string(&ps);
        let mut r = String::from_str(self.auth_url.as_str());
        r.append("?");
        r.append(query.as_str());
        r
    }
}

/// For a pair made by `PkcePair::generate` or `PkcePair::from_verifier`, the challenge
/// that the authorization URL carries is the S256 challenge of the pair's verifier.
pub proof fn lemma_url_carries_s256_challenge(
    client_id: Seq<char>,
    redirect_uri: Seq<char>,
    scopes: Seq<Seq<char>>,
    pkce: PkcePair,
    state: Seq<char>,
)
    requires
        pkce.wf(),
    ensures
        authorization_params(client_id, redirect_uri, scopes, pkce.challenge@, state)[3] == (
            "code_challenge"@,
            s256_challenge(pkce.verifier@),
        ),
        forall|i: int|
            0 <= i < authorization_params(client_id, redirect_uri, scopes, pkce.challenge@, state).len()
                && i != 3 ==> #[trigger] authorization_params(
                client_id,
                redirect_uri,
                scopes,
                pkce.challenge@,
                state,
            )[i].0 != "code_challenge"@,
{
    reveal_strlit("code_challenge");
    reveal_strlit("response_type");
    reveal_strlit("client_id");
    reveal_strlit("state");
    reveal_strlit("code_challenge_method");
    reveal_strlit("redirect_uri");
    reveal_strlit("scope");
    let ps = authorization_params(client_id, redirect_uri, scopes, pkce.challenge@, state);
    assert forall|i: int| 0 <= i < ps.len() && i != 3 implies #[trigger] ps[i].0 != "code_challenge"@ by {
        if ps[i].0 == "code_challenge"@ {
            assert(ps[i].0.len() == "code_challenge"@.len());
            assert(ps[i].0[4] == "code_challenge"@[4]);
        }
    }
}

} // verus!
