use vstd::prelude::*;
use crate::auth::{pair, pairs_view};

verus! {

/// Every way in which logging in or keeping the session fresh can fail.
#[derive(Debug)]
pub enum AuthError {
    /// The local redirect port is taken.
    PortInUse,
    /// No matching redirect came before the wait ran out.
    LoginTimedOut,
    /// A redirect carried a state other than the live one.
    CsrfMismatch,
    /// The token endpoint answered with a failure or with a body that is not a token response.
    TokenExchange { status: u16, body: String },
    /// No refresh token is stored: the user has to log in first.
    NotLoggedIn,
    /// No access token is stored for an authenticated call.
    MissingAccessToken,
}

/// The fields of the token endpoint's JSON answer.
pub struct TokenResponse {
    pub access_token: String,
    pub refresh_token: Option<String>,
    pub expires_in: Option<u64>,
}

/// A 2xx status.
pub open spec fn is_success(status: u16) -> bool {
    200 <= status < 300
}

/// The form that exchanges an authorization code, with the PKCE verifier, for tokens.
pub open spec fn code_exchange_params(
    code: Seq<char>,
    verifier: Seq<char>,
    client_id: Seq<char>,
    redirect_uri: Seq<char>,
) -> Seq<(Seq<char>, Seq<char>)> {
    seq![
        ("grant_type"@, "authorization_code"@),
        ("code"@, code),
        ("redirect_uri"@, redirect_uri),
        ("client_id"@, client_id),
        ("code_verifier"@, verifier),
    ]
}

/// The form that exchanges a refresh token for a fresh access token.
pub open spec fn refresh_params(refresh_token: Seq<char>, client_id: Seq<char>) -> Seq<
    (Seq<char>, Seq<char>),
> {
    seq![
        ("grant_type"@, "refresh_token"@),
        ("refresh_token"@, refresh_token),
        ("client_id"@, client_id),
    ]
}

/// The form body of an authorization-code exchange.
pub fn exchange_code_form(code: &str, verifier: &str, client_id: &str, redirect_uri: &str) -> (r:
    Vec<(String, String)>)
    ensures
        pairs_view(r@) == code_exchange_params(code@, verifier@, client_id@, redirect_uri@),
{
    let mut r: Vec<(String, String)> = Vec::new();
    r.push(pair("grant_type", "authorization_code"));
    r.push(pair("code", code));
    r.push(pair("redirect_uri", redirect_uri));
    r.push(pair("client_id", client_id));
    r.push(pair("code_verifier", verifier));
    assert(pairs_view(r@) =~= code_exchange_params(code@, verifier@, client_id@, redirect_uri@));
    r
}

/// The form body of a refresh-token exchange.
pub fn exchange_refresh_form(refresh_token: &str, client_id: &str) -> (r: Vec<(String, String)>)
    ensures
        pairs_view(r@) == refresh_params(refresh_token@, client_id@),
{
    let mut r: Vec<(String, String)> = Vec::new();
    r.push(pair("grant_type", "refresh_token"));
    r.push(pair("refresh_token", refresh_token));
    r.push(pair("client_id", client_id));
    assert(pairs_view(r@) =~= refresh_params(refresh_token@, client_id@));
    r
}

/// The token endpoint's answer: the parsed fields when the status is 2xx and the
/// body parsed, else a `TokenExchange` error with the raw status and body.
pub fn check_token_response(status: u16, body: String, parsed: Option<TokenResponse>) -> (r:
    Result<TokenResponse, AuthError>)
    ensures
        r is Ok <==> is_success(status) && parsed is Some,
        r matches Ok(t) ==> parsed == Some(t),
        r matches Err(e) ==> e == (AuthError::TokenExchange { status, body }),
{
    if 200 <= status && status < 300 {
        match parsed {
            Some(t) => Ok(t),
            None => Err(AuthError::TokenExchange { status, body }),
        }
    } else {
        Err(AuthError::TokenExchange { status, body })
    }
}

} // verus!
