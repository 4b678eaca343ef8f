use vstd::prelude::*;
use crate::auth::{authorization_params, pairs_view, strings_view, url_with_query, OAuthClient};
use crate::config::{opt_view, AuthTokens, Config};
use crate::http::{http_response, http_response_of};
use crate::pkce::{random_csrf_state, PkcePair};
use crate::redirect::{parse_redirect, redirect_param};
use crate::token::{
    check_token_response, code_exchange_params, exchange_code_form, exchange_refresh_form,
    is_success, refresh_params, AuthError, TokenResponse,
};

verus! {

/// Where a login attempt stands. The first three move forward only; the last three end it.
#[derive(Debug, PartialEq, Eq, Structural, Clone, Copy)]
pub enum LoginPhase {
    AwaitingRedirect,
    CodeReceived,
    TokenExchanged,
    Persisted,
    TimedOut,
    Failed,
}

/// Why a redirect was answered with an error page while listening goes on.
#[derive(Debug, PartialEq, Eq, Structural, Clone, Copy)]
pub enum Rejection {
    MissingParameters,
    CsrfMismatch,
}

/// What to do with one connection to the redirect listener.
pub enum RedirectStep {
    /// Send `response`, stop listening, and post `form` to the token endpoint.
    Exchange { response: String, form: Vec<(String, String)> },
    /// Send `response` and wait for another redirect.
    KeepListening { response: String, reason: Rejection },
}

/// The page shown after a redirect that was accepted.
pub open spec fn accepted_page() -> Seq<char> {
    "Go back to your terminal :)"@
}

/// The page shown after a redirect that was not accepted.
pub open spec fn rejected_page() -> Seq<char> {
    "Login failed: this redirect does not belong to the current attempt."@
}

/// A redirect is accepted when it carries a code and exactly the live state.
pub open spec fn accepts_redirect(live_state: Seq<char>, line: Seq<char>) -> bool {
    redirect_param(line, "code"@) is Some && redirect_param(line, "state"@) == Some(live_state)
}

/// The access and refresh token that a refresh leaves stored: the new access token,
/// and the new refresh token if the provider sent one, else the one held before.
pub open spec fn refreshed_pair(config: Config, t: TokenResponse) -> (
    Option<Seq<char>>,
    Option<Seq<char>>,
) {
    (
        Some(t.access_token@),
        match t.refresh_token {
            Some(r) => Some(r@),
            None => config.refresh_view(),
        },
    )
}

/// One login attempt: its PKCE pair and anti-forgery state, which live only as long
/// as the attempt, and its phase.
pub struct LoginFlow {
    pkce: PkcePair,
    csrf_state: String,
    phase: LoginPhase,
}

impl LoginFlow {
    pub closed spec fn pkce_view(&self) -> PkcePair {
        self.pkce
    }

    pub closed spec fn state_view(&self) -> Seq<char> {
        self.csrf_state@
    }

    pub closed spec fn phase_view(&self) -> LoginPhase {
        self.phase
    }

    /// The attempt's challenge belongs to its verifier.
    pub open spec fn wf(&self) -> bool {
        self.pkce_view().wf()
    }

    /// Starts an attempt with the given PKCE pair and state: the result holds the URL
    /// to send the browser to, and the attempt waits for the redirect.
    pub fn start_with(client: &OAuthClient, scopes: &Vec<String>, pkce: PkcePair, state: String) -> (r:
        (LoginFlow, String))
        requires
            pkce.wf(),
        ensures
            r.0.wf(),
            r.0.pkce_view() == pkce,
            r.0.state_view() == state@,
            r.0.phase_view() == LoginPhase::AwaitingRedirect,
            r.1@ == url_with_query(
                client.auth_url@,
                authorization_params(
                    client.client_id@,
                    client.redirect_uri@,
                    strings_view(scopes@),
                    pkce.challenge@,
                    state@,
                ),
            ),
    {
        let url = client.authorize_url(scopes, &pkce, state.as_str());
        (LoginFlow { pkce, csrf_state: state, phase: LoginPhase::AwaitingRedirect }, url)
    }

    /// Starts an attempt with a fresh random PKCE pair and state.
    pub fn start(client: &OAuthClient, scopes: &Vec<String>) -> (r: (LoginFlow, String))
        ensures
            r.0.wf(),
            r.0.phase_view() == LoginPhase::AwaitingRedirect,
            r.1@ == url_with_query(
                client.auth_url@,
                authorization_params(
                    client.client_id@,
                    client.redirect_uri@,
                    strings_view(scopes@),
                    r.0.pkce_view().challenge@,
                    r.0.state_view(),
                ),
            ),
    {
        let pkce = PkcePair::generate();
        let state = random_csrf_state();
        LoginFlow::start_with(client, scopes, pkce, state)
    }

    /// The PKCE verifier of this attempt.
    pub fn code_verifier(&self) -> (r: &str)
        ensures
            r@ == self.pkce_view().verifier@,
    {
        self.pkce.verifier.as_str()
    }

    /// The PKCE challenge of this attempt.
    pub fn challenge(&self) -> (r: &str)
        ensures
            r@ == self.pkce_view().challenge@,
    {
        self.pkce.challenge.as_str()
    }

    /// The anti-forgery state of this attempt.
    pub fn csrf_state(&self) -> (r: &str)
        ensures
            r@ == self.state_view(),
    {
        self.csrf_state.as_str()
    }

    /// The phase of this attempt.
    pub fn phase(&self) -> (r: LoginPhase)
        ensures
            r == self.phase_view(),
    {
        self.phase
    }

    /// Handles one request to the redirect listener, given its request line. Only a
    /// redirect with a code and the live state moves the attempt on, and only then is a
    /// token exchange asked for; anything else gets an error page and listening goes on.
    pub fn on_request(&mut self, client: &OAuthClient, line: &str) -> (r: RedirectStep)
        requires
            old(self).phase_view() == LoginPhase::AwaitingRedirect,
        ensures
            r is Exchange <==> accepts_redirect(old(self).state_view(), line@),
            r matches RedirectStep::Exchange { response, form } ==> {
                &&& response@ == http_response_of("200 OK"@, "Go back to your terminal :)")
                &&& pairs_view(form@) == code_exchange_params(
                    redirect_param(line@, "code"@).unwrap(),
                    old(self).pkce_view().verifier@,
                    client.client_id@,
                    client.redirect_uri@,
                )
                &&& final(self).phase_view() == LoginPhase::CodeReceived
            },
            r matches RedirectStep::KeepListening { response, reason } ==> {
                &&& response@ == http_response_of(
                    "400 Bad Request"@,
                    "Login failed: this redirect does not belong to the current attempt.",
                )
                &&& (reason == Rejection::CsrfMismatch <==> redirect_param(line@, "code"@) is Some
                    && redirect_param(line@, "state"@) is Some)
                &&& final(self).phase_view() == LoginPhase::AwaitingRedirect
            },
            final(self).pkce_view() == old(self).pkce_view(),
            final(self).state_view() == old(self).state_view(),
    {
        let params = parse_redirect(line);
        match (params.code, params.state) {
            (Some(code), Some(state)) => {
                if state == self.csrf_state {
                    let response = http_response("200 OK", "Go back to your terminal :)");
                    let form = exchange_code_form(
                        code.as_str(),
                        self.pkce.verifier.as_str(),
                        client.client_id.as_str(),
                        client.redirect_uri.as_str(),
                    );
                    self.phase = LoginPhase::CodeReceived;
                    RedirectStep::Exchange { response, form }
                } else {
                    RedirectStep::KeepListening {
                        response: rejection_response(),
                        reason: Rejection::CsrfMismatch,
                    }
                }
            },
            _ => RedirectStep::KeepListening {
                response: rejection_response(),
                reason: Rejection::MissingParameters,
            },
        }
    }

    /// The wait for a redirect ran out: the attempt ends.
    pub fn on_timeout(&mut self) -> (r: AuthError)
        requires
            old(self).phase_view() == LoginPhase::AwaitingRedirect,
        ensures
            r == AuthError::LoginTimedOut,
            final(self).phase_view() == LoginPhase::TimedOut,
            final(self).pkce_view() == old(self).pkce_view(),
            final(self).state_view() == old(self).state_view(),
    {
        self.phase = LoginPhase::TimedOut;
        AuthError::LoginTimedOut
    }

    /// The token endpoint answered the code exchange. On success the result is the
    /// configuration to persist, with the new token pair and the defaults kept.
    pub fn on_token_response(
        &mut self,
        config: Config,
        status: u16,
        body: String,
        parsed: Option<TokenResponse>,
    ) -> (r: Result<Config, AuthError>)
        requires
            old(self).phase_view() == LoginPhase::CodeReceived,
        ensures
            r is Ok <==> (is_success(status) && parsed is Some && parsed.unwrap().refresh_token is Some),
            r matches Ok(c) ==> {
                &&& c.access_view() == Some(parsed.unwrap().access_token@)
                &&& c.refresh_view() == opt_view(parsed.unwrap().refresh_token)
                &&& c.defaults_view() == config.defaults_view()
                &&& final(self).phase_view() == LoginPhase::TokenExchanged
            },
            r matches Err(e) ==> {
                &&& e == (AuthError::TokenExchange { status, body })
                &&& final(self).phase_view() == LoginPhase::Failed
            },
            final(self).pkce_view() == old(self).pkce_view(),
            final(self).state_view() == old(self).state_view(),
    {
        if 200 <= status && status < 300 {
            if let Some(t) = parsed {
                if let Some(refresh) = t.refresh_token {
                    self.phase = LoginPhase::TokenExchanged;
                    return Ok(config.with_tokens(t.access_token, refresh));
                }
            }
        }
        self.phase = LoginPhase::Failed;
        Err(AuthError::TokenExchange { status, body })
    }

    /// The new tokens were written: the attempt has succeeded.
    pub fn on_persisted(&mut self)
        requires
            old(self).phase_view() == LoginPhase::TokenExchanged,
        ensures
            final(self).phase_view() == LoginPhase::Persisted,
            final(self).pkce_view() == old(self).pkce_view(),
            final(self).state_view() == old(self).state_view(),
    {
        self.phase = LoginPhase::Persisted;
    }

    /// A step outside the library failed (the browser, the network, the disk): the
    /// attempt ends, and nothing of it is persisted.
    pub fn on_failure(&mut self)
        requires
            old(self).phase_view() == LoginPhase::AwaitingRedirect
                || old(self).phase_view() == LoginPhase::CodeReceived
                || old(self).phase_view() == LoginPhase::TokenExchanged,
        ensures
            final(self).phase_view() == LoginPhase::Failed,
            final(self).pkce_view() == old(self).pkce_view(),
            final(self).state_view() == old(self).state_view(),
    {
        self.phase = LoginPhase::Failed;
    }
}

fn rejection_response() -> (r: String)
    ensures
        r@ == http_response_of(
            "400 Bad Request"@,
            "Login failed: this redirect does not belong to the current attempt.",
        ),
{
    http_response(
        "400 Bad Request",
        "Login failed: this redirect does not belong to the current attempt.",
    )
}

/// The first half of keeping the session fresh: without a stored refresh token it
/// fails with `NotLoggedIn` and hands out no request; with one, it gives the form
/// to post to the token endpoint.
pub fn begin_refresh(config: &Config, client_id: &str) -> (r: Result<Vec<(String, String)>, AuthError>)
    ensures
        r is Err <==> config.auth.refresh_token is None,
        r matches Err(e) ==> e == AuthError::NotLoggedIn,
        r matches Ok(form) ==> pairs_view(form@) == refresh_params(
            config.refresh_view().unwrap(),
            client_id@,
        ),
{
    match &config.auth.refresh_token {
        Some(refresh) => Ok(exchange_refresh_form(refresh.as_str(), client_id)),
        None => Err(AuthError::NotLoggedIn),
    }
}

/// The second half of keeping the session fresh: the token endpoint's answer turned
/// into the configuration to persist. A refresh token that the provider did not send
/// is kept from before; the defaults stay.
pub fn finish_refresh(config: Config, status: u16, body: String, parsed: Option<TokenResponse>) -> (r:
    Result<Config, AuthError>)
    ensures
        r is Ok <==> is_success(status) && parsed is Some,
        r matches Ok(c) ==> {
            &&& (c.access_view(), c.refresh_view()) == refreshed_pair(config, parsed.unwrap())
            &&& c.defaults_view() == config.defaults_view()
        },
        r matches Err(e) ==> e == (AuthError::TokenExchange { status, body }),
{
    match check_token_response(status, body, parsed) {
        Ok(t) => {
            let refresh = match t.refresh_token {
                Some(r) => Some(r),
                None => config.auth.refresh_token,
            };
            Ok(
                Config {
                    auth: AuthTokens { refresh_token: refresh, access_token: Some(t.access_token) },
                    defaults: config.defaults,
                },
            )
        },
        Err(e) => Err(e),
    }
}

/// A redirect whose state is not the live one never leads to a token exchange.
pub proof fn lemma_mismatched_state_never_exchanges(live_state: Seq<char>, line: Seq<char>)
    requires
        redirect_param(line, "state"@) != Some(live_state),
    ensures
        !accepts_redirect(live_state, line),
{
}

} // verus!
