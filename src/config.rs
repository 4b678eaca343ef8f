use vstd::prelude::*;

verus! {

/// The view of an optional string.
pub open spec fn opt_view(o: Option<String>) -> Option<Seq<char>> {
    match o {
        Some(s) => Some(s@),
        None => None,
    }
}

/// The token pair kept between runs.
#[derive(Clone, Debug)]
pub struct AuthTokens {
    pub refresh_token: Option<String>,
    pub access_token: Option<String>,
}

/// The user's own defaults for playback commands.
#[derive(Clone, Debug)]
pub struct Defaults {
    pub playlist: Option<String>,
    pub device: Option<String>,
}

/// Everything that is persisted between runs: the tokens and the defaults.
#[derive(Clone, Debug)]
pub struct Config {
    pub auth: AuthTokens,
    pub defaults: Defaults,
}

impl Default for AuthTokens {
    fn default() -> (r: AuthTokens)
        ensures
            r.refresh_token is None,
            r.access_token is None,
    {
        AuthTokens { refresh_token: None, access_token: None }
    }
}

impl Default for Defaults {
    fn default() -> (r: Defaults)
        ensures
            r.playlist is None,
            r.device is None,
    {
        Defaults { playlist: None, device: None }
    }
}

impl Default for Config {
    fn default() -> (r: Config)
        ensures
            r.auth.refresh_token is None,
            r.auth.access_token is None,
            r.defaults.playlist is None,
            r.defaults.device is None,
    {
        Config {
            auth: AuthTokens { refresh_token: None, access_token: None },
            defaults: Defaults { playlist: None, device: None },
        }
    }
}

impl Config {
    /// The stored access token, as characters.
    pub open spec fn access_view(&self) -> Option<Seq<char>> {
        opt_view(self.auth.access_token)
    }

    /// The stored refresh token, as characters.
    pub open spec fn refresh_view(&self) -> Option<Seq<char>> {
        opt_view(self.auth.refresh_token)
    }

    /// The defaults, as characters.
    pub open spec fn defaults_view(&self) -> (Option<Seq<char>>, Option<Seq<char>>) {
        (opt_view(self.defaults.playlist), opt_view(self.defaults.device))
    }

    /// The same configuration with its token pair replaced; the defaults stay.
    pub fn with_tokens(self, access_token: String, refresh_token: String) -> (r: Config)
        ensures
            r.access_view() == Some(access_token@),
            r.refresh_view() == Some(refresh_token@),
            r.defaults_view() == self.defaults_view(),
    {
        Config {
            auth: AuthTokens {
                refresh_token: Some(refresh_token),
                access_token: Some(access_token),
            },
            defaults: self.defaults,
        }
    }
}

} // verus!
