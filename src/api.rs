use vstd::prelude::*;
use crate::args::SubCommand;
use crate::config::Config;
use crate::token::AuthError;

verus! {

/// The HTTP methods that the player endpoints use.
#[derive(Debug, PartialEq, Eq, Structural, Clone, Copy)]
pub enum HttpMethod {
    Get,
    Put,
    Post,
}

/// The `Authorization` header for the stored access token.
pub fn get_auth_header(config: &Config) -> (r: Result<(String, String), AuthError>)
    ensures
        r is Err <==> config.auth.access_token is None,
        r matches Err(e) ==> e == AuthError::MissingAccessToken,
        r matches Ok(h) ==> h.0@ == "Authorization"@ && h.1@ == "Bearer "@
            + config.access_view().unwrap(),
{
    match &config.auth.access_token {
        Some(token) => {
            let mut value = String::from_str("Bearer ");
            value.append(token.as_str());
            Ok((String::from_str("Authorization"), value))
        },
        None => Err(AuthError::MissingAccessToken),
    }
}

/// The address that resumes playback: on the default device when one is set.
pub open spec fn play_url_of(config: Config) -> Seq<char> {
    match config.defaults.device {
        Some(dev) => "https://api.spotify.com/v1/me/player/play"@ + "?device_id="@ + dev@,
        None => "https://api.spotify.com/v1/me/player/play"@,
    }
}

/// The address that resumes playback.
pub fn play_url(config: &Config) -> (r: String)
    ensures
        r@ == play_url_of(*config),
{
    let mut r = String::from_str("https://api.spotify.com/v1/me/player/play");
    match &config.defaults.device {
        Some(dev) => {
            r.append("?device_id=");
            r.append(dev.as_str());
        },
        None => {},
    }
    r
}

/// The player request that a command sends, if it sends one; `play` sends one only
/// when a default playlist is set, and then starts that playlist.
pub open spec fn player_request_of(cmd: SubCommand, config: Config) -> Option<(HttpMethod, Seq<char>)> {
    match cmd {
        SubCommand::Play => if config.defaults.playlist is Some {
            Some((HttpMethod::Put, play_url_of(config)))
        } else {
            None
        },
        SubCommand::Pause => Some(
            (HttpMethod::Put, "https://api.spotify.com/v1/me/player/pause"@),
        ),
        SubCommand::Skip => Some((HttpMethod::Post, "https://api.spotify.com/v1/me/player/next"@)),
        SubCommand::Back => Some(
            (HttpMethod::Post, "https://api.spotify.com/v1/me/player/previous"@),
        ),
        SubCommand::Current => Some(
            (HttpMethod::Get, "https://api.spotify.com/v1/me/player/currently-playing"@),
        ),
        _ => None,
    }
}

/// The method and address of the player request that a command sends.
pub fn player_request(cmd: SubCommand, config: &Config) -> (r: Option<(HttpMethod, String)>)
    ensures
        match (r, player_request_of(cmd, *config)) {
            (Some(a), Some(b)) => a.0 == b.0 && a.1@ == b.1,
            (None, None) => true,
            _ => false,
        },
{
    match cmd {
        SubCommand::Play => if config.defaults.playlist.is_some() {
            Some((HttpMethod::Put, play_url(config)))
        } else {
            None
        },
        SubCommand::Pause => Some(
            (HttpMethod::Put, String::from_str("https://api.spotify.com/v1/me/player/pause")),
        ),
        SubCommand::Skip => Some(
            (HttpMethod::Post, String::from_str("https://api.spotify.com/v1/me/player/next")),
        ),
        SubCommand::Back => Some(
            (HttpMethod::Post, String::from_str("https://api.spotify.com/v1/me/player/previous")),
        ),
        SubCommand::Current => Some(
            (
                HttpMethod::Get,
                String::from_str("https://api.spotify.com/v1/me/player/currently-playing"),
            ),
        ),
        _ => None,
    }
}

/// Whether the command shows what is playing once its request is done.
pub fn shows_current_after(cmd: SubCommand) -> (r: bool)
    ensures
        r <==> (cmd == SubCommand::Play || cmd == SubCommand::Skip || cmd == SubCommand::Back),
{
    match cmd {
        SubCommand::Play | SubCommand::Skip | SubCommand::Back => true,
        _ => false,
    }
}

} // verus!
