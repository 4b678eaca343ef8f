use vstd::prelude::*;
use crate::config::Config;

verus! {

/// The commands of the command line.
#[derive(Debug, PartialEq, Eq, Structural, Clone, Copy)]
pub enum SubCommand {
    /// Plays a specific song or resumes the latest.
    Play,
    /// Pauses playback.
    Pause,
    /// Switches between play and pause.
    Toggle,
    /// Saves the song that is playing to the configured playlist.
    Save,
    /// Logs in through the PKCE flow.
    Login,
    /// Shows the song or podcast that is playing.
    Current,
    /// Skips to the next song.
    Skip,
    /// Skips to the previous song.
    Back,
    /// Prints shorthand aliases for common commands.
    Alias,
}

/// The parsed command line.
#[derive(Debug, PartialEq, Eq, Structural, Clone, Copy)]
pub struct Opts {
    pub subcmd: SubCommand,
}

/// What a run does before its command.
#[derive(Debug, PartialEq, Eq, Structural, Clone, Copy)]
pub enum RunPlan {
    /// Run the login flow.
    Login,
    /// Refresh the session, then run the command with the fresh tokens.
    RefreshThenRun,
    /// Stop: nobody is logged in, and no request is sent.
    NotLoggedIn,
}

/// Every command but `login` needs a session, refreshed before the command runs;
/// without a stored refresh token the run stops before any request.
pub fn plan_run(cmd: SubCommand, config: &Config) -> (r: RunPlan)
    ensures
        r == RunPlan::Login <==> cmd == SubCommand::Login,
        r == RunPlan::NotLoggedIn <==> cmd != SubCommand::Login && config.auth.refresh_token is None,
        r == RunPlan::RefreshThenRun <==> cmd != SubCommand::Login
            && config.auth.refresh_token is Some,
{
    match cmd {
        SubCommand::Login => RunPlan::Login,
        _ => match &config.auth.refresh_token {
            Some(_) => RunPlan::RefreshThenRun,
            None => RunPlan::NotLoggedIn,
        },
    }
}

} // verus!
