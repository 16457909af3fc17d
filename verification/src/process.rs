//! Programs that the launcher starts.

use vstd::prelude::*;

verus! {

/// A program to start, with its arguments and the variables to add to its
/// environment.
#[derive(Debug, Clone, PartialEq, Eq)]
pub struct LaunchCommand {
    pub program: String,
    pub args: Vec<String>,
    pub envs: Vec<(String, String)>,
}

/// A command as a mathematical value.
pub struct LaunchCommandView {
    pub program: Seq<char>,
    pub args: Seq<Seq<char>>,
    pub envs: Seq<(Seq<char>, Seq<char>)>,
}

impl View for LaunchCommand {
    type V = LaunchCommandView;

    open spec fn view(&self) -> LaunchCommandView {
        LaunchCommandView {
            program: self.program@,
            args: self.args@.map_values(|arg: String| arg@),
            envs: env_views(self.envs@),
        }
    }
}

/// The variables of a list as mathematical values.
pub open spec fn env_views(envs: Seq<(String, String)>) -> Seq<(Seq<char>, Seq<char>)> {
    envs.map_values(|env: (String, String)| (env.0@, env.1@))
}

/// The variables that hand an activation token to the application.
pub open spec fn token_envs(token: Option<Seq<char>>) -> Seq<(Seq<char>, Seq<char>)> {
    match token {
        Some(token) => seq![
            ("XDG_ACTIVATION_TOKEN"@, token),
            ("DESKTOP_STARTUP_ID"@, token),
        ],
        None => Seq::empty(),
    }
}

} // verus!
