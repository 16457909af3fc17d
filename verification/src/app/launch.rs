//! The start of an application: which command line of its desktop entry is
//! run, on which graphics processor, and with which additions to its
//! environment.

use crate::process::{env_views, token_envs};
use crate::text::text_of;
use crate::protocol::GpuPreference;
use vstd::prelude::*;
use vstd::string::StringExecFns;

verus! {

/// A graphics processor, as the system reports it.
#[derive(Debug, Clone, PartialEq, Eq)]
pub struct Gpu {
    /// Whether it is the one that programs run on unless told otherwise.
    pub default: bool,
    /// The variables that make a program run on it.
    pub environment: Vec<(String, String)>,
}

/// Whether a graphics processor is one that `preference` asks for, where the
/// preference is not for a given place in the list.
pub open spec fn gpu_wanted(preference: GpuPreference, gpu: Gpu) -> bool {
    match preference {
        GpuPreference::Default => gpu.default,
        GpuPreference::NonDefault => !gpu.default,
        GpuPreference::SpecificIdx(_) => false,
    }
}

/// Whether `chosen` is the choice among `gpus` that `preference` asks for:
/// the place named, if the list is that long, or else the first place that
/// holds a default, or a non-default, graphics processor.
pub open spec fn is_gpu_choice(
    preference: GpuPreference,
    gpus: Seq<Gpu>,
    chosen: Option<usize>,
) -> bool {
    match preference {
        GpuPreference::SpecificIdx(place) => chosen == if place < gpus.len() {
            Some(place as usize)
        } else {
            None
        },
        _ => match chosen {
            Some(place) => place < gpus.len() && gpu_wanted(preference, gpus[place as int])
                && forall|k: int| 0 <= k < place ==> !gpu_wanted(preference, #[trigger] gpus[k]),
            None => forall|k: int|
                0 <= k < gpus.len() ==> !gpu_wanted(preference, #[trigger] gpus[k]),
        },
    }
}

/// Chooses the graphics processor to start an application on.
pub fn select_gpu(preference: GpuPreference, gpus: &Vec<Gpu>) -> (chosen: Option<usize>)
    ensures
        is_gpu_choice(preference, gpus@, chosen),
{
    match preference {
        GpuPreference::SpecificIdx(place) => {
            if (place as usize) < gpus.len() {
                Some(place as usize)
            } else {
                None
            }
        },
        _ => {
            let want_default = match preference {
                GpuPreference::Default => true,
                _ => false,
            };
            let mut i: usize = 0;
            while i < gpus.len()
                invariant
                    i <= gpus.len(),
                    !(preference is SpecificIdx),
                    want_default == (preference is Default),
                    forall|k: int| 0 <= k < i ==> !gpu_wanted(preference, #[trigger] gpus@[k]),
                decreases gpus.len() - i,
            {
                if gpus[i].default == want_default {
                    return Some(i);
                }
                i += 1;
            }
            None
        },
    }
}

/// The variables added to the environment of an application that is
/// launched: those that hand over the activation token, if there is one,
/// then those of the graphics processor it is to run on, if one was chosen.
pub open spec fn launch_envs_of(
    token: Option<Seq<char>>,
    gpu: Option<Seq<(String, String)>>,
) -> Seq<(Seq<char>, Seq<char>)> {
    token_envs(token) + match gpu {
        Some(envs) => env_views(envs),
        None => Seq::empty(),
    }
}

/// Collects the variables to add to the environment of an application.
pub fn launch_envs(token: Option<String>, gpu: Option<Vec<(String, String)>>) -> (envs: Vec<
    (String, String),
>)
    ensures
        env_views(envs@) == launch_envs_of(
            text_of(token),
            match gpu {
                Some(envs) => Some(envs@),
                None => None,
            },
        ),
{
    let mut envs: Vec<(String, String)> = Vec::new();
    match token {
        Some(token) => {
            envs.push((String::from_str("XDG_ACTIVATION_TOKEN"), token.clone()));
            envs.push((String::from_str("DESKTOP_STARTUP_ID"), token));
        },
        None => {},
    }
    match gpu {
        Some(mut more) => envs.append(&mut more),
        None => {},
    }
    envs
}

/// An action that a desktop entry offers besides starting its application.
#[derive(Debug, Clone, PartialEq, Eq)]
pub struct DesktopAction {
    pub name: String,
    pub command: String,
}

/// Whether `chosen` is the command line to run for a desktop entry: that of
/// the entry itself when no action is named, else that of the first of its
/// actions that bears the name, and none when no action does.
pub open spec fn is_command_choice(
    command: Option<String>,
    actions: Seq<DesktopAction>,
    action_name: Option<String>,
    chosen: Option<String>,
) -> bool {
    match action_name {
        None => chosen == command,
        Some(name) => match chosen {
            Some(chosen) => exists|i: int|
                0 <= i < actions.len() && (#[trigger] actions[i]).name@ == name@ && chosen
                    == actions[i].command && forall|k: int|
                    0 <= k < i ==> (#[trigger] actions[k]).name@ != name@,
            None => forall|k: int|
                0 <= k < actions.len() ==> (#[trigger] actions[k]).name@ != name@,
        },
    }
}

/// Picks the command line to run for a desktop entry, given the command
/// line of the entry itself, its actions, and the name of the action that
/// was asked for, if any.
pub fn desktop_command(
    command: Option<String>,
    actions: Vec<DesktopAction>,
    action_name: Option<String>,
) -> (chosen: Option<String>)
    ensures
        is_command_choice(command, actions@, action_name, chosen),
{
    match action_name {
        None => command,
        Some(name) => {
            let ghost all = actions@;
            for action in it: actions
                invariant
                    it.seq() == all,
                    action_name == Some(name),
                    forall|k: int| 0 <= k < it.index() ==> (#[trigger] all[k]).name@ != name@,
            {
                if action.name == name {
                    return Some(action.command);
                }
            }
            None
        },
    }
}

} // verus!
