//! The window of the launcher with a list of at most nine results.

use crate::application::Event;
use crate::utils::{host_path, host_path_of, path_join, path_joined, BoxedSearchResult};
use vstd::prelude::*;

verus! {

/// The number of results that the list shows.
pub const NUM_LAUNCHER_ITEMS: u8 = 9;

/// The event that activating the row at `position` leads to: the
/// activation of the result in that row, if the list has a row there and
/// the row holds a result.
pub open spec fn activation_of(model: Seq<BoxedSearchResult>, position: u32) -> Option<Event> {
    if position < model.len() {
        match model[position as int].0 {
            Some(result) => Some(Event::Activate(result.id)),
            None => None,
        }
    } else {
        None
    }
}

/// Says what activating the row at `position` leads to.
pub fn activate_result(model: &Vec<BoxedSearchResult>, position: u32) -> (event: Option<Event>)
    ensures
        event == activation_of(model@, position),
{
    if (position as usize) < model.len() {
        match &model[position as usize].0 {
            Some(result) => Some(Event::Activate(result.id)),
            None => None,
        }
    } else {
        None
    }
}

/// The number of the shortcut shown beside the row at `position`: the first
/// nine rows have the shortcuts one to nine, the others none.
pub fn shortcut(position: u32) -> (number: Option<u32>)
    ensures
        number == if position < NUM_LAUNCHER_ITEMS {
            Some((position + 1) as u32)
        } else {
            None
        },
{
    if position < 9 {
        Some(position + 1)
    } else {
        None
    }
}

/// The directories in which a sandboxed launcher looks for icons: for each
/// data directory of the host, seen from the sandbox, its `icons` and its
/// `pixmaps`.
pub open spec fn icon_search_paths_of(data_dirs: Seq<Seq<char>>) -> Seq<Seq<char>>
    decreases data_dirs.len(),
{
    if data_dirs.len() == 0 {
        Seq::empty()
    } else {
        icon_search_paths_of(data_dirs.drop_last()).push(
            path_joined(host_path_of(data_dirs.last()), "icons"@),
        ).push(path_joined(host_path_of(data_dirs.last()), "pixmaps"@))
    }
}

/// Lists the directories in which a sandboxed launcher looks for icons.
pub fn icon_search_paths(data_dirs: Vec<String>) -> (paths: Vec<String>)
    ensures
        paths@.map_values(|path: String| path@) == icon_search_paths_of(
            data_dirs@.map_values(|dir: String| dir@),
        ),
{
    let ghost dirs = data_dirs@.map_values(|dir: String| dir@);
    let mut paths: Vec<String> = Vec::new();
    for dir in it: data_dirs
        invariant
            it.seq().map_values(|dir: String| dir@) == dirs,
            paths@.map_values(|path: String| path@) == icon_search_paths_of(
                dirs.take(it.index() as int),
            ),
    {
        let ghost i = it.index() as int;
        let ghost before = paths@.map_values(|path: String| path@);
        proof {
            assert(dirs.take(i + 1).drop_last() == dirs.take(i));
        }
        let seen = host_path(dir);
        let icons = path_join(seen.as_str(), "icons");
        let pixmaps = path_join(seen.as_str(), "pixmaps");
        paths.push(icons);
        paths.push(pixmaps);
    }
    proof {
        assert(dirs.take(dirs.len() as int) == dirs);
    }
    paths
}

/// What the widgets of the window report.
#[derive(Debug, Clone, PartialEq, Eq)]
pub enum WindowSignal {
    /// The shortcut with this number, from one to nine, was used.
    Launch(u32),
    /// The row at this position of the list was activated.
    RowActivated(u32),
    /// The entry was activated while the row at this position was selected.
    EntryActivated(u32),
    /// The text of the entry changed to this.
    EntryChanged(String),
    /// The entry came on screen with this text.
    EntryRealized(String),
    /// The window was asked to close.
    Quit,
    /// The window became active, or stopped being so.
    ActiveChanged(bool),
}

/// What is to be done to the window.
#[derive(Debug, Clone, PartialEq, Eq)]
pub enum WindowStep {
    /// Activate the result in the row at this position.
    ActivateResult(u32),
    /// Hand the event to the main loop.
    Send(Event),
    Hide,
    /// Take the selection from the list.
    Unselect,
    /// Empty the entry.
    ClearEntry,
    Show,
}

/// Whether `steps` is what a report of the widgets leads to. A shortcut
/// activates the row before its number, which starts at one, an activated
/// row itself, and the entry the selected row. The text of the entry is searched for when it
/// changes and when the entry comes on screen. Closing the window and
/// losing the focus reset it; a window that becomes active asks for a
/// search for nothing and shows itself.
pub open spec fn is_reaction_to(signal: WindowSignal, steps: Seq<WindowStep>) -> bool {
    match signal {
        WindowSignal::Launch(number) => steps == if number >= 1 {
            seq![WindowStep::ActivateResult((number - 1) as u32)]
        } else {
            Seq::empty()
        },
        WindowSignal::RowActivated(position) => steps == seq![WindowStep::ActivateResult(position)],
        WindowSignal::EntryActivated(selected) => steps == seq![
            WindowStep::ActivateResult(selected),
        ],
        WindowSignal::EntryChanged(text) => steps == seq![WindowStep::Send(Event::Search(text))],
        WindowSignal::EntryRealized(text) => steps == seq![WindowStep::Send(Event::Search(text))],
        WindowSignal::Quit => is_reset(steps),
        WindowSignal::ActiveChanged(false) => is_reset(steps),
        WindowSignal::ActiveChanged(true) => steps.len() == 2 && (steps[0] matches WindowStep::Send(
            Event::Search(text),
        ) && text@.len() == 0) && steps[1] == WindowStep::Show,
    }
}

/// Whether `steps` are the steps that bring the window back to its first
/// state: it is hidden, a search for nothing is asked for, selection and
/// entry are cleared, and the window is shown again.
pub open spec fn is_reset(steps: Seq<WindowStep>) -> bool {
    &&& steps.len() == 5
    &&& steps[0] == WindowStep::Hide
    &&& steps[1] matches WindowStep::Send(Event::Search(text)) && text@.len() == 0
    &&& steps[2] == WindowStep::Unselect
    &&& steps[3] == WindowStep::ClearEntry
    &&& steps[4] == WindowStep::Show
}

/// Gives the steps that bring the window back to its first state.
pub fn reset() -> (steps: Vec<WindowStep>)
    ensures
        is_reset(steps@),
{
    let mut steps: Vec<WindowStep> = Vec::new();
    steps.push(WindowStep::Hide);
    steps.push(WindowStep::Send(Event::Search(String::new())));
    steps.push(WindowStep::Unselect);
    steps.push(WindowStep::ClearEntry);
    steps.push(WindowStep::Show);
    steps
}

/// Decides what a report of the widgets leads to.
pub fn on_signal(signal: WindowSignal) -> (steps: Vec<WindowStep>)
    ensures
        is_reaction_to(signal, steps@),
{
    let mut steps: Vec<WindowStep> = Vec::new();
    match signal {
        WindowSignal::Launch(number) => {
            if number >= 1 {
                steps.push(WindowStep::ActivateResult(number - 1));
            }
        },
        WindowSignal::RowActivated(position) => steps.push(WindowStep::ActivateResult(position)),
        WindowSignal::EntryActivated(selected) => steps.push(WindowStep::ActivateResult(selected)),
        WindowSignal::EntryChanged(text) => steps.push(WindowStep::Send(Event::Search(text))),
        WindowSignal::EntryRealized(text) => steps.push(WindowStep::Send(Event::Search(text))),
        WindowSignal::Quit => {
            return reset();
        },
        WindowSignal::ActiveChanged(active) => {
            if !active {
                return reset();
            }
            steps.push(WindowStep::Send(Event::Search(String::new())));
            steps.push(WindowStep::Show);
        },
    }
    steps
}

} // verus!
