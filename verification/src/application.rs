//! The launcher that keeps one session with the search service for as long
//! as it runs: where its events go and what they lead to.

use crate::desktop_entry_data::DesktopEntryData;
use crate::protocol::{Response, SearchResult};
use crate::subscriptions::launcher::BackendRequest;
use crate::utils::{host_path, host_path_of};
use vstd::prelude::*;

verus! {

/// The number of results that can be activated by a shortcut, and one more.
pub const NUM_LAUNCHER_ITEMS: u8 = 10;

/// What the main loop of the launcher takes.
#[derive(Debug, Clone, PartialEq, Eq)]
pub enum Event {
    /// The search service answered.
    Response(Response),
    /// The text of the input field changed.
    Search(String),
    /// The result with this id is to be activated.
    Activate(u32),
}

/// What passes through the task that owns the session.
#[derive(Debug, Clone, PartialEq, Eq)]
pub enum LauncherIpcEvent {
    /// From the search service.
    Response(Response),
    /// For the search service.
    Request(BackendRequest),
}

/// Where the task that owns the session sends what it gets.
#[derive(Debug, Clone, PartialEq, Eq)]
pub enum Forwarded {
    /// To the main loop.
    ToFrontEnd(Event),
    /// Into the input of the search service.
    ToService(BackendRequest),
}

/// Where an event of the session task goes: what the search service says
/// goes to the main loop, what is asked of it goes into its input.
pub open spec fn forwarded(event: LauncherIpcEvent) -> Forwarded {
    match event {
        LauncherIpcEvent::Response(response) => Forwarded::ToFrontEnd(Event::Response(response)),
        LauncherIpcEvent::Request(request) => Forwarded::ToService(request),
    }
}

/// Says where an event of the session task goes.
pub fn forward(event: LauncherIpcEvent) -> (to: Forwarded)
    ensures
        to == forwarded(event),
{
    match event {
        LauncherIpcEvent::Response(response) => Forwarded::ToFrontEnd(Event::Response(response)),
        LauncherIpcEvent::Request(request) => Forwarded::ToService(request),
    }
}

/// What the main loop has to do for an event.
#[derive(Debug, Clone, PartialEq, Eq)]
pub enum Step {
    /// Pass the request on to the session task.
    Request(BackendRequest),
    /// Put these results in the place of all that the list holds.
    ReplaceResults(Vec<SearchResult>),
    /// Read the desktop entry at this path and launch what it names.
    Launch(String),
    /// Nothing.
    Ignore,
}

/// Whether `step` is what the main loop has to do for `event`. Searches and
/// activations become requests. A new result list replaces the old one. A
/// desktop entry is launched from where the launcher sees its file, which
/// in a sandbox is where the host's files are seen.
pub open spec fn is_step_for(event: Event, in_flatpak: bool, step: Step) -> bool {
    match event {
        Event::Search(text) => step == Step::Request(BackendRequest::Search(text)),
        Event::Activate(id) => step == Step::Request(BackendRequest::Activate(id)),
        Event::Response(Response::Update(results)) => step == Step::ReplaceResults(results),
        Event::Response(Response::DesktopEntry { path, .. }) => step matches Step::Launch(seen)
            && seen@ == if in_flatpak {
            host_path_of(path@)
        } else {
            path@
        },
        Event::Response(_) => step == Step::Ignore,
    }
}

/// Decides what the main loop does for an event.
pub fn dispatch(event: Event, in_flatpak: bool) -> (step: Step)
    ensures
        is_step_for(event, in_flatpak, step),
{
    match event {
        Event::Search(text) => Step::Request(BackendRequest::Search(text)),
        Event::Activate(id) => Step::Request(BackendRequest::Activate(id)),
        Event::Response(response) => match response {
            Response::Update(results) => Step::ReplaceResults(results),
            Response::DesktopEntry { path, gpu_preference, action_name } => {
                if in_flatpak {
                    Step::Launch(host_path(path))
                } else {
                    Step::Launch(path)
                }
            },
            _ => Step::Ignore,
        },
    }
}

/// The name of the file at the end of the path, without its extension, and
/// `None` for a path that ends in no file name.
pub uninterp spec fn path_file_stem(path: Seq<char>) -> Option<Seq<char>>;

/// Trusted: stands for `Path::file_stem` of the standard library, whose
/// result depends on the path alone. A path made from text stays text.
#[verifier::external_body]
fn file_stem(path: &str) -> (stem: Option<String>)
    ensures
        crate::text::text_of(stem) == path_file_stem(path@),
{
    std::path::Path::new(path).file_stem().map(|stem| stem.to_string_lossy().into_owned())
}

/// The id of the application whose desktop entry lies at the path: the name
/// of the file without its extension, and the empty id for a path that ends
/// in no file name.
pub open spec fn appid_of(path: Seq<char>) -> Seq<char> {
    match path_file_stem(path) {
        Some(stem) => stem,
        None => Seq::empty(),
    }
}

/// What the launcher keeps of a desktop entry that it is about to launch,
/// or `None` for an entry that is not to be launched: one without a name,
/// or one that asks not to be displayed.
pub fn launchable(
    path: String,
    name: String,
    no_display: bool,
    icon: Option<String>,
    categories: String,
) -> (data: Option<DesktopEntryData>)
    ensures
        data is Some == (name@.len() > 0 && !no_display),
        data matches Some(data) ==> data@ == (crate::desktop_entry_data::DesktopEntryView {
            appid: appid_of(path@),
            path: path@,
            name: name@,
            categories: categories@,
            icon: crate::text::text_of(icon),
        }),
{
    if name.as_str().unicode_len() == 0 || no_display {
        return None;
    }
    let appid = match file_stem(path.as_str()) {
        Some(stem) => stem,
        None => String::new(),
    };
    let mut data = DesktopEntryData::new();
    data.set_data(appid, path, name, icon, categories);
    Some(data)
}

} // verus!
