//! What the search service answers: the values that travel from its output
//! to the front end.

use vstd::prelude::*;

verus! {

/// One entry of the context menu of a search result.
#[derive(Debug, Clone, PartialEq, Eq)]
pub struct ContextOption {
    pub id: u32,
    pub name: String,
}

/// Which graphics processor an application asks to be started on.
#[derive(Debug, Clone, Copy, PartialEq, Eq, Structural)]
pub enum GpuPreference {
    Default,
    NonDefault,
    SpecificIdx(u32),
}

/// Where the icon of a search result comes from.
#[derive(Debug, Clone, PartialEq, Eq)]
pub enum IconSource {
    /// An icon name or a path.
    Name(String),
    /// A mime type.
    Mime(String),
}

/// One line of the result list.
#[derive(Debug, Clone, PartialEq, Eq)]
pub struct SearchResult {
    /// The number by which the search service knows the result.
    pub id: u32,
    /// Title.
    pub name: String,
    /// Subtitle.
    pub description: String,
    /// Icon of the result.
    pub icon: Option<IconSource>,
    /// Icon of the plugin that found the result.
    pub category_icon: Option<IconSource>,
    /// Set when the result stands for an open window.
    pub window: Option<(u32, u32)>,
}

/// A message of the search service to the front end.
#[derive(Debug, Clone, PartialEq, Eq)]
pub enum Response {
    /// The front end may close.
    Close,
    /// The context options of the result `id`.
    Context { id: u32, options: Vec<ContextOption> },
    /// The desktop entry at `path` is to be launched by the front end.
    DesktopEntry { path: String, gpu_preference: GpuPreference, action_name: Option<String> },
    /// The new result list, replacing the one shown.
    Update(Vec<SearchResult>),
    /// Text to put into the input field.
    Fill(String),
}

} // verus!
