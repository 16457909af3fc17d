//! What the result list looks like: titles, shortcuts, and the room that
//! the launcher makes for other layers.

use crate::protocol::SearchResult;
use vstd::prelude::*;
use vstd::string::StringExecFns;

verus! {

/// The columns that a line of a result's title may take.
pub const TITLE_COLUMNS: usize = 60;

/// The columns that a line of a result's subtitle may take.
pub const SUBTITLE_COLUMNS: usize = 80;

/// The number of results beyond which the list scrolls.
pub const SCROLL_MIN: usize = 8;

/// The number of columns that the text takes when it is displayed.
pub uninterp spec fn columns(line: Seq<char>) -> nat;

/// Measures the columns that a line takes on display.
///
/// Trusted: stands for `UnicodeWidthStr::width` of the crate `unicode-width`,
/// whose result depends on the text alone.
#[verifier::external_body]
fn display_width(line: &str) -> (width: usize)
    ensures
        width == columns(line@),
{
    unicode_width::UnicodeWidthStr::width(line)
}

/// Says whether a line takes more than `limit` columns and has to be cut
/// for display.
pub fn too_wide(line: &str, limit: usize) -> (wide: bool)
    ensures
        wide == (columns(line@) > limit),
{
    display_width(line) > limit
}

/// Marks a line that was cut: three dots follow what is left of it.
pub fn with_ellipsis(cut: &str) -> (shown: String)
    ensures
        shown@ == cut@ + "..."@,
{
    String::from_str(cut).concat("...")
}

/// The title and the subtitle of a result, in this order. A result that
/// stands for an open window is titled by its description, the title of
/// the window, and has its name, that of the application, below.
pub fn labels(item: &SearchResult) -> (shown: (&String, &String))
    ensures
        shown == if item.window is Some {
            (&item.description, &item.name)
        } else {
            (&item.name, &item.description)
        },
{
    if item.window.is_some() {
        (&item.description, &item.name)
    } else {
        (&item.name, &item.description)
    }
}

/// The digit of the shortcut shown beside the result at `place`: the first
/// ten results have one, which counts from one and ends with zero.
pub fn shortcut_digit(place: usize) -> (digit: Option<usize>)
    ensures
        digit == if place < 10 {
            Some(((place + 1) % 10) as usize)
        } else {
            None
        },
{
    if place < 10 {
        Some((place + 1) % 10)
    } else {
        None
    }
}

/// Says whether a list of `len` results is shown in a scrolling container.
pub fn scrolls(len: usize) -> (scrolling: bool)
    ensures
        scrolling == (len > SCROLL_MIN),
{
    len > SCROLL_MIN
}

/// Whether a layer that overlaps the launcher surface is one that the
/// launcher makes room for: a layer that claims screen space for itself, or
/// the dock, or the panel.
pub open spec fn makes_room_for(exclusive: u32, namespace: Seq<char>) -> bool {
    exclusive > 0 || namespace == "Dock"@ || namespace == "Panel"@
}

/// Says whether the launcher makes room for an overlapping layer.
pub fn tracks_overlap(exclusive: u32, namespace: &str) -> (kept: bool)
    ensures
        kept == makes_room_for(exclusive, namespace@),
{
    exclusive > 0 || crate::text::same_text(namespace, "Dock") || crate::text::same_text(
        namespace,
        "Panel",
    )
}

} // verus!
