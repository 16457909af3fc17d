//! Paths and icons.
//!
//! A launcher that runs in a sandbox sees the files of the host below
//! `/var/run/host`. What lies under `/usr` on the host is looked for there.

use crate::protocol::{IconSource, SearchResult};
use crate::text::{pieces, split_on, trim, trimmed};
use vstd::prelude::*;
use vstd::string::StringExecFns;

verus! {

/// A search result in a box that may be empty.
#[derive(Debug, Clone, PartialEq, Eq)]
pub struct BoxedSearchResult(pub Option<SearchResult>);

impl Default for BoxedSearchResult {
    fn default() -> (boxed: Self)
        ensures
            boxed.0 is None,
    {
        BoxedSearchResult(None)
    }
}

/// Whether the path `base` is a prefix of `path`, the two compared one whole
/// component after the other.
pub uninterp spec fn path_is_under(path: Seq<char>, base: Seq<char>) -> bool;

/// What is left of `path` when the prefix `base` is taken from it, and
/// `None` when `base` is no prefix of `path`.
pub uninterp spec fn path_below(path: Seq<char>, base: Seq<char>) -> Option<Seq<char>>;

/// The path `rest` seen from `base`.
pub uninterp spec fn path_joined(base: Seq<char>, rest: Seq<char>) -> Seq<char>;

/// Whether the path begins at the root of the file system.
pub uninterp spec fn path_is_rooted(path: Seq<char>) -> bool;

/// Trusted: stands for `Path::starts_with` of the standard library, whose
/// answer depends on the two paths alone.
#[verifier::external_body]
fn path_starts_with(path: &str, base: &str) -> (under: bool)
    ensures
        under == path_is_under(path@, base@),
{
    std::path::Path::new(path).starts_with(base)
}

/// Trusted: stands for `Path::strip_prefix` of the standard library, whose
/// result depends on the two paths alone. A path made from text stays text.
#[verifier::external_body]
fn path_strip_prefix(path: &str, base: &str) -> (rest: Option<String>)
    ensures
        crate::text::text_of(rest) == path_below(path@, base@),
{
    std::path::Path::new(path).strip_prefix(base).ok().map(
        |rest| rest.to_string_lossy().into_owned(),
    )
}

/// Trusted: stands for `Path::join` of the standard library, whose result
/// depends on the two paths alone. A path made from text stays text.
#[verifier::external_body]
pub(crate) fn path_join(base: &str, rest: &str) -> (joined: String)
    ensures
        joined@ == path_joined(base@, rest@),
{
    std::path::Path::new(base).join(rest).to_string_lossy().into_owned()
}

/// Trusted: stands for `Path::has_root` of the standard library, whose
/// answer depends on the path alone.
#[verifier::external_body]
fn path_has_root(path: &str) -> (rooted: bool)
    ensures
        rooted == path_is_rooted(path@),
{
    std::path::Path::new(path).has_root()
}

/// Where a sandboxed launcher finds the path of the host: what lies under
/// `/usr` is found under `/var/run/host/usr`, everything else where it is.
pub open spec fn host_path_of(path: Seq<char>) -> Seq<char> {
    if path_is_under(path, "/usr"@) {
        path_joined(
            "/var/run/host"@,
            match path_below(path, "/"@) {
                Some(rest) => rest,
                None => path,
            },
        )
    } else {
        path
    }
}

/// Gives the path under which a sandboxed launcher finds a path of the host.
pub fn host_path(path: String) -> (seen: String)
    ensures
        seen@ == host_path_of(path@),
{
    if path_starts_with(path.as_str(), "/usr") {
        match path_strip_prefix(path.as_str(), "/") {
            Some(rest) => path_join("/var/run/host", rest.as_str()),
            None => path_join("/var/run/host", path.as_str()),
        }
    } else {
        path
    }
}

/// What is to be done to an image widget to make it show an icon.
#[derive(Debug, Clone, PartialEq, Eq)]
pub enum IconStep {
    /// Show the icon of this name, or no icon for `None`.
    SetFromIconName(Option<String>),
    /// Show the icon that stands for this content type.
    SetFromContentType(String),
    /// Show the image in this file.
    SetFromFile(String),
    /// Look the name up in the icon theme, in the largest size that the
    /// theme has it in, and show what is found.
    SetFromTheme(String),
}

/// An icon step as a mathematical value.
pub enum IconStepView {
    SetFromIconName(Option<Seq<char>>),
    SetFromContentType(Seq<char>),
    SetFromFile(Seq<char>),
    SetFromTheme(Seq<char>),
}

impl View for IconStep {
    type V = IconStepView;

    open spec fn view(&self) -> IconStepView {
        match *self {
            IconStep::SetFromIconName(name) => IconStepView::SetFromIconName(
                crate::text::text_of(name),
            ),
            IconStep::SetFromContentType(content_type) => IconStepView::SetFromContentType(
                content_type@,
            ),
            IconStep::SetFromFile(path) => IconStepView::SetFromFile(path@),
            IconStep::SetFromTheme(name) => IconStepView::SetFromTheme(name@),
        }
    }
}

/// The name that an icon source gives: an icon name, a path, or a content
/// type; the empty name without a source.
pub open spec fn icon_name_of(source: Option<IconSource>) -> Seq<char> {
    match source {
        Some(IconSource::Name(name)) => name@,
        Some(IconSource::Mime(content_type)) => content_type@,
        None => Seq::empty(),
    }
}

/// The steps that make an image widget show the icon of a search result.
/// Outside a sandbox the widget is first given the icon by its name or
/// content type. Then, in any case, a name that is a rooted path is shown
/// from the file, looked for where the host's files are seen, and any other
/// name is looked up in the icon theme.
pub open spec fn icon_steps(source: Option<IconSource>, in_flatpak: bool) -> Seq<IconStepView> {
    (if in_flatpak {
        Seq::empty()
    } else {
        seq![
            match source {
                Some(IconSource::Name(name)) => IconStepView::SetFromIconName(Some(name@)),
                Some(IconSource::Mime(content_type)) => IconStepView::SetFromContentType(
                    content_type@,
                ),
                None => IconStepView::SetFromIconName(None),
            },
        ]
    }) + seq![
        if path_is_rooted(icon_name_of(source)) {
            IconStepView::SetFromFile(host_path_of(icon_name_of(source)))
        } else {
            IconStepView::SetFromTheme(icon_name_of(source))
        },
    ]
}

/// Plans how an image widget is made to show the icon of a search result.
pub fn icon_source(source: &Option<IconSource>, in_flatpak: bool) -> (steps: Vec<IconStep>)
    ensures
        steps@.map_values(|step: IconStep| step@) == icon_steps(*source, in_flatpak),
{
    let mut steps: Vec<IconStep> = Vec::new();
    if !in_flatpak {
        match source {
            Some(IconSource::Name(name)) => steps.push(
                IconStep::SetFromIconName(Some(name.clone())),
            ),
            Some(IconSource::Mime(content_type)) => steps.push(
                IconStep::SetFromContentType(content_type.clone()),
            ),
            None => steps.push(IconStep::SetFromIconName(None)),
        }
    }
    let icon_name = match source {
        Some(IconSource::Name(name)) => name.clone(),
        Some(IconSource::Mime(content_type)) => content_type.clone(),
        None => String::new(),
    };
    if path_has_root(icon_name.as_str()) {
        steps.push(IconStep::SetFromFile(host_path(icon_name)));
    } else {
        steps.push(IconStep::SetFromTheme(icon_name));
    }
    steps
}

/// The size in which an icon is looked up in the theme: the largest of the
/// sizes that the theme has it in, and 1 if it has none.
pub open spec fn is_icon_size(sizes: Seq<i32>, size: i32) -> bool {
    if sizes.len() == 0 {
        size == 1
    } else {
        sizes.contains(size) && forall|k: int| 0 <= k < sizes.len() ==> sizes[k] <= size
    }
}

/// Picks the size in which an icon is looked up in the theme.
pub fn icon_size(sizes: &Vec<i32>) -> (size: i32)
    ensures
        is_icon_size(sizes@, size),
{
    if sizes.len() == 0 {
        return 1;
    }
    let mut size = sizes[0];
    let mut i: usize = 1;
    while i < sizes.len()
        invariant
            1 <= i <= sizes.len(),
            exists|k: int| 0 <= k < i && sizes@[k] == size,
            forall|k: int| 0 <= k < i ==> sizes@[k] <= size,
        decreases sizes.len() - i,
    {
        if sizes[i] > size {
            size = sizes[i];
        }
        i += 1;
    }
    size
}

/// The directories named in a list that is divided by colons, as the
/// variable `XDG_DATA_DIRS` holds one: the list is freed of the white space
/// around it and divided at every colon.
pub open spec fn data_dirs_of(listing: Seq<char>) -> Seq<Seq<char>> {
    pieces(trimmed(listing), ':')
}

/// Reads the data directories from what the host answers when asked for the
/// variable `XDG_DATA_DIRS`.
pub fn xdg_data_dirs(listing: &str) -> (dirs: Vec<String>)
    ensures
        dirs@.map_values(|dir: String| dir@) == data_dirs_of(listing@),
{
    split_on(trim(listing), ':')
}

} // verus!
