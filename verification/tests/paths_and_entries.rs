use cosmic_launcher::application::{
    dispatch, forward, launchable, Event, Forwarded, LauncherIpcEvent, Step,
};
use cosmic_launcher::config::profile;
use cosmic_launcher::desktop_entry_data::DesktopEntryData;
use cosmic_launcher::process::LaunchCommand;
use cosmic_launcher::protocol::{GpuPreference, IconSource, Response, SearchResult};
use cosmic_launcher::subscriptions::launcher::BackendRequest;
use cosmic_launcher::text::{contains_char, same_text, split_on, starts_with_char, trim};
use cosmic_launcher::utils::{
    host_path, icon_size, icon_source, xdg_data_dirs, BoxedSearchResult, IconStep,
};
use cosmic_launcher::window::{
    activate_result, icon_search_paths, on_signal, reset, shortcut, WindowSignal, WindowStep,
};

fn strings(words: &[&str]) -> Vec<String> {
    words.iter().map(|w| String::from(*w)).collect()
}

fn result(id: u32) -> SearchResult {
    SearchResult {
        id,
        name: String::from("n"),
        description: String::from("d"),
        icon: None,
        category_icon: None,
        window: None,
    }
}

#[test]
fn text_questions() {
    assert!(contains_char("a=b", '='));
    assert!(!contains_char("ab", '='));
    assert!(!contains_char("", '='));
    assert!(starts_with_char("%u", '%'));
    assert!(!starts_with_char("u%", '%'));
    assert!(!starts_with_char("", '%'));
    assert!(same_text("Dock", "Dock"));
    assert!(!same_text("Dock", "Docks"));
    assert!(!same_text("Dock", "Duck"));
    assert!(same_text("", ""));
}

#[test]
fn split_gives_one_piece_more_than_separators() {
    assert_eq!(split_on("a:b:c", ':'), strings(&["a", "b", "c"]));
    assert_eq!(split_on("", ':'), strings(&[""]));
    assert_eq!(split_on(":", ':'), strings(&["", ""]));
    assert_eq!(split_on("a::b:", ':'), strings(&["a", "", "b", ""]));
    assert_eq!(split_on("\u{e9}t\u{e9}/x", '/'), strings(&["\u{e9}t\u{e9}", "x"]));
}

#[test]
fn trim_removes_white_space_at_both_ends() {
    assert_eq!(trim("  a b \n"), "a b");
    assert_eq!(trim("\u{a0}x\u{2003}"), "x");
    assert_eq!(trim(" \t\n"), "");
    assert_eq!(trim(""), "");
    assert_eq!(trim("abc"), "abc");
}

#[test]
fn profile_is_the_fourth_name_from_the_end() {
    assert_eq!(
        profile("/home/u/launcher/target/release/build/cosmic-launcher-1a2b/out"),
        "release"
    );
    assert_eq!(profile("/target/debug/build/pkg/out"), "debug");
    assert_eq!(profile("a/b/c"), "unknown");
    assert_eq!(profile(""), "unknown");
    assert_eq!(profile("/b/c/d"), "");
}

#[test]
fn host_files_under_usr_are_seen_below_var_run_host() {
    assert_eq!(
        host_path(String::from("/usr/share/applications/a.desktop")),
        "/var/run/host/usr/share/applications/a.desktop"
    );
    assert_eq!(host_path(String::from("/usr")), "/var/run/host/usr");
    assert_eq!(host_path(String::from("/usrx/share")), "/usrx/share");
    assert_eq!(host_path(String::from("/opt/usr")), "/opt/usr");
    assert_eq!(host_path(String::from("usr/share")), "usr/share");
    assert_eq!(host_path(String::from("")), "");
}

#[test]
fn data_dirs_are_read_from_a_colon_list() {
    assert_eq!(
        xdg_data_dirs("/usr/local/share:/usr/share\n"),
        strings(&["/usr/local/share", "/usr/share"])
    );
    assert_eq!(xdg_data_dirs("  /a  "), strings(&["/a"]));
    assert_eq!(xdg_data_dirs(""), strings(&[""]));
}

#[test]
fn icon_search_paths_are_icons_and_pixmaps_of_each_dir() {
    assert_eq!(
        icon_search_paths(strings(&["/usr/share", "/home/u/.local/share"])),
        strings(&[
            "/var/run/host/usr/share/icons",
            "/var/run/host/usr/share/pixmaps",
            "/home/u/.local/share/icons",
            "/home/u/.local/share/pixmaps",
        ])
    );
    assert_eq!(icon_search_paths(Vec::new()), Vec::<String>::new());
}

#[test]
fn icon_by_name_is_set_and_looked_up() {
    let source = Some(IconSource::Name(String::from("firefox")));
    assert_eq!(
        icon_source(&source, false),
        vec![
            IconStep::SetFromIconName(Some(String::from("firefox"))),
            IconStep::SetFromTheme(String::from("firefox")),
        ]
    );
    assert_eq!(icon_source(&source, true), vec![IconStep::SetFromTheme(String::from("firefox"))]);
}

#[test]
fn icon_by_content_type() {
    let source = Some(IconSource::Mime(String::from("text/plain")));
    assert_eq!(
        icon_source(&source, false),
        vec![
            IconStep::SetFromContentType(String::from("text/plain")),
            IconStep::SetFromTheme(String::from("text/plain")),
        ]
    );
}

#[test]
fn icon_by_path_is_shown_from_the_file() {
    let source = Some(IconSource::Name(String::from("/usr/share/pixmaps/a.png")));
    assert_eq!(
        icon_source(&source, true),
        vec![IconStep::SetFromFile(String::from("/var/run/host/usr/share/pixmaps/a.png"))]
    );
    let source = Some(IconSource::Name(String::from("/opt/a.png")));
    assert_eq!(
        icon_source(&source, false),
        vec![
            IconStep::SetFromIconName(Some(String::from("/opt/a.png"))),
            IconStep::SetFromFile(String::from("/opt/a.png")),
        ]
    );
}

#[test]
fn no_icon_source() {
    assert_eq!(
        icon_source(&None, false),
        vec![IconStep::SetFromIconName(None), IconStep::SetFromTheme(String::new())]
    );
    assert_eq!(icon_source(&None, true), vec![IconStep::SetFromTheme(String::new())]);
}

#[test]
fn icon_size_is_the_largest_or_one() {
    assert_eq!(icon_size(&vec![16, 64, 32]), 64);
    assert_eq!(icon_size(&vec![-1]), -1);
    assert_eq!(icon_size(&vec![48, 48]), 48);
    assert_eq!(icon_size(&Vec::new()), 1);
}

#[test]
fn boxed_search_result_is_empty_by_default() {
    assert_eq!(BoxedSearchResult::default(), BoxedSearchResult(None));
}

#[test]
fn session_task_forwards_both_ways() {
    assert_eq!(
        forward(LauncherIpcEvent::Response(Response::Close)),
        Forwarded::ToFrontEnd(Event::Response(Response::Close))
    );
    assert_eq!(
        forward(LauncherIpcEvent::Request(BackendRequest::Activate(2))),
        Forwarded::ToService(BackendRequest::Activate(2))
    );
}

#[test]
fn main_loop_dispatches_events() {
    assert_eq!(
        dispatch(Event::Search(String::from("fi")), false),
        Step::Request(BackendRequest::Search(String::from("fi")))
    );
    assert_eq!(dispatch(Event::Activate(4), true), Step::Request(BackendRequest::Activate(4)));
    assert_eq!(
        dispatch(Event::Response(Response::Update(vec![result(1), result(2)])), false),
        Step::ReplaceResults(vec![result(1), result(2)])
    );
    assert_eq!(dispatch(Event::Response(Response::Close), false), Step::Ignore);
    assert_eq!(dispatch(Event::Response(Response::Fill(String::from("x"))), true), Step::Ignore);
    assert_eq!(
        dispatch(Event::Response(Response::Context { id: 1, options: Vec::new() }), true),
        Step::Ignore
    );
}

#[test]
fn desktop_entries_are_launched_from_where_they_are_seen() {
    let entry = |path: &str| {
        Event::Response(Response::DesktopEntry {
            path: String::from(path),
            gpu_preference: GpuPreference::Default,
            action_name: None,
        })
    };
    assert_eq!(
        dispatch(entry("/usr/share/applications/a.desktop"), false),
        Step::Launch(String::from("/usr/share/applications/a.desktop"))
    );
    assert_eq!(
        dispatch(entry("/usr/share/applications/a.desktop"), true),
        Step::Launch(String::from("/var/run/host/usr/share/applications/a.desktop"))
    );
    assert_eq!(
        dispatch(entry("/home/u/a.desktop"), true),
        Step::Launch(String::from("/home/u/a.desktop"))
    );
}

#[test]
fn launchable_entries_have_a_name_and_may_be_displayed() {
    let data = launchable(
        String::from("/usr/share/applications/org.mozilla.firefox.desktop"),
        String::from("Firefox"),
        false,
        Some(String::from("firefox")),
        String::from("Network;WebBrowser;"),
    )
    .expect("an entry with a name");
    assert_eq!(data.appid(), "org.mozilla.firefox");
    assert_eq!(data.path(), "/usr/share/applications/org.mozilla.firefox.desktop");
    assert_eq!(data.name(), "Firefox");
    assert_eq!(data.icon(), Some(String::from("firefox")));
    assert_eq!(data.categories(), "Network;WebBrowser;");
    assert_eq!(
        launchable(String::from("/a.desktop"), String::new(), false, None, String::new()),
        None
    );
    assert_eq!(
        launchable(String::from("/a.desktop"), String::from("A"), true, None, String::new()),
        None
    );
}

#[test]
fn new_desktop_entry_data_is_empty() {
    let data = DesktopEntryData::new();
    assert_eq!(data.appid(), "");
    assert_eq!(data.path(), "");
    assert_eq!(data.name(), "");
    assert_eq!(data.categories(), "");
    assert_eq!(data.icon(), None);
}

#[test]
fn applications_are_started_with_gtk_launch() {
    let mut data = DesktopEntryData::new();
    data.set_data(
        String::from("gedit"),
        String::from("/p"),
        String::from("Text Editor"),
        None,
        String::new(),
    );
    assert_eq!(
        data.launch(false, Some(String::from("wayland-1"))),
        LaunchCommand {
            program: String::from("gtk-launch"),
            args: strings(&["gedit"]),
            envs: vec![(String::from("WAYLAND_DISPLAY"), String::from("wayland-1"))],
        }
    );
    assert_eq!(
        data.launch(false, None),
        LaunchCommand {
            program: String::from("gtk-launch"),
            args: strings(&["gedit"]),
            envs: Vec::new(),
        }
    );
    assert_eq!(
        data.launch(true, Some(String::from("wayland-1"))),
        LaunchCommand {
            program: String::from("flatpak-spawn"),
            args: strings(&["--host", "gtk-launch", "gedit"]),
            envs: Vec::new(),
        }
    );
}

#[test]
fn rows_are_activated_when_they_hold_a_result() {
    let model = vec![
        BoxedSearchResult(Some(result(11))),
        BoxedSearchResult(None),
        BoxedSearchResult(Some(result(13))),
    ];
    assert_eq!(activate_result(&model, 0), Some(Event::Activate(11)));
    assert_eq!(activate_result(&model, 1), None);
    assert_eq!(activate_result(&model, 2), Some(Event::Activate(13)));
    assert_eq!(activate_result(&model, 3), None);
    assert_eq!(activate_result(&model, u32::MAX), None);
}

#[test]
fn first_nine_rows_have_shortcuts() {
    assert_eq!(shortcut(0), Some(1));
    assert_eq!(shortcut(8), Some(9));
    assert_eq!(shortcut(9), None);
    assert_eq!(shortcut(u32::MAX), None);
}

#[test]
fn window_reports_lead_to_steps() {
    let search = |text: &str| WindowStep::Send(Event::Search(String::from(text)));
    assert_eq!(on_signal(WindowSignal::Launch(1)), vec![WindowStep::ActivateResult(0)]);
    assert_eq!(on_signal(WindowSignal::Launch(9)), vec![WindowStep::ActivateResult(8)]);
    assert_eq!(on_signal(WindowSignal::Launch(0)), vec![]);
    assert_eq!(on_signal(WindowSignal::RowActivated(4)), vec![WindowStep::ActivateResult(4)]);
    assert_eq!(on_signal(WindowSignal::EntryActivated(2)), vec![WindowStep::ActivateResult(2)]);
    assert_eq!(on_signal(WindowSignal::EntryChanged(String::from("fi"))), vec![search("fi")]);
    assert_eq!(on_signal(WindowSignal::EntryRealized(String::from("x"))), vec![search("x")]);
    assert_eq!(on_signal(WindowSignal::ActiveChanged(true)), vec![search(""), WindowStep::Show]);
    let back = vec![WindowStep::Hide, search(""), WindowStep::Unselect, WindowStep::ClearEntry, WindowStep::Show];
    assert_eq!(reset(), back);
    assert_eq!(on_signal(WindowSignal::Quit), back);
    assert_eq!(on_signal(WindowSignal::ActiveChanged(false)), back);
}

#[test]
fn an_entry_whose_path_ends_in_no_file_name_has_the_empty_id() {
    for path in ["/", "", "..", "/usr/share/.."] {
        let data = launchable(String::from(path), String::from("A"), false, None, String::new())
            .expect("an entry with a name");
        assert_eq!(data.appid(), "");
        assert_eq!(data.path(), path);
    }
    let data = launchable(
        String::from("/usr/share/applications/a.b.desktop"),
        String::from("A"),
        false,
        None,
        String::new(),
    )
    .expect("an entry with a name");
    assert_eq!(data.appid(), "a.b");
    let data = launchable(String::from(".hidden"), String::from("A"), false, None, String::new())
        .expect("an entry with a name");
    assert_eq!(data.appid(), ".hidden");
}

#[test]
fn white_space_is_what_the_standard_library_takes_for_it() {
    let mut white = Vec::new();
    for code in 0..=0x10FFFFu32 {
        if let Some(c) = char::from_u32(code) {
            let text = c.to_string();
            let trimmed_away = trim(&text).is_empty();
            assert_eq!(trimmed_away, c.is_whitespace(), "U+{:04X}", code);
            if trimmed_away {
                white.push(code);
            }
        }
    }
    assert_eq!(
        white,
        vec![
            0x9, 0xA, 0xB, 0xC, 0xD, 0x20, 0x85, 0xA0, 0x1680, 0x2000, 0x2001, 0x2002, 0x2003,
            0x2004, 0x2005, 0x2006, 0x2007, 0x2008, 0x2009, 0x200A, 0x2028, 0x2029, 0x202F,
            0x205F, 0x3000,
        ]
    );
}
