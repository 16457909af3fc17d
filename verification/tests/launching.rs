use cosmic_launcher::components::app::{
    command_from_words, launch_command, Args, LauncherCommands,
};
use cosmic_launcher::process::LaunchCommand;
use cosmic_launcher::subscriptions::toggle_dbus::{
    start_listening, LauncherDbusEvent, Occurrence, Pending, State,
};

fn strings(words: &[&str]) -> Vec<String> {
    words.iter().map(|w| String::from(*w)).collect()
}

#[test]
fn old_args_have_no_action() {
    assert_eq!(Args {}.action(), None::<&LauncherCommands>);
}

#[test]
fn command_line_is_split_like_a_shell_does() {
    assert_eq!(
        launch_command("env-tool --name 'My App' \"a b\" c\\ d", None),
        Some(LaunchCommand {
            program: String::from("env-tool"),
            args: strings(&["--name", "My App", "a b", "c d"]),
            envs: Vec::new(),
        })
    );
}

#[test]
fn field_codes_are_left_out() {
    assert_eq!(
        launch_command("firefox %u --new-window %F x%y", None),
        Some(LaunchCommand {
            program: String::from("firefox"),
            args: strings(&["--new-window", "x%y"]),
            envs: Vec::new(),
        })
    );
}

#[test]
fn token_is_handed_over_in_two_variables() {
    assert_eq!(
        launch_command("gedit", Some(String::from("tok-1"))),
        Some(LaunchCommand {
            program: String::from("gedit"),
            args: Vec::new(),
            envs: vec![
                (String::from("XDG_ACTIVATION_TOKEN"), String::from("tok-1")),
                (String::from("DESKTOP_STARTUP_ID"), String::from("tok-1")),
            ],
        })
    );
}

#[test]
fn no_command_without_a_program() {
    assert_eq!(launch_command("", None), None);
    assert_eq!(launch_command("   ", Some(String::from("t"))), None);
    assert_eq!(launch_command("# only a comment", None), None);
}

#[test]
fn no_command_when_the_line_sets_a_variable_first() {
    assert_eq!(launch_command("FOO=bar app", None), None);
    assert_eq!(launch_command("app FOO=bar", None).map(|c| c.args), Some(strings(&["FOO=bar"])));
}

#[test]
fn a_program_that_is_a_field_code_is_kept() {
    assert_eq!(launch_command("%c x", None).map(|c| c.program), Some(String::from("%c")));
}

#[test]
fn words_after_an_unfinished_quotation_are_lost() {
    assert_eq!(
        launch_command("app one 'two three", None),
        Some(LaunchCommand {
            program: String::from("app"),
            args: strings(&["one"]),
            envs: Vec::new(),
        })
    );
    assert_eq!(launch_command("'app", None), None);
}

#[test]
fn command_from_words_takes_the_words_as_they_are() {
    assert_eq!(
        command_from_words(strings(&["a b", "%", "", "c=d"]), None),
        Some(LaunchCommand {
            program: String::from("a b"),
            args: strings(&["", "c=d"]),
            envs: Vec::new(),
        })
    );
    assert_eq!(command_from_words(Vec::new(), None), None);
    assert_eq!(command_from_words(strings(&["a=b"]), None), None);
}

#[test]
fn listener_connects_then_waits() {
    let state: State<u8> = State::Ready;
    assert_eq!(state.pending(), Pending::Connect);
    let (out, state) = start_listening(0u32, state, Occurrence::Connected(Some(7)));
    assert_eq!(out, None);
    assert_eq!(state, State::Waiting(7));
    assert_eq!(state.pending(), Pending::Receive);
}

#[test]
fn listener_finishes_when_it_cannot_connect() {
    let (out, state) = start_listening(0u32, State::<u8>::Ready, Occurrence::Connected(None));
    assert_eq!(out, None);
    assert_eq!(state, State::Finished);
    assert_eq!(state.pending(), Pending::Forever);
}

#[test]
fn listener_hands_toggles_on() {
    let (out, state) = start_listening(
        3u32,
        State::Waiting(7u8),
        Occurrence::Received(Some(LauncherDbusEvent::Toggle)),
    );
    assert_eq!(out, Some((3, LauncherDbusEvent::Toggle)));
    assert_eq!(state, State::Waiting(7));
}

#[test]
fn listener_finishes_when_the_calls_end() {
    let (out, state) = start_listening(3u32, State::Waiting(7u8), Occurrence::Received(None));
    assert_eq!(out, None);
    assert_eq!(state, State::Finished);
}

#[test]
fn finished_listener_stays_finished() {
    let (out, state) = start_listening(
        3u32,
        State::<u8>::Finished,
        Occurrence::Received(Some(LauncherDbusEvent::Toggle)),
    );
    assert_eq!(out, None);
    assert_eq!(state, State::Finished);
    let (out, state) = start_listening(3u32, state, Occurrence::Connected(Some(1)));
    assert_eq!(out, None);
    assert_eq!(state, State::Finished);
}

#[test]
fn news_that_does_not_fit_the_state_changes_nothing() {
    let (out, state) = start_listening(
        3u32,
        State::<u8>::Ready,
        Occurrence::Received(Some(LauncherDbusEvent::Toggle)),
    );
    assert_eq!(out, None);
    assert_eq!(state, State::Ready);
    let (out, state) = start_listening(3u32, State::Waiting(1u8), Occurrence::Connected(Some(2)));
    assert_eq!(out, None);
    assert_eq!(state, State::Waiting(1));
}
