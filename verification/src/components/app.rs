//! The launcher with a plain result list: its state, its reactions, and the
//! launching of an application from the command line of its desktop entry.

use crate::app::LayerEvent;
use crate::process::{token_envs, LaunchCommand, LaunchCommandView};
use crate::protocol::{Response, SearchResult};
use crate::subscriptions::launcher::{Event, Request, RequestView};
use crate::text::{contains_char, starts_with_char, text_of};
use vstd::prelude::*;
use vstd::string::StringExecFns;

verus! {

/// The arguments of the launcher program. It takes none.
#[derive(Debug, Clone, PartialEq, Eq)]
pub struct Args {}

/// The commands that a second invocation hands to the running launcher.
/// There are none.
#[derive(Debug, Clone, PartialEq, Eq)]
pub struct LauncherCommands;

impl Args {
    /// The command that the launcher was started with: never any.
    pub fn action(&self) -> (command: Option<&LauncherCommands>)
        ensures
            command is None,
    {
        None
    }
}

/// The words that a POSIX shell would split the line into, as far as the
/// line can be read: up to its end, or up to a word that leaves a quotation
/// or an escape unfinished.
pub uninterp spec fn shell_words(line: Seq<char>) -> Seq<Seq<char>>;

/// The words of a list as sequences of characters.
pub open spec fn texts(words: Seq<String>) -> Seq<Seq<char>> {
    words.map_values(|word: String| word@)
}

/// Splits a command line into words as a POSIX shell does.
///
/// Trusted: the words are those that the iterator `shlex::Shlex` yields for
/// the line before it ends. They depend on the line alone.
#[verifier::external_body]
fn split_words(line: &str) -> (words: Vec<String>)
    ensures
        texts(words@) == shell_words(line@),
{
    shlex::Shlex::new(line).collect()
}

/// Whether a word of a command line is a field code, such as `%u`, that
/// stands for what the application is asked to open.
pub open spec fn is_field_code(word: Seq<char>) -> bool {
    word.len() > 0 && word[0] == '%'
}

/// The command for the words of a command line. The first word is the
/// program; there is no command without it, nor when it holds a `=`, which
/// makes it the setting of a variable. The other words are the arguments,
/// but for the field codes, which are left out.
pub open spec fn command_of(words: Seq<Seq<char>>, token: Option<Seq<char>>) -> Option<
    LaunchCommandView,
> {
    if words.len() == 0 || words[0].contains('=') {
        None
    } else {
        Some(
            LaunchCommandView {
                program: words[0],
                args: words.skip(1).filter(|word: Seq<char>| !is_field_code(word)),
                envs: token_envs(token),
            },
        )
    }
}

/// Builds the command from the words of a command line and the activation
/// token, if there is one.
pub fn command_from_words(words: Vec<String>, token: Option<String>) -> (command: Option<
    LaunchCommand,
>)
    ensures
        command is Some == command_of(texts(words@), text_of(token)) is Some,
        command matches Some(command) ==> Some(command@) == command_of(
            texts(words@),
            text_of(token),
        ),
{
    let ghost all = texts(words@);
    if words.len() == 0 {
        return None;
    }
    if contains_char(words[0].as_str(), '=') {
        return None;
    }
    let mut program = String::new();
    let mut args: Vec<String> = Vec::new();
    let ghost keep = |word: Seq<char>| !is_field_code(word);
    let mut first = true;
    assert(all.skip(1).take(0).filter(keep) =~= Seq::<Seq<char>>::empty()) by {
        reveal(Seq::filter);
    }
    for word in it: words
        invariant
            texts(it.seq()) == all,
            all.len() > 0,
            first == (it.index() == 0),
            it.index() > 0 ==> program@ == all[0],
            keep == |word: Seq<char>| !is_field_code(word),
            texts(args@) == if it.index() == 0 {
                Seq::<Seq<char>>::empty()
            } else {
                all.skip(1).take(it.index() - 1).filter(keep)
            },
    {
        let ghost n = it.index() as int;
        if first {
            first = false;
            program = word;
            assert(all.skip(1).take(0).filter(keep) =~= Seq::<Seq<char>>::empty()) by {
                reveal(Seq::filter);
            }
        } else {
            proof {
                reveal(Seq::filter);
                let next = all.skip(1).take(n);
                assert(next.drop_last() == all.skip(1).take(n - 1));
            }
            if !starts_with_char(word.as_str(), '%') {
                args.push(word);
            }
        }
    }
    proof {
        assert(all.skip(1).take(all.len() - 1) == all.skip(1));
    }
    let mut envs: Vec<(String, String)> = Vec::new();
    match token {
        Some(token) => {
            envs.push((String::from_str("XDG_ACTIVATION_TOKEN"), token.clone()));
            envs.push((String::from_str("DESKTOP_STARTUP_ID"), token));
        },
        None => {},
    }
    let command = LaunchCommand { program, args, envs };
    assert(command@.envs =~= token_envs(text_of(token)));
    Some(command)
}

/// Builds the command that starts an application from the command line of
/// its desktop entry and the activation token, if there is one.
pub fn launch_command(line: &str, token: Option<String>) -> (command: Option<LaunchCommand>)
    ensures
        command is Some == command_of(shell_words(line@), text_of(token)) is Some,
        command matches Some(command) ==> Some(command@) == command_of(
            shell_words(line@),
            text_of(token),
        ),
{
    command_from_words(split_words(line), token)
}

/// The number of results that are shown at most.
pub const MAX_RESULTS: usize = 10;

/// A keyboard navigation message.
#[derive(Debug, Clone, Copy, PartialEq, Eq, Structural)]
pub enum NavMessage {
    FocusNext,
    FocusPrevious,
    Unfocus,
    /// Any message that the launcher does not react to.
    Other,
}

/// How the running launcher was activated from outside.
#[derive(Debug, Clone, Copy, PartialEq, Eq, Structural)]
pub enum DbusActivationDetails {
    Activate,
    /// Any other kind of activation.
    Other,
}

/// What the front end is told.
#[derive(Debug, Clone, PartialEq, Eq)]
pub enum Message {
    InputChanged(String),
    /// Activate the result at this place of the list.
    Activate(usize),
    Hide,
    LauncherEvent(Event),
    Layer(LayerEvent),
    KeyboardNav(NavMessage),
    /// The activation token, if any, and the command line of an application
    /// that is to be launched.
    ActivationToken(Option<String>, String),
}

/// What the embedding program has to bring about.
#[derive(Debug, Clone, PartialEq, Eq)]
pub enum Effect {
    /// Hand the request to the launcher subsystem.
    Request(Request),
    GetLayerSurface,
    DestroyLayerSurface,
    /// Give the keyboard focus to the input field.
    FocusInput,
    /// Move the keyboard focus to the next widget.
    FocusNext,
    /// Move the keyboard focus to the previous widget.
    FocusPrevious,
    /// Take the keyboard focus from all widgets.
    Unfocus,
    /// Read the desktop entry at the path and, if it names a command line,
    /// ask for an activation token and send `Message::ActivationToken`.
    LoadDesktopEntry(String),
    /// Start the program, detached from the launcher.
    Spawn(LaunchCommand),
}

/// An effect as a mathematical value.
pub enum EffectView {
    Request(RequestView),
    GetLayerSurface,
    DestroyLayerSurface,
    FocusInput,
    FocusNext,
    FocusPrevious,
    Unfocus,
    LoadDesktopEntry(Seq<char>),
    Spawn(LaunchCommandView),
}

impl View for Effect {
    type V = EffectView;

    open spec fn view(&self) -> EffectView {
        match *self {
            Effect::Request(request) => EffectView::Request(request@),
            Effect::GetLayerSurface => EffectView::GetLayerSurface,
            Effect::DestroyLayerSurface => EffectView::DestroyLayerSurface,
            Effect::FocusInput => EffectView::FocusInput,
            Effect::FocusNext => EffectView::FocusNext,
            Effect::FocusPrevious => EffectView::FocusPrevious,
            Effect::Unfocus => EffectView::Unfocus,
            Effect::LoadDesktopEntry(path) => EffectView::LoadDesktopEntry(path@),
            Effect::Spawn(command) => EffectView::Spawn(command@),
        }
    }
}

/// The effects of a list as mathematical values.
pub open spec fn views(effects: Seq<Effect>) -> Seq<EffectView> {
    effects.map_values(|effect: Effect| effect@)
}

/// The state of the front end as a mathematical value.
pub struct LauncherView {
    /// The text of the input field.
    pub input: Seq<char>,
    /// Whether the launcher surface is, or is about to be, on screen.
    pub active_surface: bool,
    /// The result list, as shown.
    pub items: Seq<SearchResult>,
    /// Whether the launcher subsystem has announced itself.
    pub connected: bool,
    /// Whether the surface is to be opened when the next result list comes.
    pub wait_for_result: bool,
}

impl LauncherView {
    /// The state right after start.
    pub open spec fn init() -> LauncherView {
        LauncherView {
            input: Seq::empty(),
            active_surface: false,
            items: Seq::empty(),
            connected: false,
            wait_for_result: false,
        }
    }

    /// The requests reach the launcher subsystem once it has announced
    /// itself; before that they are dropped.
    pub open spec fn request(self, requests: Seq<RequestView>) -> Seq<EffectView> {
        if self.connected {
            requests.map_values(|request: RequestView| EffectView::Request(request))
        } else {
            Seq::empty()
        }
    }

    /// Hiding the launcher: the input is cleared, the session is closed and
    /// a search for nothing asked for, so that a new session is ready when
    /// the launcher is opened again; a surface that is active is taken down.
    pub open spec fn hidden(self) -> (LauncherView, Seq<EffectView>) {
        (
            LauncherView { input: Seq::empty(), active_surface: false, ..self },
            self.request(seq![RequestView::Close, RequestView::Search(Seq::empty())])
                + if self.active_surface {
                seq![EffectView::DestroyLayerSurface]
            } else {
                Seq::empty()
            },
        )
    }

    /// The list that is shown for a result list of the search service: open
    /// windows first, and no more than ten results.
    pub open spec fn listed(list: Seq<SearchResult>) -> Seq<SearchResult> {
        let sorted = crate::app::windows_first(list);
        if sorted.len() > MAX_RESULTS {
            sorted.take(MAX_RESULTS as int)
        } else {
            sorted
        }
    }

    /// The reaction to an answer of the search service.
    pub open spec fn respond(self, response: Response) -> (LauncherView, Seq<EffectView>) {
        match response {
            Response::Close => self.hidden(),
            Response::Context { .. } => (self, Seq::empty()),
            Response::DesktopEntry { path, .. } => (
                self,
                seq![EffectView::LoadDesktopEntry(path@)],
            ),
            Response::Update(list) => (
                LauncherView { items: Self::listed(list@), wait_for_result: false, ..self },
                if self.wait_for_result {
                    seq![EffectView::GetLayerSurface]
                } else {
                    Seq::empty()
                },
            ),
            Response::Fill(text) => (
                LauncherView { input: text@, ..self },
                seq![EffectView::FocusInput],
            ),
        }
    }

    /// The reaction to a message, given the words that a shell splits the
    /// command line of `Message::ActivationToken` into.
    pub open spec fn update(self, message: Message, words: Seq<Seq<char>>) -> (
        LauncherView,
        Seq<EffectView>,
    ) {
        match message {
            Message::InputChanged(value) => (
                LauncherView { input: value@, ..self },
                self.request(seq![RequestView::Search(value@)]),
            ),
            Message::Activate(place) => (
                self,
                if place < self.items.len() {
                    self.request(seq![RequestView::Activate(self.items[place as int].id)])
                } else {
                    Seq::empty()
                },
            ),
            Message::Hide => self.hidden(),
            Message::LauncherEvent(event) => match event {
                Event::Started => (
                    LauncherView { connected: true, ..self },
                    seq![EffectView::Request(RequestView::Search(Seq::empty()))],
                ),
                Event::ServiceClosed => (self, Seq::empty()),
                Event::Response(response) => self.respond(response),
            },
            Message::Layer(event) => match event {
                LayerEvent::Focused => (self, seq![EffectView::FocusInput]),
                LayerEvent::Unfocused => self.hidden(),
                LayerEvent::Done => (self, Seq::empty()),
            },
            Message::KeyboardNav(message) => match message {
                NavMessage::FocusNext => (self, seq![EffectView::FocusNext]),
                NavMessage::FocusPrevious => (self, seq![EffectView::FocusPrevious]),
                NavMessage::Unfocus => (
                    LauncherView { input: Seq::empty(), ..self },
                    self.request(seq![RequestView::Search(Seq::empty())]) + seq![
                        EffectView::Unfocus,
                    ],
                ),
                NavMessage::Other => (self, Seq::empty()),
            },
            Message::ActivationToken(token, _) => match command_of(
                words,
                text_of(token),
            ) {
                Some(command) => (
                    self.hidden().0,
                    seq![EffectView::Spawn(command)] + self.hidden().1,
                ),
                None => (self, Seq::empty()),
            },
        }
    }

    /// The reaction to an activation from outside: it toggles the launcher.
    /// To open, a search for nothing is asked for, and the surface waits for
    /// its answer.
    pub open spec fn dbus_activation(self, details: DbusActivationDetails) -> (
        LauncherView,
        Seq<EffectView>,
    ) {
        match details {
            DbusActivationDetails::Activate => if self.active_surface {
                self.hidden()
            } else {
                (
                    LauncherView {
                        input: Seq::empty(),
                        active_surface: true,
                        wait_for_result: true,
                        ..self
                    },
                    self.request(seq![RequestView::Search(Seq::empty())]),
                )
            },
            DbusActivationDetails::Other => (self, Seq::empty()),
        }
    }
}

/// The front end of the launcher with a plain result list.
pub struct CosmicLauncher {
    input_value: String,
    active_surface: bool,
    launcher_items: Vec<SearchResult>,
    connected: bool,
    wait_for_result: bool,
}

fn emit(effects: &mut Vec<Effect>, effect: Effect)
    ensures
        views(final(effects)@) == views(old(effects)@).push(effect@),
{
    effects.push(effect);
}

impl CosmicLauncher {
    /// The state as a mathematical value.
    pub closed spec fn view(&self) -> LauncherView {
        LauncherView {
            input: self.input_value@,
            active_surface: self.active_surface,
            items: self.launcher_items@,
            connected: self.connected,
            wait_for_result: self.wait_for_result,
        }
    }

    /// The front end right after start.
    pub fn init() -> (launcher: Self)
        ensures
            launcher@ == LauncherView::init(),
    {
        CosmicLauncher {
            input_value: String::new(),
            active_surface: false,
            launcher_items: Vec::new(),
            connected: false,
            wait_for_result: false,
        }
    }

    /// The text of the input field.
    pub fn input_value(&self) -> (text: &String)
        ensures
            text@ == self@.input,
    {
        &self.input_value
    }

    /// Whether the launcher surface is, or is about to be, on screen.
    pub fn active_surface(&self) -> (active: bool)
        ensures
            active == self@.active_surface,
    {
        self.active_surface
    }

    /// The result list, as shown.
    pub fn launcher_items(&self) -> (items: &Vec<SearchResult>)
        ensures
            items@ == self@.items,
    {
        &self.launcher_items
    }

    fn request(&self, request: Request, effects: &mut Vec<Effect>)
        ensures
            views(final(effects)@) == views(old(effects)@) + self@.request(seq![request@]),
    {
        if self.connected {
            emit(effects, Effect::Request(request));
        }
    }

    fn hide_surface(&mut self, effects: &mut Vec<Effect>)
        ensures
            final(self)@ == old(self)@.hidden().0,
            views(final(effects)@) == views(old(effects)@) + old(self)@.hidden().1,
    {
        self.input_value = String::new();
        self.request(Request::Close, effects);
        self.request(Request::Search(String::new()), effects);
        if self.active_surface {
            self.active_surface = false;
            emit(effects, Effect::DestroyLayerSurface);
        }
    }

    fn respond(&mut self, response: Response, effects: &mut Vec<Effect>)
        ensures
            final(self)@ == old(self)@.respond(response).0,
            views(final(effects)@) == views(old(effects)@) + old(self)@.respond(response).1,
    {
        match response {
            Response::Close => self.hide_surface(effects),
            Response::Context { .. } => {},
            Response::DesktopEntry { path, gpu_preference, action_name } => {
                emit(effects, Effect::LoadDesktopEntry(path));
            },
            Response::Update(list) => {
                let mut sorted = crate::app::sort_windows_first(list);
                sorted.truncate(MAX_RESULTS);
                assert(sorted@ =~= LauncherView::listed(list@));
                self.launcher_items = sorted;
                if self.wait_for_result {
                    self.wait_for_result = false;
                    emit(effects, Effect::GetLayerSurface);
                }
            },
            Response::Fill(text) => {
                self.input_value = text;
                emit(effects, Effect::FocusInput);
            },
        }
    }

    /// Reacts to a message for which the words of the command line, should
    /// it carry one, are given. Returns what is to be done, in order.
    pub fn update_with_words(&mut self, message: Message, words: Vec<String>) -> (effects: Vec<
        Effect,
    >)
        ensures
            final(self)@ == old(self)@.update(message, texts(words@)).0,
            views(effects@) == old(self)@.update(message, texts(words@)).1,
    {
        let mut effects: Vec<Effect> = Vec::new();
        match message {
            Message::InputChanged(value) => {
                self.input_value = value.clone();
                self.request(Request::Search(value), &mut effects);
            },
            Message::Activate(place) => {
                if place < self.launcher_items.len() {
                    let id = self.launcher_items[place].id;
                    self.request(Request::Activate(id), &mut effects);
                }
            },
            Message::Hide => self.hide_surface(&mut effects),
            Message::LauncherEvent(event) => match event {
                Event::Started => {
                    self.connected = true;
                    emit(&mut effects, Effect::Request(Request::Search(String::new())));
                },
                Event::ServiceClosed => {},
                Event::Response(response) => self.respond(response, &mut effects),
            },
            Message::Layer(event) => match event {
                LayerEvent::Focused => emit(&mut effects, Effect::FocusInput),
                LayerEvent::Unfocused => self.hide_surface(&mut effects),
                LayerEvent::Done => {},
            },
            Message::KeyboardNav(message) => match message {
                NavMessage::FocusNext => emit(&mut effects, Effect::FocusNext),
                NavMessage::FocusPrevious => emit(&mut effects, Effect::FocusPrevious),
                NavMessage::Unfocus => {
                    self.input_value = String::new();
                    self.request(Request::Search(String::new()), &mut effects);
                    emit(&mut effects, Effect::Unfocus);
                },
                NavMessage::Other => {},
            },
            Message::ActivationToken(token, _) => {
                match command_from_words(words, token) {
                    Some(command) => {
                        emit(&mut effects, Effect::Spawn(command));
                        self.hide_surface(&mut effects);
                    },
                    None => {},
                }
            },
        }
        effects
    }

    /// Reacts to a message. Returns what is to be done, in order.
    pub fn update(&mut self, message: Message) -> (effects: Vec<Effect>)
        ensures
            match message {
                Message::ActivationToken(_, line) => {
                    &&& final(self)@ == old(self)@.update(message, shell_words(line@)).0
                    &&& views(effects@) == old(self)@.update(message, shell_words(line@)).1
                },
                _ => {
                    &&& final(self)@ == old(self)@.update(message, Seq::empty()).0
                    &&& views(effects@) == old(self)@.update(message, Seq::empty()).1
                },
            },
    {
        let words = match &message {
            Message::ActivationToken(_, line) => split_words(line.as_str()),
            _ => Vec::new(),
        };
        self.update_with_words(message, words)
    }

    /// Reacts to an activation from outside.
    pub fn dbus_activation(&mut self, details: DbusActivationDetails) -> (effects: Vec<Effect>)
        ensures
            final(self)@ == old(self)@.dbus_activation(details).0,
            views(effects@) == old(self)@.dbus_activation(details).1,
    {
        let mut effects: Vec<Effect> = Vec::new();
        match details {
            DbusActivationDetails::Activate => {
                if self.active_surface {
                    self.hide_surface(&mut effects);
                } else {
                    self.request(Request::Search(String::new()), &mut effects);
                    self.input_value = String::new();
                    self.active_surface = true;
                    self.wait_for_result = true;
                }
            },
            DbusActivationDetails::Other => {},
        }
        effects
    }
}

/// The keys that the launcher reacts to.
#[derive(Debug, Clone, Copy, PartialEq, Eq, Structural)]
pub enum KeyCode {
    Key0,
    Key1,
    Key2,
    Key3,
    Key4,
    Key5,
    Key6,
    Key7,
    Key8,
    Key9,
    Numpad0,
    Numpad1,
    Numpad2,
    Numpad3,
    Numpad4,
    Numpad5,
    Numpad6,
    Numpad7,
    Numpad8,
    Numpad9,
    Up,
    Down,
    P,
    K,
    N,
    J,
    Escape,
    /// Any other key.
    Other,
}

/// The place in the list that a digit key stands for when it is released
/// with the control key held, be it in the row of digits or on the number
/// pad: one to nine for the first nine places, zero for the tenth.
pub open spec fn place_of_key(key_code: KeyCode) -> Option<usize> {
    match key_code {
        KeyCode::Key1 | KeyCode::Numpad1 => Some(0),
        KeyCode::Key2 | KeyCode::Numpad2 => Some(1),
        KeyCode::Key3 | KeyCode::Numpad3 => Some(2),
        KeyCode::Key4 | KeyCode::Numpad4 => Some(3),
        KeyCode::Key5 | KeyCode::Numpad5 => Some(4),
        KeyCode::Key6 | KeyCode::Numpad6 => Some(5),
        KeyCode::Key7 | KeyCode::Numpad7 => Some(6),
        KeyCode::Key8 | KeyCode::Numpad8 => Some(7),
        KeyCode::Key9 | KeyCode::Numpad9 => Some(8),
        KeyCode::Key0 | KeyCode::Numpad0 => Some(9),
        _ => None,
    }
}

/// The message that the release of a key stands for, if any.
pub open spec fn message_of_key(key_code: KeyCode, control: bool) -> Option<Message> {
    match key_code {
        KeyCode::Up => Some(Message::KeyboardNav(NavMessage::FocusPrevious)),
        KeyCode::Down => Some(Message::KeyboardNav(NavMessage::FocusNext)),
        KeyCode::Escape => Some(Message::Hide),
        KeyCode::P | KeyCode::K => if control {
            Some(Message::KeyboardNav(NavMessage::FocusPrevious))
        } else {
            None
        },
        KeyCode::N | KeyCode::J => if control {
            Some(Message::KeyboardNav(NavMessage::FocusNext))
        } else {
            None
        },
        _ => match place_of_key(key_code) {
            Some(place) => if control {
                Some(Message::Activate(place))
            } else {
                None
            },
            None => None,
        },
    }
}

/// Gives the message that the release of a key stands for.
pub fn key_message(key_code: KeyCode, control: bool) -> (message: Option<Message>)
    ensures
        message == message_of_key(key_code, control),
{
    match key_code {
        KeyCode::Up => Some(Message::KeyboardNav(NavMessage::FocusPrevious)),
        KeyCode::Down => Some(Message::KeyboardNav(NavMessage::FocusNext)),
        KeyCode::Escape => Some(Message::Hide),
        _ => if !control {
            None
        } else {
            match key_code {
                KeyCode::Key1 | KeyCode::Numpad1 => Some(Message::Activate(0)),
                KeyCode::Key2 | KeyCode::Numpad2 => Some(Message::Activate(1)),
                KeyCode::Key3 | KeyCode::Numpad3 => Some(Message::Activate(2)),
                KeyCode::Key4 | KeyCode::Numpad4 => Some(Message::Activate(3)),
                KeyCode::Key5 | KeyCode::Numpad5 => Some(Message::Activate(4)),
                KeyCode::Key6 | KeyCode::Numpad6 => Some(Message::Activate(5)),
                KeyCode::Key7 | KeyCode::Numpad7 => Some(Message::Activate(6)),
                KeyCode::Key8 | KeyCode::Numpad8 => Some(Message::Activate(7)),
                KeyCode::Key9 | KeyCode::Numpad9 => Some(Message::Activate(8)),
                KeyCode::Key0 | KeyCode::Numpad0 => Some(Message::Activate(9)),
                KeyCode::P | KeyCode::K => Some(Message::KeyboardNav(NavMessage::FocusPrevious)),
                KeyCode::N | KeyCode::J => Some(Message::KeyboardNav(NavMessage::FocusNext)),
                _ => None,
            }
        },
    }
}

/// A line of text as it is shown when there is room for `limit` characters:
/// a line of more than `limit` bytes is cut after `limit` characters, and
/// `tail` is put behind what is left.
pub open spec fn shortened(line: &str, limit: usize, tail: Seq<char>) -> Seq<char> {
    if line.len() > limit {
        (if line@.len() > limit {
            line@.take(limit as int)
        } else {
            line@
        }) + tail
    } else {
        line@
    }
}

/// Shortens a line of text for display.
pub fn shorten(line: &str, limit: usize, tail: &str) -> (shown: String)
    ensures
        shown@ == shortened(line, limit, tail@),
{
    if line.len() > limit {
        let chars = line.unicode_len();
        let kept = if chars > limit {
            line.substring_char(0, limit)
        } else {
            line
        };
        String::from_str(kept).concat(tail)
    } else {
        String::from_str(line)
    }
}

/// The first line of a result, shortened to the room that it has.
pub fn title_line(line: &str) -> (shown: String)
    ensures
        shown@ == shortened(line, 45, "..."@),
{
    shorten(line, 45, "...")
}

/// The second line of a result, shortened to the room that it has.
pub fn subtitle_line(line: &str) -> (shown: String)
    ensures
        shown@ == shortened(line, 60, ""@),
{
    shorten(line, 60, "")
}

} // verus!
