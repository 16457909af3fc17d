//! The front end as a state machine: what the launcher window remembers, and
//! how it reacts to what the user and the search service do.
//!
//! [`CosmicLauncher::update`] takes one message and answers with the effects
//! that the embedding program has to bring about: requests to the launcher
//! subsystem, surfaces to open and close, applications to start. Messages
//! that carry sizes and rectangles of surfaces are not among those handled
//! here.

use crate::protocol::{ContextOption, GpuPreference, Response, SearchResult};
use crate::subscriptions::launcher::{Event, Request, RequestView};
use crate::text::text_of;
use std::collections::VecDeque;
use vstd::prelude::*;
use vstd::string::StringExecFns;

pub mod keys;
pub mod launch;
pub mod view;

verus! {

/// The number of result widgets that exist from the start.
pub const INITIAL_RESULT_IDS: usize = 10;

/// How long after the surface lost the focus an activation is taken for the
/// click that took the focus away, in milliseconds.
pub const REOPEN_DELAY_MILLIS: u128 = 100;

/// What the launcher was started to do.
#[derive(Debug, Clone, PartialEq, Eq)]
pub struct Args {
    pub subcommand: Option<LauncherTasks>,
}

/// The tasks that a second invocation hands to the running launcher.
#[derive(Debug, Clone, Copy, PartialEq, Eq, Structural)]
pub enum LauncherTasks {
    /// Toggle the launcher and switch to the view of open windows.
    AltTab,
    /// The same, walking backwards.
    ShiftAltTab,
}

/// Whether the launcher surface is on screen.
#[derive(Debug, Clone, Copy, PartialEq, Eq, Structural)]
pub enum SurfaceState {
    Visible,
    Hidden,
    /// To be shown as soon as the next result list has come.
    WaitingToBeShown,
}

/// What happened to the layer surface.
#[derive(Debug, Clone, Copy, PartialEq, Eq, Structural)]
pub enum LayerEvent {
    Focused,
    Unfocused,
    Done,
}

/// A keyboard navigation action.
#[derive(Debug, Clone, Copy, PartialEq, Eq, Structural)]
pub enum NavAction {
    FocusNext,
    FocusPrevious,
    Escape,
    /// Any action that the launcher does not react to.
    Other,
}

/// How the running launcher was activated from outside.
#[derive(Debug, Clone, Copy, PartialEq, Eq, Structural)]
pub enum Details {
    /// Plain activation: toggle the launcher.
    Activate,
    /// Activation with a task; `None` when the task could not be read.
    ActivateAction(Option<LauncherTasks>),
    /// A request to open files, which the launcher has no use for.
    Open,
}

/// What the front end is told.
#[derive(Debug, Clone, PartialEq, Eq)]
pub enum Message {
    /// The text of the input field was edited or pasted into.
    InputChanged(String),
    Backspace,
    TabPress,
    /// Complete the input from the result shown in the widget of this number.
    CompleteFocusedId(usize),
    /// Activate the result at this place of the list, or the focused one.
    Activate(Option<usize>),
    /// Open or close the context menu of the result at this place.
    Context(usize),
    /// The context item (second) of the result (first) was chosen.
    MenuButton(u32, u32),
    CloseContextMenu,
    /// The pointer moved to this position, rounded to whole pixels.
    CursorMoved(i32, i32),
    Hide,
    LauncherEvent(Event),
    Layer(LayerEvent),
    KeyboardNav(NavAction),
    /// The activation token (if any), application id, command line and
    /// graphics preference for an application that is to be launched.
    ActivationToken(Option<String>, String, String, GpuPreference),
    AltTab,
    ShiftAltTab,
    AltRelease,
}

/// What the embedding program has to bring about.
#[derive(Debug, Clone, PartialEq, Eq)]
pub enum Effect {
    /// Hand the request to the launcher subsystem.
    Request(Request),
    /// Tell the request loop that the search service has closed.
    ServiceClosed,
    /// Open the launcher surface.
    GetLayerSurface,
    /// Ask to be told of the layers that overlap the launcher surface.
    OverlapNotify,
    DestroyLayerSurface,
    /// Close the context menu.
    DestroyPopup,
    /// Open the context menu at this position.
    GetPopup { x: i32, y: i32 },
    /// Send `Message::CompleteFocusedId` with this number.
    CompleteFocusedId(usize),
    /// Read the desktop entry and, if it names a command line, ask for an
    /// activation token and send `Message::ActivationToken`.
    LoadDesktopEntry { path: String, gpu_preference: GpuPreference, action_name: Option<String> },
    /// Start the application, then send `Message::Hide`.
    Launch { token: Option<String>, app_id: String, command: String, gpu: GpuPreference },
    /// Scroll the list so that the focused one of `len` results is in sight.
    SnapTo { focused: usize, len: usize },
}

/// An effect as a mathematical value.
pub enum EffectView {
    Request(RequestView),
    ServiceClosed,
    GetLayerSurface,
    OverlapNotify,
    DestroyLayerSurface,
    DestroyPopup,
    GetPopup { x: i32, y: i32 },
    CompleteFocusedId(usize),
    LoadDesktopEntry {
        path: Seq<char>,
        gpu_preference: GpuPreference,
        action_name: Option<Seq<char>>,
    },
    Launch { token: Option<Seq<char>>, app_id: Seq<char>, command: Seq<char>, gpu: GpuPreference },
    SnapTo { focused: usize, len: usize },
}

impl View for Effect {
    type V = EffectView;

    open spec fn view(&self) -> EffectView {
        match *self {
            Effect::Request(request) => EffectView::Request(request@),
            Effect::ServiceClosed => EffectView::ServiceClosed,
            Effect::GetLayerSurface => EffectView::GetLayerSurface,
            Effect::OverlapNotify => EffectView::OverlapNotify,
            Effect::DestroyLayerSurface => EffectView::DestroyLayerSurface,
            Effect::DestroyPopup => EffectView::DestroyPopup,
            Effect::GetPopup { x, y } => EffectView::GetPopup { x, y },
            Effect::CompleteFocusedId(id) => EffectView::CompleteFocusedId(id),
            Effect::LoadDesktopEntry { path, gpu_preference, action_name } => {
                EffectView::LoadDesktopEntry {
                    path: path@,
                    gpu_preference,
                    action_name: text_of(action_name),
                }
            },
            Effect::Launch { token, app_id, command, gpu } => EffectView::Launch {
                token: text_of(token),
                app_id: app_id@,
                command: command@,
                gpu,
            },
            Effect::SnapTo { focused, len } => EffectView::SnapTo { focused, len },
        }
    }
}

/// The effects of a list as mathematical values.
pub open spec fn views(effects: Seq<Effect>) -> Seq<EffectView> {
    effects.map_values(|effect: Effect| effect@)
}

/// The results that stand for open windows, in the order of the list.
pub open spec fn windows_of(list: Seq<SearchResult>) -> Seq<SearchResult> {
    list.filter(|result: SearchResult| result.window is Some)
}

/// The results that do not stand for open windows, in the order of the list.
pub open spec fn others_of(list: Seq<SearchResult>) -> Seq<SearchResult> {
    list.filter(|result: SearchResult| result.window is None)
}

/// The list as it is shown: open windows first, and within both groups the
/// order in which the search service gave the results.
pub open spec fn windows_first(list: Seq<SearchResult>) -> Seq<SearchResult> {
    windows_of(list) + others_of(list)
}

/// The whole milliseconds from `since` to `now`, two readings of a clock that
/// counts nanoseconds and never goes back; zero should it seem to have.
pub open spec fn elapsed_millis(now: u128, since: u128) -> int {
    if now >= since {
        (now - since) / 1_000_000
    } else {
        0
    }
}

/// The state of the front end as a mathematical value.
pub struct LauncherView {
    /// The text of the input field.
    pub input: Seq<char>,
    pub surface: SurfaceState,
    /// The result list, as shown.
    pub items: Seq<SearchResult>,
    /// Whether the launcher subsystem has announced itself.
    pub connected: bool,
    /// The context menu that is open: the result it belongs to, and its entries.
    pub menu: Option<(u32, Seq<ContextOption>)>,
    /// The last known position of the pointer.
    pub cursor: Option<(i32, i32)>,
    /// The place of the focused result in the list.
    pub focused: usize,
    /// The clock reading when the surface last lost the focus.
    pub last_hide: u128,
    /// Whether the launcher shows the open windows to walk through.
    pub alt_tab: bool,
    /// The steps through the list that wait for the next result list.
    pub queue: Seq<LauncherTasks>,
    /// The number of result widgets that exist.
    pub result_ids: usize,
    /// Whether the overlaps known so far belong to an earlier showing.
    pub needs_clear: bool,
}

impl LauncherView {
    /// What holds of the state at all times: there are at least ten result
    /// widgets and no fewer than there are results, and the focus is on the
    /// place of one of them.
    pub open spec fn consistent(self) -> bool {
        &&& self.result_ids >= INITIAL_RESULT_IDS
        &&& self.items.len() <= self.result_ids
        &&& self.focused < self.result_ids
    }

    /// The state right after start.
    pub open spec fn init(now: u128) -> LauncherView {
        LauncherView {
            input: Seq::empty(),
            surface: SurfaceState::Hidden,
            items: Seq::empty(),
            connected: false,
            menu: None,
            cursor: None,
            focused: 0,
            last_hide: now,
            alt_tab: false,
            queue: Seq::empty(),
            result_ids: INITIAL_RESULT_IDS,
            needs_clear: false,
        }
    }

    /// A request reaches the launcher subsystem once it has announced itself;
    /// before that it is dropped.
    pub open spec fn request(self, request: RequestView) -> Seq<EffectView> {
        if self.connected {
            seq![EffectView::Request(request)]
        } else {
            Seq::empty()
        }
    }

    /// Hiding the launcher: input, focus and queue are reset, the session is
    /// closed, and a surface that is on screen is taken down with its menu.
    pub open spec fn hidden(self) -> (LauncherView, Seq<EffectView>) {
        (
            LauncherView {
                input: Seq::empty(),
                focused: 0,
                alt_tab: false,
                queue: Seq::empty(),
                surface: SurfaceState::Hidden,
                menu: if self.surface == SurfaceState::Visible {
                    None
                } else {
                    self.menu
                },
                ..self
            },
            self.request(RequestView::Close) + (if self.surface == SurfaceState::Visible {
                if self.menu is Some {
                    seq![EffectView::DestroyLayerSurface, EffectView::DestroyPopup]
                } else {
                    seq![EffectView::DestroyLayerSurface]
                }
            } else {
                Seq::empty()
            }),
        )
    }

    /// Showing the launcher.
    pub open spec fn shown(self) -> (LauncherView, Seq<EffectView>) {
        (
            LauncherView { surface: SurfaceState::Visible, needs_clear: true, ..self },
            seq![EffectView::GetLayerSurface, EffectView::OverlapNotify],
        )
    }

    /// The focus moves one result down and from the last to the first.
    pub open spec fn focus_next(self) -> LauncherView {
        if self.items.len() == 0 {
            self
        } else {
            LauncherView {
                focused: ((self.focused + 1) % (self.items.len() as int)) as usize,
                ..self
            }
        }
    }

    /// The focus moves one result up and from the first to the last.
    pub open spec fn focus_previous(self) -> LauncherView {
        if self.items.len() == 0 {
            self
        } else {
            LauncherView {
                focused: ((self.focused + self.items.len() - 1) % (self.items.len() as int))
                    as usize,
                ..self
            }
        }
    }

    /// The effect that brings the focused result into sight.
    pub open spec fn snap(self) -> EffectView {
        EffectView::SnapTo { focused: self.focused, len: self.items.len() as usize }
    }

    /// One step through the list, forwards or backwards.
    pub open spec fn walk(self, task: LauncherTasks) -> (LauncherView, Seq<EffectView>) {
        let next = match task {
            LauncherTasks::AltTab => self.focus_next(),
            LauncherTasks::ShiftAltTab => self.focus_previous(),
        };
        (next, seq![next.snap()])
    }

    /// The state after the steps `tasks`, taken in order.
    pub open spec fn walked(self, tasks: Seq<LauncherTasks>) -> LauncherView
        decreases tasks.len(),
    {
        if tasks.len() == 0 {
            self
        } else {
            self.walked(tasks.drop_last()).walk(tasks.last()).0
        }
    }

    /// The effects of the steps `tasks`, taken in order.
    pub open spec fn walked_effects(self, tasks: Seq<LauncherTasks>) -> Seq<EffectView>
        decreases tasks.len(),
    {
        if tasks.len() == 0 {
            Seq::empty()
        } else {
            self.walked_effects(tasks.drop_last()) + self.walked(tasks.drop_last()).walk(
                tasks.last(),
            ).1
        }
    }

    /// Activating the result at `index`, or the focused one: the result is
    /// activated if there is one at that place, else the launcher is hidden.
    pub open spec fn activate(self, index: Option<usize>) -> (LauncherView, Seq<EffectView>) {
        let place = match index {
            Some(place) => place,
            None => self.focused,
        };
        if place < self.items.len() {
            (self, self.request(RequestView::Activate(self.items[place as int].id)))
        } else {
            self.hidden()
        }
    }

    /// Closing the context menu, if it is open.
    pub open spec fn close_menu(self) -> (LauncherView, Seq<EffectView>) {
        if self.menu is Some {
            (LauncherView { menu: None, ..self }, seq![EffectView::DestroyPopup])
        } else {
            (self, Seq::empty())
        }
    }

    /// The reaction to a new result list.
    pub open spec fn updated(self, list: Seq<SearchResult>) -> (LauncherView, Seq<EffectView>) {
        if self.alt_tab && list.len() == 0 {
            self.hidden()
        } else {
            let listed = LauncherView {
                items: windows_first(list),
                result_ids: if self.result_ids < list.len() {
                    list.len() as usize
                } else {
                    self.result_ids
                },
                queue: Seq::empty(),
                ..self
            };
            let walked = listed.walked(self.queue);
            let effects = listed.walked_effects(self.queue);
            if self.surface == SurfaceState::WaitingToBeShown {
                (walked.shown().0, effects + walked.shown().1)
            } else {
                (walked, effects)
            }
        }
    }

    /// The reaction to an answer of the search service.
    pub open spec fn respond(self, response: Response) -> (LauncherView, Seq<EffectView>) {
        match response {
            Response::Close => self.hidden(),
            Response::Context { id, options } => {
                if options@.len() == 0 {
                    (self, Seq::empty())
                } else {
                    (
                        LauncherView { menu: Some((id, options@)), ..self },
                        match self.cursor {
                            Some((x, y)) => seq![EffectView::GetPopup { x, y }],
                            None => Seq::empty(),
                        },
                    )
                }
            },
            Response::DesktopEntry { path, gpu_preference, action_name } => (
                self,
                seq![
                    EffectView::LoadDesktopEntry {
                        path: path@,
                        gpu_preference,
                        action_name: text_of(action_name),
                    },
                ],
            ),
            Response::Update(list) => self.updated(list@),
            Response::Fill(text) => (
                LauncherView { input: text@, ..self },
                self.request(RequestView::Search(text@)),
            ),
        }
    }

    /// The reaction to an event of the launcher subsystem.
    pub open spec fn notice(self, event: Event) -> (LauncherView, Seq<EffectView>) {
        match event {
            Event::Started => (
                LauncherView { connected: true, ..self },
                seq![EffectView::Request(RequestView::Search(self.input))],
            ),
            Event::ServiceClosed => (
                self,
                if self.connected {
                    seq![EffectView::ServiceClosed]
                } else {
                    Seq::empty()
                },
            ),
            Event::Response(response) => self.respond(response),
        }
    }

    /// The place in the list of the result shown in the widget of number
    /// `id`: the number itself, and the first place for a number that no
    /// widget has.
    pub open spec fn place_of(self, id: usize) -> usize {
        if id < self.result_ids {
            id
        } else {
            0
        }
    }

    /// The reaction to a message, at clock reading `now`.
    pub open spec fn update(self, message: Message, now: u128) -> (LauncherView, Seq<EffectView>) {
        match message {
            Message::InputChanged(value) => (
                LauncherView { input: value@, ..self },
                self.request(RequestView::Search(value@)),
            ),
            Message::Backspace => {
                let input = if self.input.len() > 0 {
                    self.input.drop_last()
                } else {
                    self.input
                };
                (LauncherView { input, ..self }, self.request(RequestView::Search(input)))
            },
            Message::TabPress => if self.alt_tab {
                (self, Seq::empty())
            } else {
                (
                    LauncherView { focused: 0, ..self },
                    seq![EffectView::CompleteFocusedId(self.focused)],
                )
            },
            Message::CompleteFocusedId(id) => (
                self,
                if self.place_of(id) < self.items.len() {
                    self.request(RequestView::Complete(self.items[self.place_of(id) as int].id))
                } else {
                    Seq::empty()
                },
            ),
            Message::Activate(index) => self.activate(index),
            Message::Context(place) => if self.menu is Some {
                self.close_menu()
            } else {
                (
                    self,
                    if place < self.items.len() {
                        self.request(RequestView::Context(self.items[place as int].id))
                    } else {
                        Seq::empty()
                    },
                )
            },
            Message::MenuButton(id, context) => (
                self.close_menu().0,
                self.request(RequestView::ActivateContext(id, context)) + self.close_menu().1,
            ),
            Message::CloseContextMenu => self.close_menu(),
            Message::CursorMoved(x, y) => (
                LauncherView { cursor: Some((x, y)), ..self },
                Seq::empty(),
            ),
            Message::Hide => if self.menu is Some {
                self.close_menu()
            } else {
                self.hidden()
            },
            Message::LauncherEvent(event) => self.notice(event),
            Message::Layer(event) => match event {
                LayerEvent::Unfocused => LauncherView { last_hide: now, ..self }.hidden(),
                _ => (self, Seq::empty()),
            },
            Message::KeyboardNav(action) => match action {
                NavAction::FocusNext => self.walk(LauncherTasks::AltTab),
                NavAction::FocusPrevious => self.walk(LauncherTasks::ShiftAltTab),
                NavAction::Escape => (
                    LauncherView { input: Seq::empty(), ..self },
                    self.request(RequestView::Search(Seq::empty())),
                ),
                NavAction::Other => (self, Seq::empty()),
            },
            Message::ActivationToken(token, app_id, command, gpu) => (
                self,
                seq![
                    EffectView::Launch {
                        token: text_of(token),
                        app_id: app_id@,
                        command: command@,
                        gpu,
                    },
                ],
            ),
            Message::AltTab => self.walk(LauncherTasks::AltTab),
            Message::ShiftAltTab => self.walk(LauncherTasks::ShiftAltTab),
            Message::AltRelease => if self.alt_tab {
                self.activate(None)
            } else {
                (self, Seq::empty())
            },
        }
    }

    /// The reaction to an activation from outside, at clock reading `now`.
    pub open spec fn dbus_activation(self, details: Details, now: u128) -> (
        LauncherView,
        Seq<EffectView>,
    ) {
        match details {
            Details::Activate => if self.surface != SurfaceState::Hidden {
                self.hidden()
            } else if elapsed_millis(now, self.last_hide) > REOPEN_DELAY_MILLIS {
                (
                    LauncherView { surface: SurfaceState::WaitingToBeShown, ..self },
                    self.request(RequestView::Search(Seq::empty())),
                )
            } else {
                (self, Seq::empty())
            },
            Details::ActivateAction(None) => (self, Seq::empty()),
            Details::ActivateAction(Some(task)) => {
                let waking = LauncherView {
                    surface: if self.surface == SurfaceState::Hidden {
                        SurfaceState::WaitingToBeShown
                    } else {
                        self.surface
                    },
                    ..self
                };
                if self.alt_tab {
                    waking.walk(task)
                } else {
                    (
                        LauncherView { alt_tab: true, queue: self.queue.push(task), ..waking },
                        self.request(RequestView::Search(Seq::empty())),
                    )
                }
            },
            Details::Open => (self, Seq::empty()),
        }
    }
}

/// The front end of the launcher.
pub struct CosmicLauncher {
    input_value: String,
    surface_state: SurfaceState,
    launcher_items: Vec<SearchResult>,
    connected: bool,
    menu: Option<(u32, Vec<ContextOption>)>,
    cursor_position: Option<(i32, i32)>,
    focused: usize,
    last_hide: u128,
    alt_tab: bool,
    queue: VecDeque<LauncherTasks>,
    result_ids: usize,
    needs_clear: bool,
}

fn emit(effects: &mut Vec<Effect>, effect: Effect)
    ensures
        views(final(effects)@) == views(old(effects)@).push(effect@),
{
    effects.push(effect);
}

/// Puts the results that stand for open windows first and keeps the order
/// of the list otherwise.
pub fn sort_windows_first(list: Vec<SearchResult>) -> (sorted: Vec<SearchResult>)
    ensures
        sorted@ == windows_first(list@),
        sorted@.len() == list@.len(),
{
    let mut windows: Vec<SearchResult> = Vec::new();
    let mut others: Vec<SearchResult> = Vec::new();
    let ghost all = list@;
    for item in it: list
        invariant
            it.seq() == all,
            windows@ == windows_of(all.take(it.index() as int)),
            others@ == others_of(all.take(it.index() as int)),
            windows@.len() + others@.len() == it.index(),
    {
        proof {
            reveal(Seq::filter);
            let i = it.index() as int;
            let next = all.take(i + 1);
            assert(next.drop_last() == all.take(i));
        }
        if item.window.is_some() {
            windows.push(item);
        } else {
            others.push(item);
        }
    }
    proof {
        assert(all.take(all.len() as int) == all);
    }
    windows.append(&mut others);
    windows
}

impl Args {
    /// The task that the launcher was started with, if any.
    pub fn action(&self) -> (task: Option<&LauncherTasks>)
        ensures
            match task {
                Some(task) => self.subcommand == Some(*task),
                None => self.subcommand is None,
            },
    {
        self.subcommand.as_ref()
    }
}

impl CosmicLauncher {
    #[verifier::type_invariant]
    spec fn is_consistent(&self) -> bool {
        self.view().consistent()
    }

    /// The state as a mathematical value.
    pub closed spec fn view(&self) -> LauncherView {
        LauncherView {
            input: self.input_value@,
            surface: self.surface_state,
            items: self.launcher_items@,
            connected: self.connected,
            menu: match self.menu {
                Some((id, options)) => Some((id, options@)),
                None => None,
            },
            cursor: self.cursor_position,
            focused: self.focused,
            last_hide: self.last_hide,
            alt_tab: self.alt_tab,
            queue: self.queue@,
            result_ids: self.result_ids,
            needs_clear: self.needs_clear,
        }
    }

    /// The front end right after start, at clock reading `now`: hidden, with
    /// an empty input and no results, not yet connected to the subsystem.
    pub fn init(now: u128) -> (launcher: Self)
        ensures
            launcher@ == LauncherView::init(now),
            launcher@.consistent(),
    {
        CosmicLauncher {
            input_value: String::new(),
            surface_state: SurfaceState::Hidden,
            launcher_items: Vec::new(),
            connected: false,
            menu: None,
            cursor_position: None,
            focused: 0,
            last_hide: now,
            alt_tab: false,
            queue: VecDeque::new(),
            result_ids: INITIAL_RESULT_IDS,
            needs_clear: false,
        }
    }

    /// The text of the input field.
    pub fn input_value(&self) -> (text: &String)
        ensures
            text@ == self@.input,
    {
        &self.input_value
    }

    /// Whether the launcher surface is on screen.
    pub fn surface_state(&self) -> (state: SurfaceState)
        ensures
            state == self@.surface,
    {
        self.surface_state
    }

    /// The result list, as shown.
    pub fn launcher_items(&self) -> (items: &Vec<SearchResult>)
        ensures
            items@ == self@.items,
    {
        &self.launcher_items
    }

    /// The context menu that is open: the result it belongs to, and its
    /// entries.
    pub fn menu(&self) -> (menu: Option<&(u32, Vec<ContextOption>)>)
        ensures
            menu is Some == self@.menu is Some,
            menu matches Some(open) ==> self@.menu == Some((open.0, open.1@)),
    {
        self.menu.as_ref()
    }

    /// The place of the focused result in the list.
    pub fn focused(&self) -> (focused: usize)
        ensures
            focused == self@.focused,
    {
        self.focused
    }

    /// Whether the launcher shows the open windows to walk through.
    pub fn alt_tab(&self) -> (alt_tab: bool)
        ensures
            alt_tab == self@.alt_tab,
    {
        self.alt_tab
    }

    /// The number of result widgets that exist. It is never less than ten,
    /// nor than the number of results, and the focus is on one of them.
    pub fn result_ids(&self) -> (count: usize)
        ensures
            count == self@.result_ids,
            self@.consistent(),
    {
        proof {
            use_type_invariant(self);
        }
        self.result_ids
    }

    /// Says whether the overlaps known so far belong to an earlier showing of
    /// the surface and are to be forgotten, and takes note that they now are.
    pub fn take_needs_clear(&mut self) -> (stale: bool)
        ensures
            stale == old(self)@.needs_clear,
            final(self)@ == (LauncherView { needs_clear: false, ..old(self)@ }),
    {
        proof {
            use_type_invariant(&*self);
        }
        let stale = self.needs_clear;
        self.needs_clear = false;
        stale
    }

    fn request(&self, request: Request, effects: &mut Vec<Effect>)
        ensures
            views(final(effects)@) == views(old(effects)@) + self@.request(request@),
    {
        if self.connected {
            emit(effects, Effect::Request(request));
        }
    }

    fn show_surface(&mut self, effects: &mut Vec<Effect>)
        ensures
            final(self)@ == old(self)@.shown().0,
            views(final(effects)@) == views(old(effects)@) + old(self)@.shown().1,
    {
        proof {
            use_type_invariant(&*self);
        }
        self.surface_state = SurfaceState::Visible;
        self.needs_clear = true;
        emit(effects, Effect::GetLayerSurface);
        emit(effects, Effect::OverlapNotify);
    }

    fn hide_surface(&mut self, effects: &mut Vec<Effect>)
        ensures
            final(self)@ == old(self)@.hidden().0,
            views(final(effects)@) == views(old(effects)@) + old(self)@.hidden().1,
    {
        proof {
            use_type_invariant(&*self);
        }
        self.input_value = String::new();
        self.focused = 0;
        self.alt_tab = false;
        self.queue = VecDeque::new();
        self.request(Request::Close, effects);
        if self.surface_state == SurfaceState::Visible {
            emit(effects, Effect::DestroyLayerSurface);
            if self.menu.is_some() {
                self.menu = None;
                emit(effects, Effect::DestroyPopup);
            }
        }
        self.surface_state = SurfaceState::Hidden;
    }

    fn focus_next(&mut self)
        ensures
            final(self)@ == old(self)@.focus_next(),
    {
        proof {
            use_type_invariant(&*self);
        }
        let len = self.launcher_items.len();
        if len == 0 {
            return ;
        }
        self.focused = (self.focused + 1) % len;
    }

    fn focus_previous(&mut self)
        ensures
            final(self)@ == old(self)@.focus_previous(),
    {
        proof {
            use_type_invariant(&*self);
        }
        let len = self.launcher_items.len();
        if len == 0 {
            return ;
        }
        let place = self.focused % len;
        proof {
            let f = self.focused as int;
            let n = len as int;
            vstd::arithmetic::div_mod::lemma_fundamental_div_mod(f, n);
            vstd::arithmetic::div_mod::lemma_mod_multiples_vanish(f / n, f % n + n - 1, n);
            if place == 0 {
                vstd::arithmetic::div_mod::lemma_small_mod((n - 1) as nat, n as nat);
            } else {
                vstd::arithmetic::div_mod::lemma_mod_multiples_vanish(1, f % n - 1, n);
                vstd::arithmetic::div_mod::lemma_small_mod((f % n - 1) as nat, n as nat);
            }
        }
        self.focused = if place == 0 {
            len - 1
        } else {
            place - 1
        };
    }

    fn walk(&mut self, task: LauncherTasks, effects: &mut Vec<Effect>)
        ensures
            final(self)@ == old(self)@.walk(task).0,
            views(final(effects)@) == views(old(effects)@) + old(self)@.walk(task).1,
    {
        match task {
            LauncherTasks::AltTab => self.focus_next(),
            LauncherTasks::ShiftAltTab => self.focus_previous(),
        }
        emit(effects, Effect::SnapTo { focused: self.focused, len: self.launcher_items.len() });
    }

    fn activate(&mut self, index: Option<usize>, effects: &mut Vec<Effect>)
        ensures
            final(self)@ == old(self)@.activate(index).0,
            views(final(effects)@) == views(old(effects)@) + old(self)@.activate(index).1,
    {
        let place = match index {
            Some(place) => place,
            None => self.focused,
        };
        if place < self.launcher_items.len() {
            let id = self.launcher_items[place].id;
            self.request(Request::Activate(id), effects);
        } else {
            self.hide_surface(effects);
        }
    }

    fn close_menu(&mut self, effects: &mut Vec<Effect>) -> (closed: bool)
        ensures
            closed == old(self)@.menu is Some,
            final(self)@ == old(self)@.close_menu().0,
            views(final(effects)@) == views(old(effects)@) + old(self)@.close_menu().1,
    {
        proof {
            use_type_invariant(&*self);
        }
        if self.menu.is_some() {
            self.menu = None;
            emit(effects, Effect::DestroyPopup);
            true
        } else {
            false
        }
    }

    fn drain_queue(&mut self, effects: &mut Vec<Effect>)
        ensures
            final(self)@ == (LauncherView { queue: Seq::empty(), ..old(self)@ }).walked(
                old(self)@.queue,
            ),
            views(final(effects)@) == views(old(effects)@) + (LauncherView {
                queue: Seq::empty(),
                ..old(self)@
            }).walked_effects(old(self)@.queue),
    {
        proof {
            use_type_invariant(&*self);
        }
        let mut queue: VecDeque<LauncherTasks> = VecDeque::new();
        core::mem::swap(&mut self.queue, &mut queue);
        let ghost base = self@;
        let ghost tasks = queue@;
        let mut i: usize = 0;
        while i < queue.len()
            invariant
                i <= queue.len(),
                queue@ == tasks,
                self@ == base.walked(tasks.take(i as int)),
                views(effects@) == views(old(effects)@) + base.walked_effects(tasks.take(i as int)),
            decreases queue.len() - i,
        {
            let task = queue[i];
            proof {
                assert(tasks.take(i + 1).drop_last() == tasks.take(i as int));
            }
            self.walk(task, effects);
            i += 1;
        }
        proof {
            assert(tasks.take(tasks.len() as int) == tasks);
        }
    }

    fn updated(&mut self, list: Vec<SearchResult>, effects: &mut Vec<Effect>)
        ensures
            final(self)@ == old(self)@.updated(list@).0,
            views(final(effects)@) == views(old(effects)@) + old(self)@.updated(list@).1,
    {
        proof {
            use_type_invariant(&*self);
        }
        if self.alt_tab && list.len() == 0 {
            self.hide_surface(effects);
            return ;
        }
        let waiting = self.surface_state == SurfaceState::WaitingToBeShown;
        let sorted = sort_windows_first(list);
        if self.result_ids < sorted.len() {
            self.result_ids = sorted.len();
        }
        self.launcher_items = sorted;
        self.drain_queue(effects);
        if waiting {
            self.show_surface(effects);
        }
    }

    fn respond(&mut self, response: Response, effects: &mut Vec<Effect>)
        ensures
            final(self)@ == old(self)@.respond(response).0,
            views(final(effects)@) == views(old(effects)@) + old(self)@.respond(response).1,
    {
        proof {
            use_type_invariant(&*self);
        }
        match response {
            Response::Close => self.hide_surface(effects),
            Response::Context { id, options } => {
                if options.len() != 0 {
                    self.menu = Some((id, options));
                    match self.cursor_position {
                        Some((x, y)) => emit(effects, Effect::GetPopup { x, y }),
                        None => {},
                    }
                }
            },
            Response::DesktopEntry { path, gpu_preference, action_name } => {
                emit(effects, Effect::LoadDesktopEntry { path, gpu_preference, action_name });
            },
            Response::Update(list) => self.updated(list, effects),
            Response::Fill(text) => {
                self.input_value = text.clone();
                self.request(Request::Search(text), effects);
            },
        }
    }

    fn notice(&mut self, event: Event, effects: &mut Vec<Effect>)
        ensures
            final(self)@ == old(self)@.notice(event).0,
            views(final(effects)@) == views(old(effects)@) + old(self)@.notice(event).1,
    {
        proof {
            use_type_invariant(&*self);
        }
        match event {
            Event::Started => {
                self.connected = true;
                self.request(Request::Search(self.input_value.clone()), effects);
            },
            Event::ServiceClosed => {
                if self.connected {
                    emit(effects, Effect::ServiceClosed);
                }
            },
            Event::Response(response) => self.respond(response, effects),
        }
    }

    /// Reacts to a message, at the reading `now` of a clock that counts
    /// nanoseconds and never goes back. Returns what is to be done, in order.
    pub fn update(&mut self, message: Message, now: u128) -> (effects: Vec<Effect>)
        ensures
            final(self)@ == old(self)@.update(message, now).0,
            views(effects@) == old(self)@.update(message, now).1,
            final(self)@.consistent(),
    {
        proof {
            use_type_invariant(&*self);
        }
        let mut effects: Vec<Effect> = Vec::new();
        match message {
            Message::InputChanged(value) => {
                self.input_value = value.clone();
                self.request(Request::Search(value), &mut effects);
            },
            Message::Backspace => {
                let len = self.input_value.as_str().unicode_len();
                if len > 0 {
                    let kept = self.input_value.as_str().substring_char(0, len - 1);
                    assert(kept@ == self@.input.drop_last());
                    self.input_value = String::from_str(kept);
                }
                self.request(Request::Search(self.input_value.clone()), &mut effects);
            },
            Message::TabPress => {
                if !self.alt_tab {
                    let focused = self.focused;
                    self.focused = 0;
                    emit(&mut effects, Effect::CompleteFocusedId(focused));
                }
            },
            Message::CompleteFocusedId(id) => {
                let place = if id < self.result_ids {
                    id
                } else {
                    0
                };
                if place < self.launcher_items.len() {
                    let id = self.launcher_items[place].id;
                    self.request(Request::Complete(id), &mut effects);
                }
            },
            Message::Activate(index) => self.activate(index, &mut effects),
            Message::Context(place) => {
                if !self.close_menu(&mut effects) {
                    if place < self.launcher_items.len() {
                        let id = self.launcher_items[place].id;
                        self.request(Request::Context(id), &mut effects);
                    }
                }
            },
            Message::MenuButton(id, context) => {
                self.request(Request::ActivateContext(id, context), &mut effects);
                self.close_menu(&mut effects);
            },
            Message::CloseContextMenu => {
                self.close_menu(&mut effects);
            },
            Message::CursorMoved(x, y) => {
                self.cursor_position = Some((x, y));
            },
            Message::Hide => {
                if !self.close_menu(&mut effects) {
                    self.hide_surface(&mut effects);
                }
            },
            Message::LauncherEvent(event) => self.notice(event, &mut effects),
            Message::Layer(event) => match event {
                LayerEvent::Unfocused => {
                    self.last_hide = now;
                    self.hide_surface(&mut effects);
                },
                _ => {},
            },
            Message::KeyboardNav(action) => match action {
                NavAction::FocusNext => self.walk(LauncherTasks::AltTab, &mut effects),
                NavAction::FocusPrevious => self.walk(LauncherTasks::ShiftAltTab, &mut effects),
                NavAction::Escape => {
                    self.input_value = String::new();
                    self.request(Request::Search(String::new()), &mut effects);
                },
                NavAction::Other => {},
            },
            Message::ActivationToken(token, app_id, command, gpu) => {
                emit(&mut effects, Effect::Launch { token, app_id, command, gpu });
            },
            Message::AltTab => self.walk(LauncherTasks::AltTab, &mut effects),
            Message::ShiftAltTab => self.walk(LauncherTasks::ShiftAltTab, &mut effects),
            Message::AltRelease => {
                if self.alt_tab {
                    self.activate(None, &mut effects);
                }
            },
        }
        proof {
            use_type_invariant(&*self);
        }
        effects
    }

    /// Reacts to an activation from outside, at clock reading `now`.
    pub fn dbus_activation(&mut self, details: Details, now: u128) -> (effects: Vec<Effect>)
        ensures
            final(self)@ == old(self)@.dbus_activation(details, now).0,
            views(effects@) == old(self)@.dbus_activation(details, now).1,
            final(self)@.consistent(),
    {
        proof {
            use_type_invariant(&*self);
        }
        let mut effects: Vec<Effect> = Vec::new();
        match details {
            Details::Activate => {
                if self.surface_state != SurfaceState::Hidden {
                    self.hide_surface(&mut effects);
                } else {
                    let elapsed = if now >= self.last_hide {
                        (now - self.last_hide) / 1_000_000
                    } else {
                        0
                    };
                    if elapsed > REOPEN_DELAY_MILLIS {
                        self.request(Request::Search(String::new()), &mut effects);
                        self.surface_state = SurfaceState::WaitingToBeShown;
                    }
                }
            },
            Details::ActivateAction(None) => {},
            Details::ActivateAction(Some(task)) => {
                if self.surface_state == SurfaceState::Hidden {
                    self.surface_state = SurfaceState::WaitingToBeShown;
                }
                if self.alt_tab {
                    self.walk(task, &mut effects);
                } else {
                    self.alt_tab = true;
                    self.request(Request::Search(String::new()), &mut effects);
                    let mut queue: VecDeque<LauncherTasks> = VecDeque::new();
                    core::mem::swap(&mut self.queue, &mut queue);
                    queue.push_back(task);
                    self.queue = queue;
                }
            },
            Details::Open => {},
        }
        proof {
            use_type_invariant(&*self);
        }
        effects
    }
}

} // verus!
