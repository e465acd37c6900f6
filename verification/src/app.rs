//! The state of the interface and how each event changes it.
//!
//! The interface is a state machine: the surrounding program turns terminal
//! input and the replies of the command-line tool into [`AppEvent`]s, hands each
//! one to [`App::handle_event`], and carries out the [`Action`] that comes back.
use vstd::prelude::*;
use crate::library::{LibraryInfo, LibraryView, libraries_view};
use crate::text::{push_char, pop_char, decimal, decimal_string, join2, join3};

verus! {

/// What the keyboard currently drives: the list, the search box, or the help popup.
#[derive(Clone, Copy, PartialEq, Eq, Structural, Debug)]
pub enum AppMode {
    Normal,
    Search,
    Help,
}

/// A key, as far as the interface tells keys apart.
#[derive(Clone, Copy, PartialEq, Eq, Structural, Debug)]
pub enum Key {
    Char(char),
    Up,
    Down,
    Enter,
    Esc,
    Backspace,
    Other,
}

/// Something that happened: a key, a timer tick, or the reply to a command.
pub enum AppEvent {
    /// A key event; `press` is false for a release or a repeat.
    Key { code: Key, press: bool },
    /// Terminal input that is not a key (mouse, resize, focus, paste).
    OtherInput,
    Tick,
    LibrariesLoaded(Vec<LibraryInfo>),
    LibraryInstalled(String),
    LibraryUninstalled(String),
    CommandError(String),
}

/// The mathematical value of an [`AppEvent`].
pub enum EventView {
    Key { code: Key, press: bool },
    OtherInput,
    Tick,
    LibrariesLoaded(Seq<LibraryView>),
    LibraryInstalled(Seq<char>),
    LibraryUninstalled(Seq<char>),
    CommandError(Seq<char>),
}

impl View for AppEvent {
    type V = EventView;

    open spec fn view(&self) -> EventView {
        match self {
            AppEvent::Key { code, press } => EventView::Key { code: *code, press: *press },
            AppEvent::OtherInput => EventView::OtherInput,
            AppEvent::Tick => EventView::Tick,
            AppEvent::LibrariesLoaded(libs) => EventView::LibrariesLoaded(libraries_view(libs@)),
            AppEvent::LibraryInstalled(n) => EventView::LibraryInstalled(n@),
            AppEvent::LibraryUninstalled(n) => EventView::LibraryUninstalled(n@),
            AppEvent::CommandError(m) => EventView::CommandError(m@),
        }
    }
}

/// The outside work that an event calls for.
pub enum Action {
    Nothing,
    Quit,
    /// List the installed libraries.
    LoadInstalled,
    /// Search the registry for the query.
    Search(String),
    /// Install the named library.
    Install(String),
    /// Uninstall the named library.
    Uninstall(String),
}

/// The mathematical value of an [`Action`].
pub enum ActionView {
    Nothing,
    Quit,
    LoadInstalled,
    Search(Seq<char>),
    Install(Seq<char>),
    Uninstall(Seq<char>),
}

impl View for Action {
    type V = ActionView;

    open spec fn view(&self) -> ActionView {
        match self {
            Action::Nothing => ActionView::Nothing,
            Action::Quit => ActionView::Quit,
            Action::LoadInstalled => ActionView::LoadInstalled,
            Action::Search(q) => ActionView::Search(q@),
            Action::Install(n) => ActionView::Install(n@),
            Action::Uninstall(n) => ActionView::Uninstall(n@),
        }
    }
}

/// The state of the interface.
pub struct App {
    pub mode: AppMode,
    pub search_input: String,
    pub libraries: Vec<LibraryInfo>,
    /// The index of the highlighted library, if any.
    pub selected: Option<usize>,
    pub status_message: String,
    /// Whether a command is running.
    pub is_loading: bool,
}

/// The mathematical value of an [`App`].
pub struct AppView {
    pub mode: AppMode,
    pub search_input: Seq<char>,
    pub libraries: Seq<LibraryView>,
    pub selected: Option<usize>,
    pub status_message: Seq<char>,
    pub is_loading: bool,
}

impl View for App {
    type V = AppView;

    open spec fn view(&self) -> AppView {
        AppView {
            mode: self.mode,
            search_input: self.search_input@,
            libraries: libraries_view(self.libraries@),
            selected: self.selected,
            status_message: self.status_message@,
            is_loading: self.is_loading,
        }
    }
}

// ---------------------------------------------------------------------------
// The transition function
// ---------------------------------------------------------------------------

/// The status line shown when the interface starts.
pub open spec fn welcome_message() -> Seq<char> {
    "Press '?' for help, '/' to search, 'i' to install, 'u' to uninstall, 'q' to quit"@
}

/// The status line shown while the installed libraries are listed.
pub open spec fn loading_message() -> Seq<char> {
    "Loading installed libraries..."@
}

/// The state the interface starts in: nothing listed, nothing selected, and the
/// first listing under way.
pub open spec fn initial_state() -> AppView {
    AppView {
        mode: AppMode::Normal,
        search_input: Seq::empty(),
        libraries: Seq::empty(),
        selected: None,
        status_message: welcome_message(),
        is_loading: true,
    }
}

/// The highest index of a list of `len` items, or 0 for an empty list.
pub open spec fn last_index(len: nat) -> usize {
    if len == 0 {
        0
    } else {
        (len - 1) as usize
    }
}

/// The selection one step down, wrapping from the last item to the first.
pub open spec fn next_index(selected: Option<usize>, len: nat) -> usize {
    match selected {
        Some(i) => if i >= last_index(len) {
            0
        } else {
            (i + 1) as usize
        },
        None => 0,
    }
}

/// The selection one step up, wrapping from the first item to the last.
pub open spec fn previous_index(selected: Option<usize>, len: nat) -> usize {
    match selected {
        Some(i) => if i == 0 {
            last_index(len)
        } else {
            (i - 1) as usize
        },
        None => 0,
    }
}

pub open spec fn select_next(s: AppView) -> AppView {
    AppView { selected: Some(next_index(s.selected, s.libraries.len())), ..s }
}

pub open spec fn select_previous(s: AppView) -> AppView {
    AppView { selected: Some(previous_index(s.selected, s.libraries.len())), ..s }
}

/// Whether `i` is the index of the first library in `libs` whose name is `name`.
pub open spec fn is_first_named(libs: Seq<LibraryView>, name: Seq<char>, i: int) -> bool {
    &&& 0 <= i < libs.len()
    &&& libs[i].name == name
    &&& forall|j: int| 0 <= j < i ==> #[trigger] libs[j].name != name
}

/// `libs` with the installed flag of the first library named `name` set to
/// `flag`; `libs` itself when no library has that name.
pub open spec fn set_installed(libs: Seq<LibraryView>, name: Seq<char>, flag: bool) -> Seq<
    LibraryView,
> {
    if exists|i: int| is_first_named(libs, name, i) {
        let i = choose|i: int| is_first_named(libs, name, i);
        libs.update(i, LibraryView { is_installed: flag, ..libs[i] })
    } else {
        libs
    }
}

/// Clearing a non-empty search goes back to the installed libraries; an empty
/// search box leaves everything as it is.
pub open spec fn reload_installed(s: AppView) -> (AppView, ActionView) {
    if s.search_input.len() > 0 {
        (
            AppView {
                search_input: Seq::empty(),
                status_message: loading_message(),
                is_loading: true,
                ..s
            },
            ActionView::LoadInstalled,
        )
    } else {
        (s, ActionView::Nothing)
    }
}

/// Installing (`install`) or uninstalling the highlighted library; nothing
/// happens when no library is highlighted.
pub open spec fn request_selected(s: AppView, install: bool) -> (AppView, ActionView) {
    match s.selected {
        Some(i) => if i < s.libraries.len() {
            let name = s.libraries[i as int].name;
            if install {
                (
                    AppView {
                        status_message: "Installing "@ + name + "..."@,
                        is_loading: true,
                        ..s
                    },
                    ActionView::Install(name),
                )
            } else {
                (
                    AppView {
                        status_message: "Uninstalling "@ + name + "..."@,
                        is_loading: true,
                        ..s
                    },
                    ActionView::Uninstall(name),
                )
            }
        } else {
            (s, ActionView::Nothing)
        },
        None => (s, ActionView::Nothing),
    }
}

/// A key pressed while the list has the keyboard.
pub open spec fn normal_key(s: AppView, code: Key) -> (AppView, ActionView) {
    match code {
        Key::Char(c) => if c == 'q' {
            (s, ActionView::Quit)
        } else if c == 'j' {
            (select_next(s), ActionView::Nothing)
        } else if c == 'k' {
            (select_previous(s), ActionView::Nothing)
        } else if c == '?' || c == 'h' {
            (AppView { mode: AppMode::Help, ..s }, ActionView::Nothing)
        } else if c == '/' {
            (AppView { mode: AppMode::Search, ..s }, ActionView::Nothing)
        } else if c == 'i' {
            request_selected(s, true)
        } else if c == 'u' {
            request_selected(s, false)
        } else {
            (s, ActionView::Nothing)
        },
        Key::Down => (select_next(s), ActionView::Nothing),
        Key::Up => (select_previous(s), ActionView::Nothing),
        Key::Esc => reload_installed(s),
        _ => (s, ActionView::Nothing),
    }
}

/// A key pressed while the search box has the keyboard.
pub open spec fn search_key(s: AppView, code: Key) -> (AppView, ActionView) {
    match code {
        Key::Enter => {
            let q = s.search_input;
            if q.len() == 0 {
                (
                    AppView {
                        mode: AppMode::Normal,
                        status_message: loading_message(),
                        is_loading: true,
                        ..s
                    },
                    ActionView::LoadInstalled,
                )
            } else {
                (
                    AppView {
                        mode: AppMode::Normal,
                        status_message: "Searching for '"@ + q + "'..."@,
                        is_loading: true,
                        ..s
                    },
                    ActionView::Search(q),
                )
            }
        },
        Key::Char(c) => (AppView { search_input: s.search_input.push(c), ..s }, ActionView::Nothing),
        Key::Backspace => if s.search_input.len() > 0 {
            (AppView { search_input: s.search_input.drop_last(), ..s }, ActionView::Nothing)
        } else {
            (s, ActionView::Nothing)
        },
        Key::Esc => reload_installed(AppView { mode: AppMode::Normal, ..s }),
        _ => (s, ActionView::Nothing),
    }
}

/// A key pressed while the help popup is open.
pub open spec fn help_key(s: AppView, code: Key) -> (AppView, ActionView) {
    let closes = match code {
        Key::Esc => true,
        Key::Char(c) => c == 'q' || c == '?' || c == 'h',
        _ => false,
    };
    if closes {
        (AppView { mode: AppMode::Normal, ..s }, ActionView::Nothing)
    } else {
        (s, ActionView::Nothing)
    }
}

/// A key pressed, in whatever mode the interface is in.
pub open spec fn key_step(s: AppView, code: Key) -> (AppView, ActionView) {
    match s.mode {
        AppMode::Normal => normal_key(s, code),
        AppMode::Search => search_key(s, code),
        AppMode::Help => help_key(s, code),
    }
}

/// The status line after a listing or search that found `n` libraries.
pub open spec fn found_message(n: nat) -> Seq<char> {
    "Found "@ + decimal(n) + " libraries."@
}

/// The next state of the interface after `e`, and the work it calls for.
pub open spec fn step(s: AppView, e: EventView) -> (AppView, ActionView) {
    match e {
        EventView::Key { code, press } => if press {
            key_step(s, code)
        } else {
            (s, ActionView::Nothing)
        },
        EventView::OtherInput => (s, ActionView::Nothing),
        EventView::Tick => (s, ActionView::Nothing),
        EventView::LibrariesLoaded(libs) => (
            AppView {
                libraries: libs,
                selected: if libs.len() == 0 {
                    None
                } else {
                    Some(0)
                },
                is_loading: false,
                status_message: found_message(libs.len()),
                ..s
            },
            ActionView::Nothing,
        ),
        EventView::LibraryInstalled(name) => (
            AppView {
                libraries: set_installed(s.libraries, name, true),
                is_loading: false,
                status_message: "Successfully installed "@ + name + "."@,
                ..s
            },
            ActionView::Nothing,
        ),
        EventView::LibraryUninstalled(name) => (
            AppView {
                libraries: set_installed(s.libraries, name, false),
                is_loading: false,
                status_message: "Successfully uninstalled "@ + name + "."@,
                ..s
            },
            ActionView::Nothing,
        ),
        EventView::CommandError(m) => (
            AppView { is_loading: false, status_message: "Error: "@ + m, ..s },
            ActionView::Nothing,
        ),
    }
}

// ---------------------------------------------------------------------------
// The implementation
// ---------------------------------------------------------------------------

impl App {
    /// The interface as it starts.
    pub fn new() -> (app: App)
        ensures
            app@ == initial_state(),
            app.libraries@.len() == 0,
    {
        let app = App {
            mode: AppMode::Normal,
            search_input: String::new(),
            libraries: Vec::new(),
            selected: None,
            status_message: String::from_str(
                "Press '?' for help, '/' to search, 'i' to install, 'u' to uninstall, 'q' to quit",
            ),
            is_loading: true,
        };
        assert(app@.libraries =~= Seq::<LibraryView>::empty());
        app
    }

    /// Moves the selection one library down, from the last back to the first.
    pub fn next(&mut self)
        ensures
            final(self)@ == select_next(old(self)@),
    {
        let len = self.libraries.len();
        let last = if len == 0 {
            0
        } else {
            len - 1
        };
        let i = match self.selected {
            Some(i) => if i >= last {
                0
            } else {
                i + 1
            },
            None => 0,
        };
        self.selected = Some(i);
    }

    /// Moves the selection one library up, from the first round to the last.
    pub fn previous(&mut self)
        ensures
            final(self)@ == select_previous(old(self)@),
    {
        let len = self.libraries.len();
        let last = if len == 0 {
            0
        } else {
            len - 1
        };
        let i = match self.selected {
            Some(i) => if i == 0 {
                last
            } else {
                i - 1
            },
            None => 0,
        };
        self.selected = Some(i);
    }

    /// Sets the installed flag of the first library named `name` to `flag`.
    fn set_installed_flag(&mut self, name: &String, flag: bool)
        ensures
            final(self)@ == (AppView {
                libraries: set_installed(old(self)@.libraries, name@, flag),
                ..old(self)@
            }),
    {
        let ghost libs0 = self@.libraries;
        let len = self.libraries.len();
        let mut i: usize = 0;
        while i < len
            invariant
                len == self.libraries.len(),
                libs0.len() == len,
                self@ == old(self)@,
                libs0 == old(self)@.libraries,
                i <= len,
                forall|j: int| 0 <= j < i ==> #[trigger] libs0[j].name != name@,
            decreases len - i,
        {
            if self.libraries[i].name == *name {
                proof {
                    assert(is_first_named(libs0, name@, i as int));
                    let k = choose|k: int| is_first_named(libs0, name@, k);
                    assert(k == i as int) by {
                        if k < i {
                            assert(libs0[k].name != name@);
                        }
                        if i < k {
                            assert(libs0[i as int].name != name@);
                        }
                    }
                }
                self.libraries[i].is_installed = flag;
                assert(libraries_view(self.libraries@) =~= set_installed(libs0, name@, flag));
                return ;
            }
            i = i + 1;
        }
        assert(!exists|k: int| is_first_named(libs0, name@, k));
    }

    /// Installs or uninstalls the highlighted library.
    fn request_selected(&mut self, install: bool) -> (action: Action)
        ensures
            (final(self)@, action@) == request_selected(old(self)@, install),
    {
        match self.selected {
            Some(i) => {
                if i < self.libraries.len() {
                    let name = self.libraries[i].name.clone();
                    self.is_loading = true;
                    if install {
                        self.status_message = join3("Installing ", name.as_str(), "...");
                        Action::Install(name)
                    } else {
                        self.status_message = join3("Uninstalling ", name.as_str(), "...");
                        Action::Uninstall(name)
                    }
                } else {
                    Action::Nothing
                }
            },
            None => Action::Nothing,
        }
    }

    /// Leaves the search results for the installed libraries, if there was a search.
    fn reload_installed(&mut self) -> (action: Action)
        ensures
            (final(self)@, action@) == reload_installed(old(self)@),
    {
        if !self.search_input.as_str().is_empty() {
            self.search_input = String::new();
            self.status_message = String::from_str("Loading installed libraries...");
            self.is_loading = true;
            Action::LoadInstalled
        } else {
            Action::Nothing
        }
    }

    fn normal_key(&mut self, code: Key) -> (action: Action)
        requires
            old(self).mode == AppMode::Normal,
        ensures
            (final(self)@, action@) == normal_key(old(self)@, code),
    {
        match code {
            Key::Char(c) => {
                if c == 'q' {
                    Action::Quit
                } else if c == 'j' {
                    self.next();
                    Action::Nothing
                } else if c == 'k' {
                    self.previous();
                    Action::Nothing
                } else if c == '?' || c == 'h' {
                    self.mode = AppMode::Help;
                    Action::Nothing
                } else if c == '/' {
                    self.mode = AppMode::Search;
                    Action::Nothing
                } else if c == 'i' {
                    self.request_selected(true)
                } else if c == 'u' {
                    self.request_selected(false)
                } else {
                    Action::Nothing
                }
            },
            Key::Down => {
                self.next();
                Action::Nothing
            },
            Key::Up => {
                self.previous();
                Action::Nothing
            },
            Key::Esc => self.reload_installed(),
            _ => Action::Nothing,
        }
    }

    fn search_key(&mut self, code: Key) -> (action: Action)
        requires
            old(self).mode == AppMode::Search,
        ensures
            (final(self)@, action@) == search_key(old(self)@, code),
    {
        match code {
            Key::Enter => {
                self.mode = AppMode::Normal;
                let query = self.search_input.clone();
                self.is_loading = true;
                if query.as_str().is_empty() {
                    self.status_message = String::from_str("Loading installed libraries...");
                    Action::LoadInstalled
                } else {
                    self.status_message = join3("Searching for '", query.as_str(), "'...");
                    Action::Search(query)
                }
            },
            Key::Char(c) => {
                push_char(&mut self.search_input, c);
                Action::Nothing
            },
            Key::Backspace => {
                let _ = pop_char(&mut self.search_input);
                Action::Nothing
            },
            Key::Esc => {
                self.mode = AppMode::Normal;
                self.reload_installed()
            },
            _ => Action::Nothing,
        }
    }

    fn help_key(&mut self, code: Key) -> (action: Action)
        requires
            old(self).mode == AppMode::Help,
        ensures
            (final(self)@, action@) == help_key(old(self)@, code),
    {
        let closes = match code {
            Key::Esc => true,
            Key::Char(c) => c == 'q' || c == '?' || c == 'h',
            _ => false,
        };
        if closes {
            self.mode = AppMode::Normal;
        }
        Action::Nothing
    }

    /// Applies one event to the interface and returns the work it calls for.
    pub fn handle_event(&mut self, event: AppEvent) -> (action: Action)
        ensures
            (final(self)@, action@) == step(old(self)@, event@),
    {
        match event {
            AppEvent::Key { code, press } => {
                if !press {
                    return Action::Nothing;
                }
                match self.mode {
                    AppMode::Normal => self.normal_key(code),
                    AppMode::Search => self.search_key(code),
                    AppMode::Help => self.help_key(code),
                }
            },
            AppEvent::OtherInput => Action::Nothing,
            AppEvent::Tick => Action::Nothing,
            AppEvent::LibrariesLoaded(libs) => {
                self.libraries = libs;
                self.selected = if self.libraries.len() == 0 {
                    None
                } else {
                    Some(0)
                };
                self.is_loading = false;
                let count = decimal_string(self.libraries.len());
                self.status_message = join3("Found ", count.as_str(), " libraries.");
                Action::Nothing
            },
            AppEvent::LibraryInstalled(name) => {
                self.is_loading = false;
                self.status_message = join3("Successfully installed ", name.as_str(), ".");
                self.set_installed_flag(&name, true);
                Action::Nothing
            },
            AppEvent::LibraryUninstalled(name) => {
                self.is_loading = false;
                self.status_message = join3("Successfully uninstalled ", name.as_str(), ".");
                self.set_installed_flag(&name, false);
                Action::Nothing
            },
            AppEvent::CommandError(message) => {
                self.is_loading = false;
                self.status_message = join2("Error: ", message.as_str());
                Action::Nothing
            },
        }
    }
}

/// The event that reports how a listing or a search ended.
pub fn listing_event(outcome: Result<Vec<LibraryInfo>, String>) -> (e: AppEvent)
    ensures
        match outcome {
            Ok(libs) => e@ == EventView::LibrariesLoaded(libraries_view(libs@)),
            Err(m) => e@ == EventView::CommandError(m@),
        },
{
    match outcome {
        Ok(libs) => AppEvent::LibrariesLoaded(libs),
        Err(m) => AppEvent::CommandError(m),
    }
}

/// The event that reports how installing (`install`) or uninstalling the
/// library `name` ended.
pub fn change_event(name: String, install: bool, outcome: Result<(), String>) -> (e: AppEvent)
    ensures
        match outcome {
            Ok(_) => e@ == (if install {
                EventView::LibraryInstalled(name@)
            } else {
                EventView::LibraryUninstalled(name@)
            }),
            Err(m) => e@ == EventView::CommandError(m@),
        },
{
    match outcome {
        Ok(_) => if install {
            AppEvent::LibraryInstalled(name)
        } else {
            AppEvent::LibraryUninstalled(name)
        },
        Err(m) => AppEvent::CommandError(m),
    }
}

} // verus!
