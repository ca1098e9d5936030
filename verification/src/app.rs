//! The controller: which screen the test is on, which tab and option are
//! selected, and what each key does.
//!
//! The controller neither reads keys nor draws. A host hands it one key at
//! a time together with the time on the session's clock, and gets back a
//! [`Command`] for what only the host can do: end the program, or fetch a
//! new passage.

use vstd::prelude::*;
use crate::app_options::AppOptions;
use crate::clock::elapsed_between;
use crate::clock::span_between;
use crate::metrics::NANOS_PER_SEC;
use crate::type_test::lemma_backspace_keeps_wf;
use crate::type_test::lemma_type_char_keeps_wf;
use crate::type_test::lemma_update_test_data_keeps_wf;
use crate::type_test::SessionError;
use crate::type_test::SessionView;
use crate::type_test::TypingTest;
use crate::type_test::MAX_KEYSTROKES;
use crate::ui::tabs::SelectedTab;

verus! {

/// Which line of the options is selected.
#[derive(Clone, Copy, Debug, PartialEq, Eq, Structural)]
pub struct OptionsState {
    selected_option: usize,
    options_count: usize,
}

impl OptionsState {
    /// How many lines the options have.
    pub const OPTIONS_COUNT: usize = 5;

    /// The selected line.
    pub closed spec fn selected(&self) -> nat {
        self.selected_option as nat
    }

    /// The number of lines.
    pub closed spec fn count(&self) -> nat {
        self.options_count as nat
    }

    /// The selected line is one of the lines.
    pub open spec fn wf(&self) -> bool {
        self.selected() < self.count()
    }

    /// The first of five lines selected.
    pub fn new() -> (state: OptionsState)
        ensures
            state.wf(),
            state.selected() == 0,
            state.count() == OptionsState::OPTIONS_COUNT,
    {
        OptionsState { selected_option: 0, options_count: OptionsState::OPTIONS_COUNT }
    }

    /// The selected line.
    pub fn selected_option(&self) -> (i: usize)
        ensures
            i == self.selected(),
    {
        self.selected_option
    }

    /// Selects the line below; the first one below the last.
    pub fn next(&mut self)
        requires
            old(self).wf(),
        ensures
            final(self).wf(),
            final(self).count() == old(self).count(),
            final(self).selected() == (old(self).selected() + 1) % old(self).count(),
    {
        self.selected_option = (self.selected_option + 1) % self.options_count;
    }

    /// Selects the line above; the last one above the first.
    pub fn previous(&mut self)
        requires
            old(self).wf(),
        ensures
            final(self).wf(),
            final(self).count() == old(self).count(),
            final(self).selected() == if old(self).selected() > 0 {
                old(self).selected() - 1
            } else {
                old(self).count() - 1
            },
    {
        if self.selected_option > 0 {
            self.selected_option -= 1;
        } else {
            self.selected_option = self.options_count - 1;
        }
    }
}

/// The screen that the test is on.
#[derive(Clone, Copy, Debug, PartialEq, Eq, Structural)]
pub enum AppState {
    /// Waiting for the first characters.
    StartScreen,
    /// The test is being typed and measured.
    RunningTest,
    /// The test is over.
    EndScreen,
}

impl Default for AppState {
    fn default() -> (r: AppState)
        ensures
            r == AppState::StartScreen,
    {
        AppState::StartScreen
    }
}

/// A key, as far as the controller tells keys apart.
#[derive(Clone, Copy, Debug, PartialEq, Eq, Structural)]
pub enum KeyCode {
    /// A character key.
    Char(char),
    /// Backspace.
    Backspace,
    /// Escape.
    Esc,
    /// Arrow up.
    Up,
    /// Arrow down.
    Down,
    /// Arrow left.
    Left,
    /// Arrow right.
    Right,
    /// Any other key.
    Other,
}

/// The modifier keys held with a key.
#[derive(Clone, Copy, Debug, PartialEq, Eq, Structural)]
pub struct KeyModifiers {
    /// Shift is held.
    pub shift: bool,
    /// Control is held.
    pub control: bool,
    /// Some other modifier is held.
    pub other: bool,
}

impl KeyModifiers {
    /// No modifier is held.
    pub open spec fn is_none(self) -> bool {
        !self.shift && !self.control && !self.other
    }

    /// Shift is held and nothing else.
    pub open spec fn is_shift(self) -> bool {
        self.shift && !self.control && !self.other
    }

    /// Whether no modifier is held.
    pub fn none(&self) -> (r: bool)
        ensures
            r == self.is_none(),
    {
        !self.shift && !self.control && !self.other
    }

    /// Whether shift is held and nothing else.
    pub fn shift_only(&self) -> (r: bool)
        ensures
            r == self.is_shift(),
    {
        self.shift && !self.control && !self.other
    }
}

/// One event of the keyboard.
#[derive(Clone, Copy, Debug, PartialEq, Eq, Structural)]
pub struct KeyEvent {
    /// The key.
    pub code: KeyCode,
    /// The modifiers held with it.
    pub modifiers: KeyModifiers,
    /// Whether the key went down; a release or a repeat does nothing.
    pub pressed: bool,
}

/// What the host has to do after a key.
#[derive(Clone, Copy, Debug, PartialEq, Eq, Structural)]
pub enum Command {
    /// Nothing.
    Continue,
    /// End the program.
    Quit,
    /// Fetch a passage and hand it to [`App::start_new_test`].
    Restart,
    /// Fetch a passage for the changed options and hand it to
    /// [`App::reload_test`].
    Reload,
}

/// The controller as mathematical values.
pub struct AppView {
    /// The choices of the user.
    pub options: AppOptions,
    /// The session.
    pub session: SessionView,
    /// The screen that the test is on.
    pub state: AppState,
    /// The tab that is shown.
    pub selected_tab: SelectedTab,
    /// The selected line of the options.
    pub selected_option: nat,
    /// The number of lines of the options.
    pub options_count: nat,
    /// When the session was last measured by the clock's tick.
    pub last_update: u64,
}

/// Whether `key` types a character on the typing tab, and which.
pub open spec fn typed_char(key: KeyEvent) -> Option<char> {
    match key.code {
        KeyCode::Char(c) => if key.modifiers.is_none() || key.modifiers.is_shift() {
            Some(c)
        } else {
            None
        },
        _ => None,
    }
}

/// Whether `key` asks for a new test on the end screen.
pub open spec fn is_restart_key(key: KeyEvent) -> bool {
    match key.code {
        KeyCode::Char(c) => (c == 'r' && (key.modifiers.is_none() || key.modifiers.is_shift()))
            || (c == 'R' && key.modifiers.is_shift()),
        _ => false,
    }
}

impl AppView {
    /// The options after the selected one was changed: a language or the
    /// kind of test moves on or back, a switch flips.
    pub open spec fn change_option_value(self, increase: bool) -> AppOptions {
        let o = self.options;
        if self.selected_option == 0 {
            AppOptions {
                test_language: if increase {
                    o.test_language.next_in_order()
                } else {
                    o.test_language.previous_in_order()
                },
                ..o
            }
        } else if self.selected_option == 1 {
            AppOptions {
                test_type: if increase {
                    o.test_type.next_in_order()
                } else {
                    o.test_type.previous_in_order()
                },
                ..o
            }
        } else if self.selected_option == 2 {
            AppOptions { time_race_enabled: !o.time_race_enabled, ..o }
        } else if self.selected_option == 3 {
            AppOptions { hardcore_enabled: !o.hardcore_enabled, ..o }
        } else if self.selected_option == 4 {
            AppOptions {
                ui_language: if increase {
                    o.ui_language.next_in_order()
                } else {
                    o.ui_language.previous_in_order()
                },
                ..o
            }
        } else {
            o
        }
    }

    /// The controller after `key` on the options tab, and what the host has
    /// to do. Without a modifier, up and `k` select the line above, down and
    /// `j` the line below, left and `h` change the selected option back,
    /// right and `l` change it on. A changed option asks for a new passage.
    pub open spec fn handle_options_input(self, key: KeyEvent) -> (AppView, Command) {
        if !key.modifiers.is_none() {
            (self, Command::Continue)
        } else if key.code == KeyCode::Up || key.code == KeyCode::Char('k') {
            (
                AppView {
                    selected_option: if self.selected_option > 0 {
                        (self.selected_option - 1) as nat
                    } else {
                        (self.options_count - 1) as nat
                    },
                    ..self
                },
                Command::Continue,
            )
        } else if key.code == KeyCode::Down || key.code == KeyCode::Char('j') {
            (
                AppView {
                    selected_option: (self.selected_option + 1) % self.options_count,
                    ..self
                },
                Command::Continue,
            )
        } else if key.code == KeyCode::Left || key.code == KeyCode::Char('h') {
            (AppView { options: self.change_option_value(false), ..self }, Command::Reload)
        } else if key.code == KeyCode::Right || key.code == KeyCode::Char('l') {
            (AppView { options: self.change_option_value(true), ..self }, Command::Reload)
        } else {
            (self, Command::Continue)
        }
    }

    /// The controller after `key` on the typing tab at time `now`, and what
    /// the host has to do. Before the end of the test a character key, alone
    /// or with shift, types its character, and backspace alone takes one
    /// back. On the end screen `r` asks for a new test.
    pub open spec fn handle_typing_input(self, key: KeyEvent, now: u64) -> (AppView, Command) {
        if self.state == AppState::EndScreen {
            if is_restart_key(key) {
                (self, Command::Restart)
            } else {
                (self, Command::Continue)
            }
        } else if typed_char(key) is Some {
            (
                AppView { session: self.session.type_char(typed_char(key)->0, now), ..self },
                Command::Continue,
            )
        } else if key.code == KeyCode::Backspace && key.modifiers.is_none() {
            (AppView { session: self.session.backspace(), ..self }, Command::Continue)
        } else {
            (self, Command::Continue)
        }
    }

    /// The controller after `key` at time `now`, and what the host has to
    /// do. Only a key that went down counts. With control, `q` ends the
    /// program, `l` shows the next tab and `h` the previous one. Without
    /// it, escape ends the program and any other key goes to the tab that
    /// is shown.
    pub open spec fn handle_key_event(self, key: KeyEvent, now: u64) -> (AppView, Command) {
        if !key.pressed {
            (self, Command::Continue)
        } else if key.modifiers.control {
            if key.code == KeyCode::Char('q') {
                (self, Command::Quit)
            } else if key.code == KeyCode::Char('l') {
                (
                    AppView { selected_tab: self.selected_tab.next_in_order(), ..self },
                    Command::Continue,
                )
            } else if key.code == KeyCode::Char('h') {
                (
                    AppView { selected_tab: self.selected_tab.previous_in_order(), ..self },
                    Command::Continue,
                )
            } else {
                (self, Command::Continue)
            }
        } else if key.code == KeyCode::Esc {
            (self, Command::Quit)
        } else {
            match self.selected_tab {
                SelectedTab::Tab1 => self.handle_typing_input(key, now),
                SelectedTab::Tab2 => self.handle_options_input(key),
                SelectedTab::Tab3 => (self, Command::Continue),
                SelectedTab::Tab4 => (self, Command::Continue),
            }
        }
    }

    /// The controller after the clock's tick at `now`: a running test that
    /// was last measured a second ago or longer is measured again.
    pub open spec fn tick(self, now: u64) -> AppView {
        if self.state == AppState::RunningTest && span_between(self.last_update, now)
            >= NANOS_PER_SEC {
            AppView { session: self.session.update_test_data(now), last_update: now, ..self }
        } else {
            self
        }
    }

    /// The controller after the test has begun, if it has: from the start
    /// screen, once there is progress to show, the test is running, and it
    /// is measured at once.
    pub open spec fn begin_if_started(self, now: u64) -> AppView {
        if self.state == AppState::StartScreen && self.session.progress() > 0 {
            AppView {
                session: self.session.update_test_data(now),
                last_update: now,
                state: AppState::RunningTest,
                ..self
            }
        } else {
            self
        }
    }

    /// The controller after the test has ended, if it has: a running test
    /// whose cursor is at the end of the passage is over, and its timer is
    /// stopped.
    pub open spec fn end_if_finished(self, now: u64) -> AppView {
        if self.state == AppState::RunningTest && self.session.index()
            == self.session.target.len() {
            AppView { session: self.session.stop_timer(now), state: AppState::EndScreen, ..self }
        } else {
            self
        }
    }

    /// The controller after it has looked at the session at time `now` and
    /// moved on to the screen that the session calls for.
    pub open spec fn advance(self, now: u64) -> AppView {
        self.begin_if_started(now).end_if_finished(now)
    }

    /// The controller after one round at time `now`, and what the host has
    /// to do: the clock's tick, then the key if there is one, then the move
    /// to the next screen. A key that ends the program ends the round.
    pub open spec fn step(self, key: Option<KeyEvent>, now: u64) -> (AppView, Command) {
        let ticked = self.tick(now);
        match key {
            None => (ticked.advance(now), Command::Continue),
            Some(key) => {
                let (handled, command) = ticked.handle_key_event(key, now);
                if command == Command::Quit {
                    (handled, command)
                } else {
                    (handled.advance(now), command)
                }
            },
        }
    }
}

/// The controller.
pub struct App {
    options: AppOptions,
    typing_test: TypingTest,
    state: AppState,
    selected_tab: SelectedTab,
    options_state: OptionsState,
    last_update: u64,
}

impl View for App {
    type V = AppView;

    closed spec fn view(&self) -> AppView {
        AppView {
            options: self.options,
            session: self.typing_test@,
            state: self.state,
            selected_tab: self.selected_tab,
            selected_option: self.options_state.selected(),
            options_count: self.options_state.count(),
            last_update: self.last_update,
        }
    }
}

impl App {
    /// What holds of every controller between two calls.
    pub closed spec fn wf(&self) -> bool {
        &&& self.typing_test.wf()
        &&& self.options_state.wf()
    }

    /// The view of a well-formed controller holds a well-formed session
    /// and a selected option that exists.
    pub proof fn lemma_view_wf(&self)
        requires
            self.wf(),
        ensures
            self@.session.wf(),
            self@.session.total_typed <= MAX_KEYSTROKES,
            self@.selected_option < self@.options_count,
    {
        self.typing_test.lemma_view_wf();
    }

    /// A controller on the start screen of a test on the passage `text`,
    /// with the typing tab shown and the choices that a user starts with.
    /// An empty passage is refused.
    pub fn new(text: &str) -> (r: Result<App, SessionError>)
        ensures
            text@.len() == 0 <==> r is Err,
            r matches Err(e) ==> e == SessionError::EmptyPassage,
            r matches Ok(app) ==> app.wf() && app@ == (AppView {
                options: AppOptions {
                    ui_language: crate::app_options::Language::En,
                    test_language: crate::app_options::Language::En,
                    test_type: crate::app_options::TestType::RandomWords1K,
                    time_race_enabled: false,
                    hardcore_enabled: false,
                },
                session: SessionView::fresh(text@),
                state: AppState::StartScreen,
                selected_tab: SelectedTab::Tab1,
                selected_option: 0,
                options_count: OptionsState::OPTIONS_COUNT as nat,
                last_update: 0,
            }),
    {
        match TypingTest::new(text) {
            Ok(typing_test) => Ok(
                App {
                    options: AppOptions::new(),
                    typing_test,
                    state: AppState::StartScreen,
                    selected_tab: SelectedTab::Tab1,
                    options_state: OptionsState::new(),
                    last_update: 0,
                },
            ),
            Err(e) => Err(e),
        }
    }

    /// The choices of the user.
    pub fn options(&self) -> (options: &AppOptions)
        ensures
            *options == self@.options,
    {
        &self.options
    }

    /// The session.
    pub fn typing_test(&self) -> (test: &TypingTest)
        ensures
            test@ == self@.session,
            self.wf() ==> test.wf(),
    {
        &self.typing_test
    }

    /// The screen that the test is on.
    pub fn state(&self) -> (state: AppState)
        ensures
            state == self@.state,
    {
        self.state
    }

    /// The tab that is shown.
    pub fn selected_tab(&self) -> (tab: SelectedTab)
        ensures
            tab == self@.selected_tab,
    {
        self.selected_tab
    }

    /// Which line of the options is selected.
    pub fn options_state(&self) -> (state: &OptionsState)
        ensures
            state.selected() == self@.selected_option,
            state.count() == self@.options_count,
    {
        &self.options_state
    }

    /// A reading of the session's clock, in nanoseconds. It depends on the
    /// moment of the call alone, so nothing is promised of it; what becomes
    /// of one is said by [`App::step_at`].
    pub fn now(&self) -> (t: u64) {
        self.typing_test.now()
    }

    /// Whether the controller can take one more key.
    pub fn accepts_keys(&self) -> (ok: bool)
        ensures
            ok == (self@.session.total_typed < MAX_KEYSTROKES),
    {
        self.typing_test.accepts_keystrokes()
    }

    /// Starts a new test on the passage `text`, on the start screen. An
    /// empty passage is refused, and the controller is left as it was.
    pub fn start_new_test(&mut self, text: &str) -> (r: Result<(), SessionError>)
        requires
            old(self).wf(),
        ensures
            final(self).wf(),
            text@.len() == 0 <==> r is Err,
            r matches Err(e) ==> e == SessionError::EmptyPassage && final(self)@ == old(self)@,
            r is Ok ==> final(self)@ == (AppView {
                session: SessionView::fresh(text@),
                state: AppState::StartScreen,
                ..old(self)@
            }),
    {
        match self.typing_test.reset(text) {
            Ok(()) => {
                self.state = AppState::StartScreen;
                Ok(())
            },
            Err(e) => Err(e),
        }
    }

    /// Puts a fresh session on the passage `text` in place of the present
    /// one, as after a change of the options; the screen stays. An empty
    /// passage is refused, and the controller is left as it was.
    pub fn reload_test(&mut self, text: &str) -> (r: Result<(), SessionError>)
        requires
            old(self).wf(),
        ensures
            final(self).wf(),
            text@.len() == 0 <==> r is Err,
            r matches Err(e) ==> e == SessionError::EmptyPassage && final(self)@ == old(self)@,
            r is Ok ==> final(self)@ == (AppView {
                session: SessionView::fresh(text@),
                ..old(self)@
            }),
    {
        self.typing_test.reset(text)
    }

    /// Shows the next tab.
    pub fn next_tab(&mut self)
        requires
            old(self).wf(),
        ensures
            final(self).wf(),
            final(self)@ == (AppView {
                selected_tab: old(self)@.selected_tab.next_in_order(),
                ..old(self)@
            }),
    {
        self.selected_tab = self.selected_tab.next();
    }

    /// Shows the previous tab.
    pub fn previous_tab(&mut self)
        requires
            old(self).wf(),
        ensures
            final(self).wf(),
            final(self)@ == (AppView {
                selected_tab: old(self)@.selected_tab.previous_in_order(),
                ..old(self)@
            }),
    {
        self.selected_tab = self.selected_tab.previous();
    }

    fn change_test_language(&mut self, increase: bool)
        ensures
            *final(self) == (App {
                options: AppOptions {
                    test_language: if increase {
                        old(self).options.test_language.next_in_order()
                    } else {
                        old(self).options.test_language.previous_in_order()
                    },
                    ..old(self).options
                },
                ..*old(self)
            }),
    {
        if increase {
            self.options.test_language = self.options.test_language.next();
        } else {
            self.options.test_language = self.options.test_language.previous();
        }
    }

    fn change_test_type(&mut self, increase: bool)
        ensures
            *final(self) == (App {
                options: AppOptions {
                    test_type: if increase {
                        old(self).options.test_type.next_in_order()
                    } else {
                        old(self).options.test_type.previous_in_order()
                    },
                    ..old(self).options
                },
                ..*old(self)
            }),
    {
        if increase {
            self.options.test_type = self.options.test_type.next();
        } else {
            self.options.test_type = self.options.test_type.previous();
        }
    }

    fn change_ui_language(&mut self, increase: bool)
        ensures
            *final(self) == (App {
                options: AppOptions {
                    ui_language: if increase {
                        old(self).options.ui_language.next_in_order()
                    } else {
                        old(self).options.ui_language.previous_in_order()
                    },
                    ..old(self).options
                },
                ..*old(self)
            }),
    {
        if increase {
            self.options.ui_language = self.options.ui_language.next();
        } else {
            self.options.ui_language = self.options.ui_language.previous();
        }
    }

    /// Changes the selected option, on for `increase` and back otherwise.
    fn change_option_value(&mut self, increase: bool)
        requires
            old(self).wf(),
        ensures
            final(self).wf(),
            final(self)@ == (AppView {
                options: old(self)@.change_option_value(increase),
                ..old(self)@
            }),
    {
        let selected = self.options_state.selected_option();
        if selected == 0 {
            self.change_test_language(increase);
        } else if selected == 1 {
            self.change_test_type(increase);
        } else if selected == 2 {
            self.options.time_race_enabled = !self.options.time_race_enabled;
        } else if selected == 3 {
            self.options.hardcore_enabled = !self.options.hardcore_enabled;
        } else if selected == 4 {
            self.change_ui_language(increase);
        }
    }

    /// Takes `key` on the options tab.
    fn handle_options_input(&mut self, key: KeyEvent) -> (command: Command)
        requires
            old(self).wf(),
        ensures
            final(self).wf(),
            (final(self)@, command) == old(self)@.handle_options_input(key),
    {
        if !key.modifiers.none() {
            return Command::Continue;
        }
        match key.code {
            KeyCode::Up => {
                self.options_state.previous();
                Command::Continue
            },
            KeyCode::Down => {
                self.options_state.next();
                Command::Continue
            },
            KeyCode::Left => {
                self.change_option_value(false);
                Command::Reload
            },
            KeyCode::Right => {
                self.change_option_value(true);
                Command::Reload
            },
            KeyCode::Char(c) => {
                if c == 'k' {
                    self.options_state.previous();
                    Command::Continue
                } else if c == 'j' {
                    self.options_state.next();
                    Command::Continue
                } else if c == 'h' {
                    self.change_option_value(false);
                    Command::Reload
                } else if c == 'l' {
                    self.change_option_value(true);
                    Command::Reload
                } else {
                    Command::Continue
                }
            },
            _ => Command::Continue,
        }
    }

    /// Takes `key` on the typing tab at time `now`.
    fn handle_typing_input(&mut self, key: KeyEvent, now: u64) -> (command: Command)
        requires
            old(self).wf(),
            old(self)@.session.total_typed < MAX_KEYSTROKES,
        ensures
            final(self).wf(),
            (final(self)@, command) == old(self)@.handle_typing_input(key, now),
    {
        let plain = key.modifiers.none();
        let shifted = key.modifiers.shift_only();
        match self.state {
            AppState::EndScreen => {
                match key.code {
                    KeyCode::Char(c) => {
                        if (c == 'r' && (plain || shifted)) || (c == 'R' && shifted) {
                            Command::Restart
                        } else {
                            Command::Continue
                        }
                    },
                    _ => Command::Continue,
                }
            },
            _ => {
                match key.code {
                    KeyCode::Char(c) => {
                        if plain || shifted {
                            self.typing_test.type_char_at(c, now);
                        }
                    },
                    KeyCode::Backspace => {
                        if plain {
                            self.typing_test.backspace();
                        }
                    },
                    _ => {},
                }
                Command::Continue
            },
        }
    }

    /// Takes `key` on the account tab, which has no keys of its own.
    fn handle_account_input(&mut self, key: KeyEvent) -> (command: Command)
        ensures
            *final(self) == *old(self),
            command == Command::Continue,
    {
        Command::Continue
    }

    /// Takes `key` on the about tab, which has no keys of its own.
    fn handle_about_input(&mut self, key: KeyEvent) -> (command: Command)
        ensures
            *final(self) == *old(self),
            command == Command::Continue,
    {
        Command::Continue
    }

    /// Takes `key` at time `now` and says what the host has to do.
    pub fn handle_key_event(&mut self, key: KeyEvent, now: u64) -> (command: Command)
        requires
            old(self).wf(),
            old(self)@.session.total_typed < MAX_KEYSTROKES,
        ensures
            final(self).wf(),
            (final(self)@, command) == old(self)@.handle_key_event(key, now),
    {
        if !key.pressed {
            return Command::Continue;
        }
        if key.modifiers.control {
            match key.code {
                KeyCode::Char(c) => {
                    if c == 'q' {
                        Command::Quit
                    } else if c == 'l' {
                        self.next_tab();
                        Command::Continue
                    } else if c == 'h' {
                        self.previous_tab();
                        Command::Continue
                    } else {
                        Command::Continue
                    }
                },
                _ => Command::Continue,
            }
        } else {
            match key.code {
                KeyCode::Esc => Command::Quit,
                _ => {
                    match self.selected_tab {
                        SelectedTab::Tab1 => self.handle_typing_input(key, now),
                        SelectedTab::Tab2 => self.handle_options_input(key),
                        SelectedTab::Tab3 => self.handle_account_input(key),
                        SelectedTab::Tab4 => self.handle_about_input(key),
                    }
                },
            }
        }
    }

    /// The clock's tick at `now`: a running test that was last measured a
    /// second ago or longer is measured again.
    pub fn tick(&mut self, now: u64)
        requires
            old(self).wf(),
        ensures
            final(self).wf(),
            final(self)@ == old(self)@.tick(now),
    {
        match self.state {
            AppState::RunningTest => {
                if elapsed_between(self.last_update, now) >= NANOS_PER_SEC {
                    self.typing_test.update_test_data_at(now);
                    self.last_update = now;
                }
            },
            _ => {},
        }
    }

    /// Looks at the session at time `now` and moves to the screen that it
    /// calls for. From the start screen, once there is progress to show,
    /// the test is running and is measured at once. A running test whose
    /// cursor is at the end of the passage is over: its timer is stopped
    /// and the end screen is shown.
    pub fn advance(&mut self, now: u64)
        requires
            old(self).wf(),
        ensures
            final(self).wf(),
            final(self)@ == old(self)@.advance(now),
    {
        match self.state {
            AppState::StartScreen => {
                if self.typing_test.progress() > 0 {
                    self.typing_test.update_test_data_at(now);
                    self.last_update = now;
                    self.state = AppState::RunningTest;
                }
            },
            _ => {},
        }
        match self.state {
            AppState::RunningTest => {
                if self.typing_test.index() == self.typing_test.target_chars().len() {
                    self.typing_test.stop_timer_at(now);
                    self.state = AppState::EndScreen;
                }
            },
            _ => {},
        }
    }

    /// One round at time `now`: the clock's tick, then `key` if there is
    /// one, then the move to the next screen. Says what the host has to do.
    pub fn step_at(&mut self, key: Option<KeyEvent>, now: u64) -> (command: Command)
        requires
            old(self).wf(),
            old(self)@.session.total_typed < MAX_KEYSTROKES,
        ensures
            final(self).wf(),
            (final(self)@, command) == old(self)@.step(key, now),
    {
        self.tick(now);
        match key {
            None => {
                self.advance(now);
                Command::Continue
            },
            Some(key) => {
                let command = self.handle_key_event(key, now);
                match command {
                    Command::Quit => {},
                    _ => {
                        self.advance(now);
                    },
                }
                command
            },
        }
    }

    /// One round now. Says what the host has to do.
    pub fn step(&mut self, key: Option<KeyEvent>) -> (command: Command)
        requires
            old(self).wf(),
            old(self)@.session.total_typed < MAX_KEYSTROKES,
        ensures
            final(self).wf(),
            exists|now: u64| (final(self)@, command) == old(self)@.step(key, now),
    {
        let now = self.typing_test.now();
        self.step_at(key, now)
    }
}

/// A round keeps the session well formed.
pub proof fn lemma_step_keeps_session_wf(v: AppView, key: Option<KeyEvent>, now: u64)
    requires
        v.session.wf(),
    ensures
        v.step(key, now).0.session.wf(),
{
    let ticked = v.tick(now);
    lemma_update_test_data_keeps_wf(v.session, now);
    assert(ticked.session.wf());
    let handled = match key {
        None => ticked,
        Some(key) => ticked.handle_key_event(key, now).0,
    };
    assert(handled.session.wf()) by {
        if let Some(key) = key {
            if typed_char(key) is Some {
                lemma_type_char_keeps_wf(ticked.session, typed_char(key)->0, now);
            }
            lemma_backspace_keeps_wf(ticked.session);
        }
    }
    lemma_update_test_data_keeps_wf(handled.session, now);
}

/// The screens follow one another in one direction. A round leaves the end
/// screen as it is, and never takes a running test back to the start
/// screen; only a new test does that.
pub proof fn lemma_step_moves_forward(v: AppView, key: Option<KeyEvent>, now: u64)
    ensures
        v.state == AppState::EndScreen ==> v.step(key, now).0.state == AppState::EndScreen,
        v.state == AppState::RunningTest ==> v.step(key, now).0.state != AppState::StartScreen,
{
}

/// A round that takes the test off the start screen measures it at once:
/// the history then has its entry for second zero.
pub proof fn lemma_begin_measures(v: AppView, key: Option<KeyEvent>, now: u64)
    requires
        v.session.wf(),
        v.state == AppState::StartScreen,
        v.step(key, now).0.state != AppState::StartScreen,
    ensures
        v.step(key, now).1 != Command::Quit,
        v.step(key, now).0.session.history.len() > 0,
        v.step(key, now).0.session.history[0].timestamp == 0,
        v.step(key, now).0.last_update == now,
{
    lemma_step_keeps_session_wf(v, key, now);
    let handled = match key {
        None => v,
        Some(key) => v.handle_key_event(key, now).0,
    };
    assert(handled.session.wf()) by {
        if let Some(key) = key {
            if typed_char(key) is Some {
                lemma_type_char_keeps_wf(v.session, typed_char(key)->0, now);
            }
            lemma_backspace_keeps_wf(v.session);
        }
    }
    lemma_update_test_data_keeps_wf(handled.session, now);
}

/// A round that ends the test stops its timer: on the end screen that it
/// leads to, the cursor is at the end of the passage, the session is
/// finished and the time on the timer stands still.
pub proof fn lemma_end_stops_the_timer(v: AppView, key: Option<KeyEvent>, now: u64, later: u64)
    requires
        v.session.wf(),
        v.state != AppState::EndScreen,
        v.step(key, now).0.state == AppState::EndScreen,
    ensures
        v.step(key, now).0.session.index() == v.step(key, now).0.session.target.len(),
        v.step(key, now).0.session.finished,
        v.step(key, now).0.session.end_time is Some,
        v.step(key, now).0.session.start_time is Some,
        v.step(key, now).0.session.elapsed(later) == v.step(key, now).0.session.elapsed(now),
{
    lemma_step_keeps_session_wf(v, key, now);
}

} // verus!
