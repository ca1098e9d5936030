use monkeytype_oxide::app::App;
use monkeytype_oxide::app::AppState;
use monkeytype_oxide::app::Command;
use monkeytype_oxide::app::KeyCode;
use monkeytype_oxide::app::KeyEvent;
use monkeytype_oxide::app::KeyModifiers;
use monkeytype_oxide::app_options::AppOptions;
use monkeytype_oxide::app_options::Language;
use monkeytype_oxide::app_options::TestType;
use monkeytype_oxide::type_test::SessionError;
use monkeytype_oxide::ui::tabs::SelectedTab;

const SECOND: u64 = 1_000_000_000;

const NONE: KeyModifiers = KeyModifiers { shift: false, control: false, other: false };
const SHIFT: KeyModifiers = KeyModifiers { shift: true, control: false, other: false };
const CONTROL: KeyModifiers = KeyModifiers { shift: false, control: true, other: false };
const ALT: KeyModifiers = KeyModifiers { shift: false, control: false, other: true };

fn key(code: KeyCode, modifiers: KeyModifiers) -> Option<KeyEvent> {
    Some(KeyEvent { code, modifiers, pressed: true })
}

fn plain(c: char) -> Option<KeyEvent> {
    key(KeyCode::Char(c), NONE)
}

fn app(text: &str) -> App {
    App::new(text).expect("a passage with characters makes a controller")
}

fn finished_app() -> App {
    let mut app = app("hi");
    assert_eq!(app.step_at(plain('h'), SECOND), Command::Continue);
    assert_eq!(app.step_at(plain('i'), 2 * SECOND), Command::Continue);
    assert_eq!(app.state(), AppState::EndScreen);
    app
}

#[test]
fn a_new_controller_waits_on_the_start_screen() {
    let app = app("hello world");
    assert_eq!(app.state(), AppState::StartScreen);
    assert_eq!(app.selected_tab(), SelectedTab::Tab1);
    assert_eq!(app.options_state().selected_option(), 0);
    assert_eq!(*app.options(), AppOptions::new());
    assert_eq!(app.typing_test().target_text(), "hello world");
    assert_eq!(app.typing_test().index(), 0);
    assert!(app.accepts_keys());
}

#[test]
fn a_controller_needs_a_passage() {
    assert_eq!(App::new("").err(), Some(SessionError::EmptyPassage));
}

#[test]
fn the_first_progress_starts_the_test_and_measures_it() {
    let mut app = app("hello");
    assert_eq!(app.step_at(plain('h'), 5 * SECOND), Command::Continue);
    assert_eq!(app.state(), AppState::RunningTest);
    assert_eq!(app.typing_test().start_time(), Some(5 * SECOND));
    let history = app.typing_test().get_all_test_data();
    assert_eq!(history.len(), 1);
    assert_eq!(history[0].timestamp, 0);
}

#[test]
fn a_long_passage_starts_once_a_percent_is_typed() {
    let text = "a".repeat(150);
    let mut app = app(&text);
    app.step_at(plain('a'), SECOND);
    assert_eq!(app.state(), AppState::StartScreen);
    assert!(app.typing_test().get_all_test_data().is_empty());
    app.step_at(plain('a'), 2 * SECOND);
    assert_eq!(app.state(), AppState::RunningTest);
    assert_eq!(app.typing_test().get_all_test_data().len(), 2);
}

#[test]
fn the_last_character_ends_the_test_and_stops_the_timer() {
    let mut app = app("hi");
    app.step_at(plain('h'), SECOND);
    assert_eq!(app.state(), AppState::RunningTest);
    app.step_at(plain('i'), 3 * SECOND);
    assert_eq!(app.state(), AppState::EndScreen);
    assert!(app.typing_test().text_finished());
    assert_eq!(app.typing_test().end_time(), Some(3 * SECOND));
    assert_eq!(app.typing_test().elapsed_at(99 * SECOND), 2 * SECOND);
    app.step_at(None, 10 * SECOND);
    assert_eq!(app.typing_test().end_time(), Some(3 * SECOND));
    assert_eq!(app.state(), AppState::EndScreen);
}

#[test]
fn a_passage_of_one_character_ends_at_once() {
    let mut app = app("x");
    app.step_at(plain('x'), SECOND);
    assert_eq!(app.state(), AppState::EndScreen);
    assert_eq!(app.typing_test().end_time(), Some(SECOND));
    assert_eq!(app.typing_test().get_all_test_data().len(), 1);
}

#[test]
fn typing_is_ignored_on_the_end_screen() {
    let mut app = finished_app();
    assert_eq!(app.step_at(plain('x'), 5 * SECOND), Command::Continue);
    assert_eq!(app.step_at(key(KeyCode::Backspace, NONE), 5 * SECOND), Command::Continue);
    assert_eq!(app.typing_test().index(), 2);
    assert_eq!(app.typing_test().total_chars_tipped(), 2);
    assert_eq!(app.state(), AppState::EndScreen);
}

#[test]
fn r_on_the_end_screen_asks_for_a_new_test() {
    let mut app = finished_app();
    assert_eq!(app.step_at(plain('r'), 5 * SECOND), Command::Restart);
    assert_eq!(app.step_at(key(KeyCode::Char('r'), SHIFT), 5 * SECOND), Command::Restart);
    assert_eq!(app.step_at(key(KeyCode::Char('R'), SHIFT), 5 * SECOND), Command::Restart);
    assert_eq!(app.step_at(plain('R'), 5 * SECOND), Command::Continue);
    assert_eq!(app.step_at(key(KeyCode::Char('r'), ALT), 5 * SECOND), Command::Continue);
    assert_eq!(app.state(), AppState::EndScreen);
    assert_eq!(app.start_new_test("again"), Ok(()));
    assert_eq!(app.state(), AppState::StartScreen);
    assert_eq!(app.typing_test().target_text(), "again");
    assert_eq!(app.typing_test().index(), 0);
    assert!(app.typing_test().get_all_test_data().is_empty());
}

#[test]
fn r_before_the_end_is_typed() {
    let mut app = app("rust");
    assert_eq!(app.step_at(plain('r'), SECOND), Command::Continue);
    assert_eq!(app.typing_test().index(), 1);
    assert_eq!(app.typing_test().mistakes(), 0);
}

#[test]
fn a_new_test_needs_a_passage() {
    let mut app = finished_app();
    assert_eq!(app.start_new_test(""), Err(SessionError::EmptyPassage));
    assert_eq!(app.state(), AppState::EndScreen);
    assert_eq!(app.typing_test().target_text(), "hi");
    assert_eq!(app.reload_test(""), Err(SessionError::EmptyPassage));
    assert_eq!(app.typing_test().target_text(), "hi");
}

#[test]
fn reloading_keeps_the_screen() {
    let mut app = finished_app();
    assert_eq!(app.reload_test("fresh"), Ok(()));
    assert_eq!(app.state(), AppState::EndScreen);
    assert_eq!(app.typing_test().target_text(), "fresh");
    assert!(!app.typing_test().text_finished());
}

#[test]
fn shift_types_and_other_modifiers_do_not() {
    let mut app = app("Hello");
    app.step_at(key(KeyCode::Char('H'), SHIFT), SECOND);
    assert_eq!(app.typing_test().user_input(), "H");
    app.step_at(key(KeyCode::Char('e'), ALT), SECOND);
    assert_eq!(app.typing_test().user_input(), "H");
    app.step_at(key(KeyCode::Char('e'), KeyModifiers { shift: true, control: false, other: true }), SECOND);
    assert_eq!(app.typing_test().user_input(), "H");
    app.step_at(key(KeyCode::Char('e'), CONTROL), SECOND);
    assert_eq!(app.typing_test().user_input(), "H");
}

#[test]
fn backspace_alone_takes_a_character_back() {
    let mut app = app("hello");
    app.step_at(plain('h'), SECOND);
    app.step_at(plain('x'), SECOND);
    app.step_at(key(KeyCode::Backspace, SHIFT), SECOND);
    assert_eq!(app.typing_test().index(), 2);
    app.step_at(key(KeyCode::Backspace, NONE), SECOND);
    assert_eq!(app.typing_test().index(), 1);
    assert_eq!(app.typing_test().mistakes(), 1);
    assert_eq!(app.typing_test().total_chars_tipped(), 2);
}

#[test]
fn a_key_that_did_not_go_down_does_nothing() {
    let mut app = app("hello");
    let released = Some(KeyEvent { code: KeyCode::Char('h'), modifiers: NONE, pressed: false });
    assert_eq!(app.step_at(released, SECOND), Command::Continue);
    assert_eq!(app.typing_test().index(), 0);
    let escape = Some(KeyEvent { code: KeyCode::Esc, modifiers: NONE, pressed: false });
    assert_eq!(app.step_at(escape, SECOND), Command::Continue);
}

#[test]
fn escape_and_control_q_end_the_program() {
    let mut app = app("hello");
    assert_eq!(app.step_at(key(KeyCode::Esc, NONE), SECOND), Command::Quit);
    assert_eq!(app.step_at(key(KeyCode::Esc, SHIFT), SECOND), Command::Quit);
    assert_eq!(app.step_at(key(KeyCode::Char('q'), CONTROL), SECOND), Command::Quit);
    assert_eq!(app.step_at(plain('q'), SECOND), Command::Continue);
    assert_eq!(app.typing_test().index(), 1);
}

#[test]
fn control_l_and_h_walk_the_tabs() {
    let mut app = app("hello");
    app.step_at(key(KeyCode::Char('l'), CONTROL), SECOND);
    assert_eq!(app.selected_tab(), SelectedTab::Tab2);
    app.step_at(key(KeyCode::Char('l'), CONTROL), SECOND);
    app.step_at(key(KeyCode::Char('l'), CONTROL), SECOND);
    assert_eq!(app.selected_tab(), SelectedTab::Tab4);
    app.step_at(key(KeyCode::Char('l'), CONTROL), SECOND);
    assert_eq!(app.selected_tab(), SelectedTab::Tab1);
    app.step_at(key(KeyCode::Char('h'), CONTROL), SECOND);
    assert_eq!(app.selected_tab(), SelectedTab::Tab4);
    app.step_at(key(KeyCode::Char('x'), CONTROL), SECOND);
    assert_eq!(app.selected_tab(), SelectedTab::Tab4);
    assert_eq!(app.typing_test().index(), 0);
    app.next_tab();
    assert_eq!(app.selected_tab(), SelectedTab::Tab1);
    app.previous_tab();
    assert_eq!(app.selected_tab(), SelectedTab::Tab4);
}

#[test]
fn keys_on_other_tabs_do_not_type() {
    let mut app = app("hello");
    app.next_tab();
    app.next_tab();
    assert_eq!(app.selected_tab(), SelectedTab::Tab3);
    assert_eq!(app.step_at(plain('h'), SECOND), Command::Continue);
    app.next_tab();
    assert_eq!(app.step_at(plain('h'), SECOND), Command::Continue);
    assert_eq!(app.typing_test().index(), 0);
    assert_eq!(app.state(), AppState::StartScreen);
}

#[test]
fn the_options_tab_selects_and_changes() {
    let mut app = app("hello");
    app.next_tab();
    assert_eq!(app.step_at(key(KeyCode::Up, NONE), SECOND), Command::Continue);
    assert_eq!(app.options_state().selected_option(), 4);
    assert_eq!(app.step_at(key(KeyCode::Right, NONE), SECOND), Command::Reload);
    assert_eq!(app.options().ui_language, Language::De);
    assert_eq!(app.step_at(key(KeyCode::Down, NONE), SECOND), Command::Continue);
    assert_eq!(app.options_state().selected_option(), 0);
    assert_eq!(app.step_at(plain('h'), SECOND), Command::Reload);
    assert_eq!(app.options().test_language, Language::De);
    assert_eq!(app.step_at(plain('j'), SECOND), Command::Continue);
    assert_eq!(app.options_state().selected_option(), 1);
    assert_eq!(app.step_at(plain('l'), SECOND), Command::Reload);
    assert_eq!(app.options().test_type, TestType::RandomWords10K);
    assert_eq!(app.step_at(key(KeyCode::Left, NONE), SECOND), Command::Reload);
    assert_eq!(app.step_at(key(KeyCode::Left, NONE), SECOND), Command::Reload);
    assert_eq!(app.options().test_type, TestType::RandomWords);
    assert_eq!(app.step_at(key(KeyCode::Left, NONE), SECOND), Command::Reload);
    assert_eq!(app.options().test_type, TestType::Jokes);
    app.step_at(plain('j'), SECOND);
    assert_eq!(app.step_at(key(KeyCode::Right, NONE), SECOND), Command::Reload);
    assert!(app.options().time_race_enabled);
    assert_eq!(app.step_at(key(KeyCode::Left, NONE), SECOND), Command::Reload);
    assert!(!app.options().time_race_enabled);
    app.step_at(plain('j'), SECOND);
    assert_eq!(app.step_at(key(KeyCode::Right, NONE), SECOND), Command::Reload);
    assert!(app.options().hardcore_enabled);
    assert_eq!(app.step_at(plain('k'), SECOND), Command::Continue);
    assert_eq!(app.options_state().selected_option(), 2);
    assert_eq!(app.typing_test().index(), 0);
}

#[test]
fn the_options_tab_takes_no_modified_keys() {
    let mut app = app("hello");
    app.next_tab();
    assert_eq!(app.step_at(key(KeyCode::Down, SHIFT), SECOND), Command::Continue);
    assert_eq!(app.step_at(key(KeyCode::Right, ALT), SECOND), Command::Continue);
    assert_eq!(app.step_at(key(KeyCode::Other, NONE), SECOND), Command::Continue);
    assert_eq!(app.step_at(plain('x'), SECOND), Command::Continue);
    assert_eq!(app.options_state().selected_option(), 0);
    assert_eq!(*app.options(), AppOptions::new());
}

#[test]
fn a_running_test_is_measured_every_second() {
    let mut app = app("hello world");
    app.step_at(plain('h'), 10 * SECOND);
    assert_eq!(app.state(), AppState::RunningTest);
    assert_eq!(app.typing_test().get_all_test_data().len(), 1);
    app.step_at(None, 10 * SECOND + SECOND / 2);
    assert_eq!(app.typing_test().get_all_test_data().len(), 1);
    app.tick(10 * SECOND + SECOND - 1);
    assert_eq!(app.typing_test().get_all_test_data().len(), 1);
    app.step_at(None, 11 * SECOND);
    assert_eq!(app.typing_test().get_all_test_data().len(), 2);
    app.step_at(None, 11 * SECOND + SECOND / 2);
    assert_eq!(app.typing_test().get_all_test_data().len(), 2);
    app.step_at(None, 14 * SECOND + SECOND / 2);
    let history = app.typing_test().get_all_test_data();
    assert_eq!(history.len(), 5);
    for (second, data) in history.iter().enumerate() {
        assert_eq!(data.timestamp, second as u64);
    }
}

#[test]
fn nothing_is_measured_on_the_start_screen() {
    let mut app = app("hello world");
    app.step_at(None, 5 * SECOND);
    app.tick(9 * SECOND);
    assert_eq!(app.state(), AppState::StartScreen);
    assert!(app.typing_test().get_all_test_data().is_empty());
}

#[test]
fn a_round_by_the_clock_takes_a_key() {
    let mut app = app("hello");
    assert!(app.accepts_keys());
    assert_eq!(app.step(plain('h')), Command::Continue);
    assert_eq!(app.state(), AppState::RunningTest);
    assert!(app.typing_test().start_time().is_some());
    assert!(app.now() >= app.typing_test().start_time().unwrap_or(0));
}

#[test]
fn handling_a_key_alone_moves_no_screen() {
    let mut app = app("hi");
    assert_eq!(app.handle_key_event(KeyEvent { code: KeyCode::Char('h'), modifiers: NONE, pressed: true }, SECOND), Command::Continue);
    assert_eq!(app.state(), AppState::StartScreen);
    app.advance(SECOND);
    assert_eq!(app.state(), AppState::RunningTest);
    app.handle_key_event(KeyEvent { code: KeyCode::Char('i'), modifiers: NONE, pressed: true }, 2 * SECOND);
    assert_eq!(app.state(), AppState::RunningTest);
    app.advance(2 * SECOND);
    assert_eq!(app.state(), AppState::EndScreen);
}
