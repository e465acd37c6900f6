use arduino_tui::app::{change_event, listing_event, Action, App, AppEvent, AppMode, Key};
use arduino_tui::library::LibraryInfo;

fn lib(name: &str, installed: bool) -> LibraryInfo {
    LibraryInfo {
        name: name.to_string(),
        version: "1.0.0".to_string(),
        author: None,
        sentence: None,
        category: None,
        is_installed: installed,
    }
}

fn press(code: Key) -> AppEvent {
    AppEvent::Key { code, press: true }
}

fn loaded(names: &[&str]) -> App {
    let mut app = App::new();
    let libs = names.iter().map(|n| lib(n, false)).collect();
    app.handle_event(AppEvent::LibrariesLoaded(libs));
    app
}

fn is_nothing(a: &Action) -> bool {
    matches!(a, Action::Nothing)
}

#[test]
fn new_app_starts_loading_with_welcome() {
    let app = App::new();
    assert_eq!(app.mode, AppMode::Normal);
    assert!(app.search_input.is_empty());
    assert!(app.libraries.is_empty());
    assert_eq!(app.selected, None);
    assert!(app.is_loading);
    assert_eq!(
        app.status_message,
        "Press '?' for help, '/' to search, 'i' to install, 'u' to uninstall, 'q' to quit"
    );
}

#[test]
fn loading_libraries_selects_first_and_counts() {
    let app = loaded(&["Servo", "Wire", "SPI"]);
    assert_eq!(app.libraries.len(), 3);
    assert_eq!(app.selected, Some(0));
    assert!(!app.is_loading);
    assert_eq!(app.status_message, "Found 3 libraries.");
}

#[test]
fn loading_nothing_clears_selection() {
    let mut app = loaded(&["Servo"]);
    app.handle_event(AppEvent::LibrariesLoaded(Vec::new()));
    assert_eq!(app.selected, None);
    assert_eq!(app.status_message, "Found 0 libraries.");
}

#[test]
fn count_with_several_digits() {
    let names: Vec<String> = (0..120).map(|i| format!("Lib{}", i)).collect();
    let refs: Vec<&str> = names.iter().map(|s| s.as_str()).collect();
    let app = loaded(&refs);
    assert_eq!(app.status_message, "Found 120 libraries.");
}

#[test]
fn down_wraps_to_first() {
    let mut app = loaded(&["A", "B", "C"]);
    app.handle_event(press(Key::Down));
    assert_eq!(app.selected, Some(1));
    app.handle_event(press(Key::Char('j')));
    assert_eq!(app.selected, Some(2));
    app.handle_event(press(Key::Down));
    assert_eq!(app.selected, Some(0));
}

#[test]
fn up_wraps_to_last() {
    let mut app = loaded(&["A", "B", "C"]);
    app.handle_event(press(Key::Up));
    assert_eq!(app.selected, Some(2));
    app.handle_event(press(Key::Char('k')));
    assert_eq!(app.selected, Some(1));
}

#[test]
fn up_undoes_down() {
    let mut app = loaded(&["A", "B", "C"]);
    app.handle_event(press(Key::Down));
    app.handle_event(press(Key::Down));
    app.handle_event(press(Key::Up));
    assert_eq!(app.selected, Some(1));
    app.handle_event(press(Key::Char('j')));
    app.handle_event(press(Key::Char('j')));
    app.handle_event(press(Key::Char('k')));
    assert_eq!(app.selected, Some(2));
}

#[test]
fn next_on_empty_list_selects_zero() {
    let mut app = App::new();
    app.next();
    assert_eq!(app.selected, Some(0));
    app.next();
    assert_eq!(app.selected, Some(0));
    app.previous();
    assert_eq!(app.selected, Some(0));
}

#[test]
fn previous_without_selection_selects_zero() {
    let mut app = loaded(&["A", "B"]);
    app.selected = None;
    app.previous();
    assert_eq!(app.selected, Some(0));
}

#[test]
fn q_quits_in_normal_mode_only() {
    let mut app = loaded(&["A"]);
    assert!(matches!(app.handle_event(press(Key::Char('q'))), Action::Quit));
    app.handle_event(press(Key::Char('/')));
    assert_eq!(app.mode, AppMode::Search);
    assert!(is_nothing(&app.handle_event(press(Key::Char('q')))));
    assert_eq!(app.search_input, "q");
}

#[test]
fn released_keys_do_nothing() {
    let mut app = loaded(&["A", "B"]);
    let a = app.handle_event(AppEvent::Key { code: Key::Char('q'), press: false });
    assert!(is_nothing(&a));
    app.handle_event(AppEvent::Key { code: Key::Down, press: false });
    assert_eq!(app.selected, Some(0));
}

#[test]
fn ticks_and_other_input_change_nothing() {
    let mut app = loaded(&["A", "B"]);
    assert!(is_nothing(&app.handle_event(AppEvent::Tick)));
    assert!(is_nothing(&app.handle_event(AppEvent::OtherInput)));
    assert_eq!(app.selected, Some(0));
    assert_eq!(app.status_message, "Found 2 libraries.");
}

#[test]
fn help_toggles_with_question_mark_and_h() {
    let mut app = loaded(&["A"]);
    app.handle_event(press(Key::Char('?')));
    assert_eq!(app.mode, AppMode::Help);
    app.handle_event(press(Key::Char('x')));
    assert_eq!(app.mode, AppMode::Help);
    app.handle_event(press(Key::Char('?')));
    assert_eq!(app.mode, AppMode::Normal);
    app.handle_event(press(Key::Char('h')));
    assert_eq!(app.mode, AppMode::Help);
    app.handle_event(press(Key::Esc));
    assert_eq!(app.mode, AppMode::Normal);
    app.handle_event(press(Key::Char('h')));
    let a = app.handle_event(press(Key::Char('q')));
    assert!(is_nothing(&a));
    assert_eq!(app.mode, AppMode::Normal);
}

#[test]
fn typing_and_backspace_edit_the_query() {
    let mut app = loaded(&["A"]);
    app.handle_event(press(Key::Char('/')));
    for c in "servo".chars() {
        app.handle_event(press(Key::Char(c)));
    }
    assert_eq!(app.search_input, "servo");
    app.handle_event(press(Key::Backspace));
    assert_eq!(app.search_input, "serv");
    app.handle_event(press(Key::Char('o')));
    app.handle_event(press(Key::Backspace));
    assert_eq!(app.search_input, "serv");
}

#[test]
fn backspace_on_empty_query_does_nothing() {
    let mut app = loaded(&["A"]);
    app.handle_event(press(Key::Char('/')));
    app.handle_event(press(Key::Backspace));
    assert_eq!(app.search_input, "");
    assert_eq!(app.mode, AppMode::Search);
}

#[test]
fn enter_searches_for_the_query() {
    let mut app = loaded(&["A"]);
    app.handle_event(press(Key::Char('/')));
    for c in "servo".chars() {
        app.handle_event(press(Key::Char(c)));
    }
    match app.handle_event(press(Key::Enter)) {
        Action::Search(q) => assert_eq!(q, "servo"),
        _ => panic!("expected a search"),
    }
    assert_eq!(app.mode, AppMode::Normal);
    assert_eq!(app.search_input, "servo");
    assert!(app.is_loading);
    assert_eq!(app.status_message, "Searching for 'servo'...");
}

#[test]
fn enter_with_empty_query_lists_installed() {
    let mut app = loaded(&["A"]);
    app.handle_event(press(Key::Char('/')));
    let a = app.handle_event(press(Key::Enter));
    assert!(matches!(a, Action::LoadInstalled));
    assert_eq!(app.status_message, "Loading installed libraries...");
    assert!(app.is_loading);
}

#[test]
fn esc_in_search_clears_query_and_reloads() {
    let mut app = loaded(&["A"]);
    app.handle_event(press(Key::Char('/')));
    app.handle_event(press(Key::Char('w')));
    let a = app.handle_event(press(Key::Esc));
    assert!(matches!(a, Action::LoadInstalled));
    assert_eq!(app.mode, AppMode::Normal);
    assert_eq!(app.search_input, "");
    assert_eq!(app.status_message, "Loading installed libraries...");
    assert!(app.is_loading);
}

#[test]
fn esc_in_search_with_empty_query_only_leaves() {
    let mut app = loaded(&["A"]);
    app.handle_event(press(Key::Char('/')));
    let a = app.handle_event(press(Key::Esc));
    assert!(is_nothing(&a));
    assert_eq!(app.mode, AppMode::Normal);
    assert!(!app.is_loading);
}

#[test]
fn esc_in_normal_mode_after_search_reloads() {
    let mut app = loaded(&["A"]);
    app.handle_event(press(Key::Char('/')));
    app.handle_event(press(Key::Char('w')));
    app.handle_event(press(Key::Enter));
    app.handle_event(AppEvent::LibrariesLoaded(vec![lib("Wire", false)]));
    let a = app.handle_event(press(Key::Esc));
    assert!(matches!(a, Action::LoadInstalled));
    assert_eq!(app.search_input, "");
    let a = app.handle_event(press(Key::Esc));
    assert!(is_nothing(&a));
}

#[test]
fn install_acts_on_selected_library() {
    let mut app = loaded(&["Servo", "Wire"]);
    app.handle_event(press(Key::Down));
    match app.handle_event(press(Key::Char('i'))) {
        Action::Install(n) => assert_eq!(n, "Wire"),
        _ => panic!("expected an install"),
    }
    assert!(app.is_loading);
    assert_eq!(app.status_message, "Installing Wire...");
}

#[test]
fn uninstall_acts_on_selected_library() {
    let mut app = loaded(&["Servo", "Wire"]);
    match app.handle_event(press(Key::Char('u'))) {
        Action::Uninstall(n) => assert_eq!(n, "Servo"),
        _ => panic!("expected an uninstall"),
    }
    assert_eq!(app.status_message, "Uninstalling Servo...");
}

#[test]
fn install_without_selection_does_nothing() {
    let mut app = App::new();
    assert!(is_nothing(&app.handle_event(press(Key::Char('i')))));
    app.next();
    assert!(is_nothing(&app.handle_event(press(Key::Char('u')))));
    assert_eq!(
        app.status_message,
        "Press '?' for help, '/' to search, 'i' to install, 'u' to uninstall, 'q' to quit"
    );
}

#[test]
fn installed_reply_marks_first_library_of_that_name() {
    let mut app = App::new();
    app.handle_event(AppEvent::LibrariesLoaded(vec![
        lib("Servo", false),
        lib("Wire", false),
        lib("Wire", false),
    ]));
    app.handle_event(AppEvent::LibraryInstalled("Wire".to_string()));
    assert!(!app.libraries[0].is_installed);
    assert!(app.libraries[1].is_installed);
    assert!(!app.libraries[2].is_installed);
    assert!(!app.is_loading);
    assert_eq!(app.status_message, "Successfully installed Wire.");
}

#[test]
fn uninstall_reply_undoes_install_reply() {
    let mut app = loaded(&["Servo", "Wire"]);
    app.handle_event(AppEvent::LibraryInstalled("Servo".to_string()));
    assert!(app.libraries[0].is_installed);
    app.handle_event(AppEvent::LibraryUninstalled("Servo".to_string()));
    assert!(!app.libraries[0].is_installed);
    assert!(!app.libraries[1].is_installed);
    assert_eq!(app.status_message, "Successfully uninstalled Servo.");
}

#[test]
fn reply_for_unknown_library_only_reports() {
    let mut app = loaded(&["Servo"]);
    app.handle_event(AppEvent::LibraryInstalled("Nope".to_string()));
    assert!(!app.libraries[0].is_installed);
    assert_eq!(app.status_message, "Successfully installed Nope.");
}

#[test]
fn command_error_is_reported() {
    let mut app = loaded(&["Servo"]);
    app.handle_event(press(Key::Char('i')));
    assert!(app.is_loading);
    app.handle_event(AppEvent::CommandError("no network".to_string()));
    assert!(!app.is_loading);
    assert_eq!(app.status_message, "Error: no network");
}

#[test]
fn replies_become_events() {
    match listing_event(Ok(vec![lib("A", true)])) {
        AppEvent::LibrariesLoaded(v) => assert_eq!(v.len(), 1),
        _ => panic!("expected a listing"),
    }
    assert!(matches!(listing_event(Err("x".to_string())), AppEvent::CommandError(m) if m == "x"));
    assert!(matches!(change_event("A".to_string(), true, Ok(())), AppEvent::LibraryInstalled(n) if n == "A"));
    assert!(matches!(change_event("A".to_string(), false, Ok(())), AppEvent::LibraryUninstalled(n) if n == "A"));
    assert!(matches!(change_event("A".to_string(), true, Err("e".to_string())), AppEvent::CommandError(m) if m == "e"));
}

#[test]
fn full_round_from_middle_visits_each_once() {
    let mut app = loaded(&["A", "B", "C", "D"]);
    app.selected = Some(2);
    let mut seen = Vec::new();
    for _ in 0..4 {
        app.next();
        seen.push(app.selected.unwrap());
    }
    assert_eq!(seen, vec![3, 0, 1, 2]);
    assert_eq!(app.selected, Some(2));
}
