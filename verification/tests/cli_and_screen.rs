use arduino_tui::app::{App, AppEvent, AppMode};
use arduino_tui::cli::{cli_args, command_status, list_reply, search_reply, CliCommand, CLI_PROGRAM};
use arduino_tui::layout::{centered_constraints, centered_rect, screen_areas, Area, Portion};
use arduino_tui::library::{
    libraries_from_list, libraries_from_search, LibraryInfo, ListInstalledLibrary, ListLibraryData,
    ListResult, SearchLibrary, SearchRelease, SearchResult,
};
use arduino_tui::screen::{
    detail_lines, help_lines, highlight_symbol, list_item, pane_title, search_title, search_tone,
    shows_help, status_tone, Pane, Segment, Tone,
};
use arduino_tui::text::decimal_string;

fn texts(line: &[Segment]) -> Vec<(String, Tone)> {
    line.iter().map(|s| (s.text.clone(), s.tone)).collect()
}

fn search_lib(name: &str, version: &str) -> SearchLibrary {
    SearchLibrary {
        name: name.to_string(),
        latest: SearchRelease {
            author: Some("Arduino".to_string()),
            version: version.to_string(),
            sentence: None,
            category: Some("Device Control".to_string()),
        },
    }
}

fn list_lib(name: &str) -> ListInstalledLibrary {
    ListInstalledLibrary {
        library: ListLibraryData {
            name: name.to_string(),
            version: "2.0.1".to_string(),
            author: None,
            sentence: Some("Talks I2C.".to_string()),
            category: None,
        },
    }
}

#[test]
fn program_is_arduino_cli() {
    assert_eq!(CLI_PROGRAM, "arduino-cli");
}

#[test]
fn search_args_include_query_and_json() {
    let args = cli_args(&CliCommand::Search("servo motor".to_string()));
    assert_eq!(args, vec!["lib", "search", "servo motor", "--format", "json"]);
}

#[test]
fn search_args_leave_out_empty_query() {
    let args = cli_args(&CliCommand::Search(String::new()));
    assert_eq!(args, vec!["lib", "search", "--format", "json"]);
}

#[test]
fn list_install_uninstall_args() {
    assert_eq!(cli_args(&CliCommand::ListInstalled), vec!["lib", "list", "--format", "json"]);
    assert_eq!(cli_args(&CliCommand::Install("Servo".to_string())), vec!["lib", "install", "Servo"]);
    assert_eq!(
        cli_args(&CliCommand::Uninstall("Servo".to_string())),
        vec!["lib", "uninstall", "Servo"]
    );
}

#[test]
fn successful_command_status_is_ok() {
    assert_eq!(command_status(true, b"ignored"), Ok(()));
}

#[test]
fn failed_command_reports_stderr() {
    assert_eq!(
        command_status(false, b"Error: library not found"),
        Err("Error: library not found".to_string())
    );
}

#[test]
fn failed_command_with_invalid_utf8_uses_replacement() {
    assert_eq!(command_status(false, &[b'a', 0xff, b'b']), Err("a\u{FFFD}b".to_string()));
}

#[test]
fn search_results_are_not_installed() {
    let libs = libraries_from_search(SearchResult {
        libraries: vec![search_lib("Servo", "1.2.1"), search_lib("Stepper", "1.1.3")],
    });
    assert_eq!(libs.len(), 2);
    assert_eq!(libs[0].name, "Servo");
    assert_eq!(libs[0].version, "1.2.1");
    assert_eq!(libs[0].author.as_deref(), Some("Arduino"));
    assert_eq!(libs[0].category.as_deref(), Some("Device Control"));
    assert_eq!(libs[0].sentence, None);
    assert_eq!(libs[1].name, "Stepper");
    assert!(libs.iter().all(|l| !l.is_installed));
}

#[test]
fn listed_libraries_are_installed() {
    let libs = libraries_from_list(ListResult { installed_libraries: Some(vec![list_lib("Wire")]) });
    assert_eq!(libs.len(), 1);
    assert_eq!(libs[0].name, "Wire");
    assert_eq!(libs[0].version, "2.0.1");
    assert_eq!(libs[0].sentence.as_deref(), Some("Talks I2C."));
    assert!(libs[0].is_installed);
}

#[test]
fn missing_installed_list_means_none() {
    let libs = libraries_from_list(ListResult { installed_libraries: None });
    assert!(libs.is_empty());
}

#[test]
fn replies_pass_parse_errors_through() {
    assert_eq!(search_reply(Err("bad json".to_string())).unwrap_err(), "bad json");
    assert_eq!(list_reply(Err("eof".to_string())).unwrap_err(), "eof");
    assert_eq!(search_reply(Ok(SearchResult { libraries: vec![search_lib("A", "1")] })).unwrap().len(), 1);
    assert_eq!(list_reply(Ok(ListResult { installed_libraries: None })).unwrap().len(), 0);
}

#[test]
fn decimal_strings() {
    assert_eq!(decimal_string(0), "0");
    assert_eq!(decimal_string(7), "7");
    assert_eq!(decimal_string(10), "10");
    assert_eq!(decimal_string(4096), "4096");
    assert_eq!(decimal_string(usize::MAX), usize::MAX.to_string());
}

#[test]
fn centered_constraints_split_the_margin() {
    assert_eq!(centered_constraints(60), vec![Portion::Percentage(20), Portion::Percentage(60), Portion::Percentage(20)]);
    assert_eq!(centered_constraints(55), vec![Portion::Percentage(22), Portion::Percentage(55), Portion::Percentage(22)]);
    assert_eq!(centered_constraints(100), vec![Portion::Percentage(0), Portion::Percentage(100), Portion::Percentage(0)]);
}

#[test]
fn centered_rect_is_in_the_middle() {
    let r = centered_rect(60, 60, Area { x: 0, y: 0, width: 100, height: 50 });
    assert_eq!(r, Area { x: 20, y: 10, width: 60, height: 30 });
}

#[test]
fn titles_and_tones() {
    assert_eq!(search_title(AppMode::Search), " Search (Press Enter to search, Esc to cancel) ");
    assert_eq!(search_title(AppMode::Normal), " Search (Press '/' to search) ");
    assert_eq!(search_title(AppMode::Help), "(Press 'esc' to go back) ");
    assert_eq!(search_tone(AppMode::Search), Tone::Editing);
    assert_eq!(search_tone(AppMode::Help), Tone::Plain);
    assert_eq!(status_tone(true), Tone::Busy);
    assert_eq!(status_tone(false), Tone::Idle);
    assert!(shows_help(AppMode::Help));
    assert!(!shows_help(AppMode::Normal));
}

#[test]
fn list_items_show_installed_marker() {
    let mut l = LibraryInfo {
        name: "Servo".to_string(),
        version: "1".to_string(),
        author: None,
        sentence: None,
        category: None,
        is_installed: true,
    };
    assert_eq!(
        texts(&list_item(&l)),
        vec![("[I] ".to_string(), Tone::Installed), ("Servo".to_string(), Tone::Plain)]
    );
    l.is_installed = false;
    assert_eq!(texts(&list_item(&l))[0], ("[ ] ".to_string(), Tone::NotInstalled));
}

#[test]
fn details_without_selection() {
    let app = App::new();
    let lines = detail_lines(&app);
    assert_eq!(lines.len(), 1);
    assert_eq!(texts(&lines[0]), vec![("No library selected".to_string(), Tone::Plain)]);
}

#[test]
fn details_of_full_library() {
    let mut app = App::new();
    app.handle_event(AppEvent::LibrariesLoaded(vec![LibraryInfo {
        name: "Servo".to_string(),
        version: "1.2.1".to_string(),
        author: Some("Michael Margolis".to_string()),
        sentence: Some("Controls servo motors.".to_string()),
        category: Some("Device Control".to_string()),
        is_installed: false,
    }]));
    let lines: Vec<Vec<(String, Tone)>> = detail_lines(&app).iter().map(|l| texts(l)).collect();
    let b = |s: &str| (s.to_string(), Tone::Bold);
    let p = |s: &str| (s.to_string(), Tone::Plain);
    assert_eq!(
        lines,
        vec![
            vec![b("Name: "), p("Servo")],
            vec![b("Version: "), p("1.2.1")],
            vec![b("Author: "), p("Michael Margolis")],
            vec![b("Category: "), p("Device Control")],
            vec![p("")],
            vec![b("Description:")],
            vec![p("Controls servo motors.")],
            vec![p("")],
            vec![("Status: Not Installed".to_string(), Tone::NotInstalled)],
        ]
    );
}

#[test]
fn details_of_bare_installed_library() {
    let mut app = App::new();
    app.handle_event(AppEvent::LibrariesLoaded(vec![LibraryInfo {
        name: "Wire".to_string(),
        version: "1.0".to_string(),
        author: None,
        sentence: None,
        category: None,
        is_installed: true,
    }]));
    let lines = detail_lines(&app);
    assert_eq!(lines.len(), 4);
    assert_eq!(texts(&lines[3]), vec![("Status: Installed".to_string(), Tone::Installed)]);
}

#[test]
fn help_text_lines() {
    let lines = help_lines();
    assert_eq!(lines.len(), 12);
    assert_eq!(texts(&lines[0]), vec![("Navigation".to_string(), Tone::Bold)]);
    assert_eq!(texts(&lines[11]), vec![("  q          : Quit application".to_string(), Tone::Plain)]);
}

#[test]
fn centered_rect_in_offset_area() {
    let r = centered_rect(50, 50, Area { x: 10, y: 4, width: 40, height: 20 });
    assert_eq!(r, Area { x: 20, y: 9, width: 20, height: 10 });
}

#[test]
fn screen_panes() {
    let panes = screen_areas(Area { x: 0, y: 0, width: 100, height: 30 });
    assert_eq!(panes.search, Area { x: 0, y: 0, width: 100, height: 3 });
    assert_eq!(panes.list, Area { x: 0, y: 3, width: 40, height: 24 });
    assert_eq!(panes.details, Area { x: 40, y: 3, width: 60, height: 24 });
    assert_eq!(panes.status, Area { x: 0, y: 27, width: 100, height: 3 });
}

#[test]
fn pane_titles_and_highlight() {
    assert_eq!(pane_title(Pane::List), " Libraries ");
    assert_eq!(pane_title(Pane::Details), " Details ");
    assert_eq!(pane_title(Pane::Status), " Status ");
    assert_eq!(pane_title(Pane::Help), " Help (Press Esc to close) ");
    assert_eq!(highlight_symbol(), ">> ");
}
