use tmux_portal::app::{App, Command, KeyCode, KeyEvent, Mode, Outcome};
use tmux_portal::config::Config;
use tmux_portal::search::{DirNode, SearchPattern, SearchProvider};
use tmux_portal::tmux::{TmuxSession, TmuxWindow};
use tmux_portal::tree::LineType;

fn app_session(name: &str, windows: &[(&str, &str, bool)]) -> TmuxSession {
    TmuxSession {
        name: name.to_string(),
        windows: windows
            .iter()
            .map(|(id, w, active)| TmuxWindow {
                id: id.to_string(),
                name: w.to_string(),
                session_name: name.to_string(),
                active: *active,
            })
            .collect(),
    }
}

fn fresh() -> App {
    App::new(Config::default(), SearchProvider::new(Vec::new()), Vec::new())
}

fn two_sessions() -> Vec<TmuxSession> {
    vec![
        app_session("work", &[("@1", "editor", false), ("@2", "server", true)]),
        app_session("chat", &[("@3", "irc", true)]),
    ]
}

fn loaded() -> App {
    let mut app = fresh();
    app.refresh_sessions(two_sessions(), Some("work".to_string()));
    app
}

fn key(code: KeyCode) -> KeyEvent {
    KeyEvent { code, shift: false, control: false }
}

fn ch(c: char) -> KeyEvent {
    key(KeyCode::Char(c))
}

fn shown(command: &Command) -> String {
    format!("{command:?}")
}

fn refreshed(sessions: Vec<TmuxSession>) -> Outcome {
    Outcome::Refreshed { sessions, attached: None }
}

#[test]
fn new_state() {
    let app = fresh();
    assert_eq!(app.mode, Mode::Window);
    assert_eq!(app.previous_mode, Mode::Window);
    assert!(app.sessions.is_empty() && app.tree_lines.is_empty());
    assert_eq!((app.selected_index, app.scroll_offset), (0, 0));
    assert!(app.error_message.is_none() && !app.show_popup && app.popup_input.is_empty());
    assert!(app.auto_position_on_active);
    assert!(app.history.is_empty());
}

#[test]
fn empty_session_list_survives_every_key() {
    let mut codes = vec![
        KeyCode::Esc,
        KeyCode::Enter,
        KeyCode::Backspace,
        KeyCode::Up,
        KeyCode::Down,
        KeyCode::Other,
    ];
    for c in " qjkgGrxRFSJKC/,0123456789yYnNaz".chars() {
        codes.push(KeyCode::Char(c));
    }
    for start in ['\0', 'S', '/', 'F', 'r', 'x'] {
        for code in &codes {
            for (shift, control) in [(false, false), (true, false), (false, true)] {
                let mut app = fresh();
                app.refresh_sessions(Vec::new(), None);
                assert!(app.tree_lines.is_empty());
                assert_eq!(app.selected_index, 0);
                if start != '\0' {
                    app.handle_key(ch(start));
                }
                let command = app.handle_key(KeyEvent { code: *code, shift, control });
                let _ = app.complete(&command, Outcome::Failed("no server".to_string()));
                app.update_scroll_offset(10);
                assert_eq!(app.selected_index, 0);
                assert_eq!(app.scroll_offset, 0);
                assert!(app.get_window_line_numbers().is_empty());
            }
        }
    }
}

#[test]
fn startup_selects_the_active_window() {
    let mut app = fresh();
    app.refresh_sessions(
        vec![app_session("dev", &[("@1", "A", true), ("@2", "B", false)])],
        Some("dev".to_string()),
    );
    assert_eq!(app.selected_index, 1);
    assert!(!app.auto_position_on_active);
    let mut app = fresh();
    app.refresh_sessions(vec![app_session("dev", &[("@1", "A", true), ("@2", "B", false)])], None);
    assert_eq!(app.selected_index, 1);
    let app = loaded();
    assert_eq!(app.selected_index, 2);
    let mut app = fresh();
    app.refresh_sessions(two_sessions(), Some("chat".to_string()));
    assert_eq!(app.selected_index, 4);
    let mut app = fresh();
    app.refresh_sessions(two_sessions(), None);
    assert_eq!(app.selected_index, 2);
    let mut app = fresh();
    app.refresh_sessions(
        vec![app_session("a", &[("@1", "x", false)]), app_session("b", &[])],
        Some("b".to_string()),
    );
    assert_eq!(app.selected_index, 1);
    let mut app = fresh();
    app.refresh_sessions(
        vec![app_session("a", &[]), app_session("b", &[])],
        Some("b".to_string()),
    );
    assert_eq!(app.selected_index, 0);
    app.selected_index = 1;
    app.refresh_sessions(two_sessions(), Some("chat".to_string()));
    assert_eq!(app.selected_index, 1);
}

#[test]
fn selection_is_repaired_onto_a_window() {
    for start in 0..9 {
        let mut app = loaded();
        app.selected_index = start;
        app.ensure_valid_selection();
        let expected = match start {
            0 | 1 => 1,
            2 => 2,
            3 | 4 => 4,
            _ => 1,
        };
        assert_eq!(app.selected_index, expected);
        assert_eq!(app.tree_lines[app.selected_index].line_type, LineType::Window);
    }
    let mut app = fresh();
    app.refresh_sessions(vec![app_session("a", &[]), app_session("b", &[])], None);
    app.selected_index = 1;
    app.ensure_valid_selection();
    assert_eq!(app.selected_index, 0);
    app.selected_index = 7;
    app.ensure_valid_selection();
    assert_eq!(app.selected_index, 0);
}

#[test]
fn scroll_keeps_the_selection_in_view() {
    let mut app = fresh();
    let many: Vec<(String, String)> =
        (0..40).map(|i| (format!("@{i}"), format!("w{i}"))).collect();
    let windows: Vec<(&str, &str, bool)> =
        many.iter().map(|(id, name)| (id.as_str(), name.as_str(), false)).collect();
    app.refresh_sessions(vec![app_session("big", &windows)], None);
    for height in 1..12 {
        for offset in [0, 3, 20, 40, 60] {
            for selected in [0, 1, 5, 19, 20, 21, 40] {
                app.selected_index = selected;
                app.scroll_offset = offset;
                app.update_scroll_offset(height);
                assert!(app.scroll_offset <= selected);
                assert!(selected < app.scroll_offset + height);
            }
        }
    }
    app.selected_index = 20;
    app.scroll_offset = 3;
    app.update_scroll_offset(10);
    assert_eq!(app.scroll_offset, 12);
    app.scroll_offset = 15;
    app.update_scroll_offset(10);
    assert_eq!(app.scroll_offset, 15);
    app.scroll_offset = 12;
    app.update_scroll_offset(10);
    assert_eq!(app.scroll_offset, 12);
    app.scroll_offset = 11;
    app.update_scroll_offset(10);
    assert_eq!(app.scroll_offset, 12);
    app.scroll_offset = 30;
    app.update_scroll_offset(10);
    assert_eq!(app.scroll_offset, 20);
    app.update_scroll_offset(0);
    assert_eq!(app.scroll_offset, 0);
    app.selected_index = 2;
    app.scroll_offset = 0;
    app.update_scroll_offset(1);
    assert_eq!(app.scroll_offset, 2);
    app.update_scroll_offset(2);
    assert_eq!(app.scroll_offset, 2);
}

#[test]
fn window_mode_moves_between_windows() {
    let mut app = loaded();
    assert_eq!(app.selected_index, 2);
    assert_eq!(shown(&app.handle_key(ch('j'))), "Continue");
    assert_eq!(app.selected_index, 4);
    app.handle_key(key(KeyCode::Down));
    assert_eq!(app.selected_index, 4);
    app.handle_key(ch('k'));
    assert_eq!(app.selected_index, 2);
    app.handle_key(key(KeyCode::Up));
    assert_eq!(app.selected_index, 1);
    app.handle_key(ch('k'));
    assert_eq!(app.selected_index, 1);
    app.handle_key(ch('G'));
    assert_eq!(app.selected_index, 4);
    app.handle_key(ch('g'));
    assert_eq!(app.selected_index, 4);
    app.handle_key(KeyEvent { code: KeyCode::Char('g'), shift: false, control: true });
    assert_eq!(app.selected_index, 1);
    assert_eq!(shown(&app.handle_key(ch('q'))), "Quit");
    assert_eq!(shown(&app.handle_key(key(KeyCode::Esc))), "Quit");
    assert_eq!(shown(&app.handle_key(key(KeyCode::Other))), "Continue");
    assert_eq!(app.mode, Mode::Window);
}

#[test]
fn window_numbers_count_from_the_selection() {
    let mut app = loaded();
    app.selected_index = 2;
    let numbers = app.get_window_line_numbers();
    assert_eq!(numbers.len(), 3);
    assert_eq!(numbers[&1], -1);
    assert_eq!(numbers[&2], 0);
    assert_eq!(numbers[&4], 1);
    app.selected_index = 0;
    assert!(app.get_window_line_numbers().is_empty());
    app.selected_index = 9;
    assert!(app.get_window_line_numbers().is_empty());
}

#[test]
fn moving_a_window_stays_within_its_session() {
    let mut app = loaded();
    app.selected_index = 1;
    let before: Vec<String> = app.tree_lines.iter().map(|l| l.content.clone()).collect();
    let down = app.handle_key(ch('J'));
    match &down {
        Command::SwapWindows { session, first, second } => {
            assert_eq!((session.as_str(), first.as_str(), second.as_str()), ("work", "@1", "@2"));
        }
        other => panic!("{other:?}"),
    }
    let after: Vec<String> = app.tree_lines.iter().map(|l| l.content.clone()).collect();
    assert_eq!(before, after);
    assert_eq!(shown(&app.handle_key(ch('K'))), "Continue");
    app.selected_index = 2;
    match app.handle_key(KeyEvent { code: KeyCode::Up, shift: true, control: false }) {
        Command::SwapWindows { session, first, second } => {
            assert_eq!((session.as_str(), first.as_str(), second.as_str()), ("work", "@2", "@1"));
        }
        other => panic!("{other:?}"),
    }
    assert_eq!(
        shown(&app.handle_key(KeyEvent { code: KeyCode::Down, shift: true, control: false })),
        "Continue"
    );
    app.selected_index = 4;
    assert_eq!(shown(&app.handle_key(ch('K'))), "Continue");
    assert_eq!(shown(&app.handle_key(ch('J'))), "Continue");
    app.selected_index = 0;
    assert_eq!(shown(&app.handle_key(ch('J'))), "Continue");
    app.selected_index = 1;
    let swapped = vec![
        app_session("work", &[("@2", "server", true), ("@1", "editor", false)]),
        app_session("chat", &[("@3", "irc", true)]),
    ];
    assert_eq!(app.complete(&down, refreshed(swapped)), false);
    assert_eq!(app.selected_index, 2);
    assert_eq!(app.tree_lines[2].window.as_ref().unwrap().id, "@1");
    assert_eq!(app.complete(&down, Outcome::Failed("no".to_string())), false);
    assert_eq!(app.error_message.as_deref(), Some("Failed to swap windows: no"));
    assert_eq!(app.selected_index, 2);
    assert_eq!(app.complete(&down, Outcome::RefreshFailed("lost".to_string())), false);
    assert_eq!(app.error_message.as_deref(), Some("Failed to refresh sessions: lost"));
    assert_eq!(app.selected_index, 2);
}

#[test]
fn enter_switches_and_records_history() {
    let mut app = loaded();
    app.selected_index = 4;
    let command = app.handle_key(key(KeyCode::Enter));
    match &command {
        Command::SwitchToWindow { session, window_id, save_history } => {
            assert_eq!((session.as_str(), window_id.as_str(), *save_history), ("chat", "@3", true));
        }
        other => panic!("{other:?}"),
    }
    assert_eq!(app.history, vec![("chat".to_string(), "@3".to_string())]);
    assert_eq!(app.complete(&command, Outcome::Failed("gone".to_string())), false);
    assert_eq!(app.error_message.as_deref(), Some("Failed to switch: gone"));
    app.handle_key(ch('k'));
    assert!(app.error_message.is_none());
    let command = app.handle_key(key(KeyCode::Enter));
    assert_eq!(
        app.history,
        vec![("work".to_string(), "@2".to_string()), ("chat".to_string(), "@3".to_string())]
    );
    assert_eq!(app.complete(&command, Outcome::Done), true);
    app.selected_index = 0;
    assert_eq!(shown(&app.handle_key(key(KeyCode::Enter))), "Continue");
    assert_eq!(app.history.len(), 2);
}

#[test]
fn digits_jump_into_the_history() {
    let mut app = loaded();
    app.history = vec![
        ("work".to_string(), "@2".to_string()),
        ("chat".to_string(), "@3".to_string()),
    ];
    match app.handle_key(ch('0')) {
        Command::SwitchToWindow { session, window_id, save_history } => {
            assert_eq!((session.as_str(), window_id.as_str(), save_history), ("work", "@2", false));
        }
        other => panic!("{other:?}"),
    }
    match app.handle_key(ch('1')) {
        Command::SwitchToWindow { session, window_id, .. } => {
            assert_eq!((session.as_str(), window_id.as_str()), ("chat", "@3"));
        }
        other => panic!("{other:?}"),
    }
    assert_eq!(shown(&app.handle_key(ch('2'))), "Continue");
    assert_eq!(shown(&app.handle_key(ch('9'))), "Continue");
    assert_eq!(app.history.len(), 2);
    assert_eq!(shown(&app.jump_to_history(7)), "Continue");
}

#[test]
fn rename_of_a_window() {
    let mut app = loaded();
    app.selected_index = 1;
    app.handle_key(ch('r'));
    assert_eq!(app.mode, Mode::Rename);
    assert_eq!(app.previous_mode, Mode::Window);
    assert!(app.show_popup);
    assert_eq!(app.popup_input, "editor");
    for _ in 0..3 {
        app.handle_key(key(KeyCode::Backspace));
    }
    app.handle_key(ch('!'));
    assert_eq!(app.popup_input, "edi!");
    let command = app.handle_key(key(KeyCode::Enter));
    match &command {
        Command::RenameWindow { session, window_id, new_name } => {
            assert_eq!(
                (session.as_str(), window_id.as_str(), new_name.as_str()),
                ("work", "@1", "edi!")
            );
        }
        other => panic!("{other:?}"),
    }
    assert_eq!(app.mode, Mode::Rename);
    let renamed = vec![
        app_session("work", &[("@1", "edi!", false), ("@2", "server", true)]),
        app_session("chat", &[("@3", "irc", true)]),
    ];
    assert_eq!(app.complete(&command, refreshed(renamed)), false);
    assert_eq!(app.mode, Mode::Window);
    assert!(!app.show_popup && app.popup_input.is_empty());
    assert_eq!(app.tree_lines[1].content, "├── edi!");
    assert_eq!(app.selected_index, 1);

    app.handle_key(ch(','));
    assert_eq!(app.mode, Mode::Rename);
    let command = app.handle_key(key(KeyCode::Enter));
    assert_eq!(app.complete(&command, Outcome::Failed("busy".to_string())), false);
    assert_eq!(app.mode, Mode::Window);
    assert_eq!(app.error_message.as_deref(), Some("Failed to rename window: busy"));

    app.handle_key(ch('r'));
    for _ in 0..9 {
        app.handle_key(key(KeyCode::Backspace));
    }
    assert_eq!(app.popup_input, "");
    app.handle_key(key(KeyCode::Esc));
    assert_eq!(app.mode, Mode::Window);
    assert!(!app.show_popup);
}

#[test]
fn session_mode() {
    let mut app = loaded();
    app.handle_key(ch('S'));
    assert_eq!(app.mode, Mode::Session);
    assert_eq!(app.selected_index, 0);
    app.handle_key(ch('j'));
    assert_eq!(app.selected_index, 3);
    app.handle_key(ch('j'));
    assert_eq!(app.selected_index, 3);
    app.handle_key(ch('k'));
    assert_eq!(app.selected_index, 0);
    app.handle_key(ch('G'));
    assert_eq!(app.selected_index, 3);
    app.handle_key(ch('g'));
    assert_eq!(app.selected_index, 0);
    match app.handle_key(key(KeyCode::Enter)) {
        Command::SwitchToSession { session } => assert_eq!(session, "work"),
        other => panic!("{other:?}"),
    }
    app.handle_key(ch('J'));
    let names: Vec<&str> = app.sessions.iter().map(|s| s.name.as_str()).collect();
    assert_eq!(names, vec!["chat", "work"]);
    assert_eq!(app.selected_index, 2);
    assert_eq!(app.tree_lines[2].content, "work");
    assert_eq!(app.tree_lines[0].content, "chat");
    assert_eq!(app.tree_lines[1].content, "└── irc (active)");
    app.handle_key(ch('J'));
    assert_eq!(app.selected_index, 2);
    app.handle_key(ch('K'));
    let names: Vec<&str> = app.sessions.iter().map(|s| s.name.as_str()).collect();
    assert_eq!(names, vec!["work", "chat"]);
    assert_eq!(app.selected_index, 0);
    app.handle_key(ch('K'));
    assert_eq!(app.selected_index, 0);

    app.handle_key(ch('r'));
    assert_eq!((app.mode, app.previous_mode), (Mode::Rename, Mode::Session));
    assert_eq!(app.popup_input, "work");
    app.handle_key(ch('2'));
    let command = app.handle_key(key(KeyCode::Enter));
    match &command {
        Command::RenameSession { old_name, new_name } => {
            assert_eq!((old_name.as_str(), new_name.as_str()), ("work", "work2"));
        }
        other => panic!("{other:?}"),
    }
    let renamed = vec![
        app_session("chat", &[("@3", "irc", true)]),
        app_session("work2", &[("@1", "editor", false), ("@2", "server", true)]),
    ];
    assert_eq!(app.complete(&command, refreshed(renamed)), false);
    assert_eq!(app.mode, Mode::Session);
    assert_eq!(app.selected_index, 2);
    assert_eq!(app.tree_lines[2].content, "work2");

    app.handle_key(ch('r'));
    app.handle_key(key(KeyCode::Esc));
    assert_eq!(app.mode, Mode::Session);

    app.handle_key(ch('x'));
    assert_eq!((app.mode, app.previous_mode), (Mode::DeleteConfirm, Mode::Session));
    assert_eq!(app.popup_input, "Delete session 'work2'? (y/N)");
    let command = app.handle_key(ch('Y'));
    match &command {
        Command::KillSession { session } => assert_eq!(session, "work2"),
        other => panic!("{other:?}"),
    }
    let left = vec![app_session("chat", &[("@3", "irc", true)])];
    assert_eq!(app.complete(&command, refreshed(left)), false);
    assert_eq!(app.mode, Mode::Session);
    assert_eq!(app.selected_index, 0);
    assert_eq!(app.tree_lines.len(), 2);

    assert_eq!(shown(&app.handle_key(ch('R'))), "Refresh");
    assert_eq!(app.complete(&Command::Refresh, refreshed(two_sessions())), false);
    assert_eq!(app.selected_index, 0);
    app.handle_key(ch('q'));
    assert_eq!(app.mode, Mode::Window);
    assert_eq!(app.selected_index, 1);
    app.handle_key(ch('S'));
    app.handle_key(ch('G'));
    app.handle_key(key(KeyCode::Esc));
    assert_eq!((app.mode, app.selected_index), (Mode::Window, 4));
}

#[test]
fn deleting_the_only_window_of_a_session() {
    let mut app = fresh();
    app.refresh_sessions(
        vec![app_session("dev", &[("@1", "A", true)]), app_session("other", &[("@2", "X", false)])],
        Some("dev".to_string()),
    );
    assert_eq!(app.selected_index, 1);
    app.handle_key(ch('x'));
    assert_eq!((app.mode, app.previous_mode), (Mode::DeleteConfirm, Mode::Window));
    assert_eq!(app.popup_input, "Delete window 'A'? (y/N)");
    app.handle_key(ch('z'));
    assert_eq!(app.mode, Mode::DeleteConfirm);
    let command = app.handle_key(ch('y'));
    match &command {
        Command::DeleteWindow { session, window_id } => {
            assert_eq!((session.as_str(), window_id.as_str()), ("dev", "@1"));
        }
        other => panic!("{other:?}"),
    }
    let after = vec![app_session("dev", &[]), app_session("other", &[("@2", "X", false)])];
    assert_eq!(app.complete(&command, refreshed(after)), false);
    assert_eq!(app.mode, Mode::Window);
    assert!(!app.show_popup);
    let contents: Vec<&str> = app.tree_lines.iter().map(|l| l.content.as_str()).collect();
    assert_eq!(contents, vec!["dev", "other", "└── X"]);
    assert_eq!(app.selected_index, 2);

    let mut app = fresh();
    app.refresh_sessions(vec![app_session("dev", &[("@1", "A", true)])], None);
    app.handle_key(ch('x'));
    let command = app.handle_key(ch('y'));
    assert_eq!(app.complete(&command, refreshed(vec![app_session("dev", &[])])), false);
    assert_eq!(app.tree_lines.len(), 1);
    assert_eq!(app.tree_lines[0].content, "dev");
    assert_eq!(app.selected_index, 0);

    let mut app = loaded();
    app.handle_key(ch('x'));
    for answer in [key(KeyCode::Esc), ch('n'), ch('N'), key(KeyCode::Enter)] {
        app.handle_key(answer);
        assert_eq!(app.mode, Mode::Window);
        assert_eq!(app.tree_lines.len(), 5);
        app.handle_key(ch('x'));
        assert_eq!(app.mode, Mode::DeleteConfirm);
    }
    let command = app.handle_key(ch('y'));
    assert_eq!(app.complete(&command, Outcome::Failed("denied".to_string())), false);
    assert_eq!(app.error_message.as_deref(), Some("Failed to delete window: denied"));
    assert_eq!(app.mode, Mode::Window);
    app.handle_key(ch('x'));
    let command = app.handle_key(ch('y'));
    assert_eq!(app.complete(&command, Outcome::RefreshFailed("lost".to_string())), false);
    assert_eq!(app.error_message.as_deref(), Some("Failed to delete: lost"));
    assert_eq!(app.mode, Mode::Window);
}

#[test]
fn new_window_goes_to_the_attached_session() {
    let mut app = loaded();
    app.selected_index = 4;
    assert_eq!(shown(&app.handle_key(ch('C'))), "CreateWindow");
    let command = app.create_new_window(Some("work".to_string()));
    match &command {
        Command::NewWindow { session } => assert_eq!(session, "work"),
        other => panic!("{other:?}"),
    }
    let grown = vec![
        app_session("work", &[("@1", "editor", false), ("@2", "server", true), ("@9", "zsh", false)]),
        app_session("chat", &[("@3", "irc", true)]),
    ];
    assert_eq!(app.complete(&command, refreshed(grown)), false);
    assert_eq!(app.selected_index, 3);
    assert_eq!(app.tree_lines[3].window.as_ref().unwrap().id, "@9");
    app.selected_index = 5;
    match app.create_new_window(None) {
        Command::NewWindow { session } => assert_eq!(session, "chat"),
        other => panic!("{other:?}"),
    }
    let mut empty = fresh();
    assert_eq!(shown(&empty.create_new_window(None)), "Continue");
    assert_eq!(empty.error_message.as_deref(), Some("No session selected"));
    assert_eq!(app.complete(&command, Outcome::Failed("full".to_string())), false);
    assert_eq!(app.error_message.as_deref(), Some("Failed to create new window: full"));
}

#[test]
fn refresh_key_selects_the_active_window_again() {
    let mut app = loaded();
    app.selected_index = 1;
    assert_eq!(shown(&app.handle_key(ch('R'))), "Refresh");
    assert!(app.auto_position_on_active);
    let outcome = Outcome::Refreshed { sessions: two_sessions(), attached: Some("chat".to_string()) };
    assert_eq!(app.complete(&Command::Refresh, outcome), false);
    assert_eq!(app.selected_index, 4);
    assert!(!app.auto_position_on_active);
    assert_eq!(app.complete(&Command::Refresh, Outcome::Failed("down".to_string())), false);
    assert_eq!(app.error_message.as_deref(), Some("Failed to refresh sessions: down"));
    assert_eq!((app.selected_index, app.tree_lines.len()), (4, 5));
    assert_eq!(app.complete(&Command::Quit, Outcome::Done), true);
    assert_eq!(app.complete(&Command::Continue, Outcome::Done), false);
}

#[test]
fn quick_search_jumps_to_the_match() {
    let mut app = loaded();
    app.handle_key(ch('/'));
    assert_eq!(app.mode, Mode::QuickSearch);
    assert_eq!(app.quick_search_results, vec![0, 1, 2, 3, 4]);
    app.handle_key(key(KeyCode::Down));
    app.handle_key(key(KeyCode::Down));
    assert_eq!(app.quick_search_selected_index, 2);
    app.handle_key(key(KeyCode::Up));
    assert_eq!(app.quick_search_selected_index, 1);
    for c in "ircx".chars() {
        app.handle_key(ch(c));
    }
    assert!(app.quick_search_results.is_empty());
    assert_eq!(app.quick_search_selected_index, 0);
    app.handle_key(key(KeyCode::Down));
    assert_eq!(app.quick_search_selected_index, 0);
    app.handle_key(key(KeyCode::Backspace));
    assert_eq!(app.quick_search_query, "irc");
    assert_eq!(app.quick_search_results, vec![4]);
    let command = app.handle_key(key(KeyCode::Enter));
    assert_eq!(app.mode, Mode::Window);
    assert_eq!(app.selected_index, 4);
    match command {
        Command::SwitchToWindow { session, window_id, save_history } => {
            assert_eq!((session.as_str(), window_id.as_str(), save_history), ("chat", "@3", true));
        }
        other => panic!("{other:?}"),
    }
    app.handle_key(ch('/'));
    assert_eq!(app.quick_search_query, "");
    app.handle_key(ch('#'));
    assert_eq!(shown(&app.handle_key(key(KeyCode::Enter))), "Continue");
    assert_eq!(app.mode, Mode::Window);
    app.handle_key(ch('/'));
    app.handle_key(key(KeyCode::Esc));
    assert_eq!(app.mode, Mode::Window);
    app.handle_key(ch('/'));
    let command = app.handle_key(key(KeyCode::Enter));
    assert_eq!(shown(&command), "Continue");
    assert_eq!(app.selected_index, 0);
}

#[test]
fn project_search_opens_a_result() {
    let roots = vec![DirNode {
        name: "code".to_string(),
        path: "/code".to_string(),
        children: vec![DirNode {
            name: "site".to_string(),
            path: "/code/site".to_string(),
            children: vec![
                DirNode { name: "web".to_string(), path: "/code/site/web".to_string(), children: vec![] },
                DirNode { name: "api".to_string(), path: "/code/site/api".to_string(), children: vec![] },
            ],
        }],
    }];
    let mut provider = SearchProvider::new(vec![SearchPattern::new(
        "git-style".to_string(),
        vec!["/code".to_string()],
        "{session}/{window}".to_string(),
    )]);
    provider.scan_directories(&roots);
    let mut app = App::new(Config::default(), provider, Vec::new());
    app.refresh_sessions(two_sessions(), None);
    app.handle_key(ch('F'));
    assert_eq!(app.mode, Mode::Search);
    assert_eq!(app.search_results.len(), 2);
    app.handle_key(key(KeyCode::Down));
    app.handle_key(key(KeyCode::Down));
    assert_eq!(app.search_selected_index, 1);
    app.handle_key(key(KeyCode::Up));
    app.handle_key(key(KeyCode::Up));
    assert_eq!(app.search_selected_index, 0);
    for c in "api".chars() {
        app.handle_key(ch(c));
    }
    assert_eq!(app.search_query, "api");
    assert_eq!(app.search_results.len(), 1);
    let command = app.handle_key(key(KeyCode::Enter));
    match &command {
        Command::OpenSearchResult { session, window, path } => {
            assert_eq!(
                (session.as_str(), window.as_str(), path.as_str()),
                ("site", "api", "/code/site/api")
            );
        }
        other => panic!("{other:?}"),
    }
    assert_eq!(app.complete(&command, Outcome::Done), true);
    assert_eq!(app.complete(&command, Outcome::Failed("no tmux".to_string())), false);
    assert_eq!(app.error_message.as_deref(), Some("Failed to open: no tmux"));
    assert_eq!(app.mode, Mode::Search);
    assert_eq!(app.search_selected_index, 0);
    assert_eq!(app.search_results.len(), 1);
    assert_eq!(app.selected_index, 2);
    app.handle_key(ch('q'));
    assert!(app.search_results.is_empty());
    assert_eq!(shown(&app.handle_key(key(KeyCode::Enter))), "Continue");
    assert_eq!(app.mode, Mode::Window);
    app.handle_key(ch('F'));
    app.handle_key(key(KeyCode::Backspace));
    assert_eq!(app.search_results.len(), 2);
    app.handle_key(key(KeyCode::Esc));
    assert_eq!(app.mode, Mode::Window);
}

#[test]
fn session_switch_outcomes() {
    let mut app = loaded();
    let command = Command::SwitchToSession { session: "chat".to_string() };
    assert_eq!(app.complete(&command, Outcome::Done), true);
    assert_eq!(app.complete(&command, Outcome::Failed("x".to_string())), false);
    assert_eq!(app.error_message.as_deref(), Some("Failed to switch to session: x"));
    let command = Command::RenameSession { old_name: "a".to_string(), new_name: "b".to_string() };
    assert_eq!(app.complete(&command, Outcome::Failed("x".to_string())), false);
    assert_eq!(app.error_message.as_deref(), Some("Failed to rename session: x"));
    let command = Command::KillSession { session: "a".to_string() };
    assert_eq!(app.complete(&command, Outcome::Failed("x".to_string())), false);
    assert_eq!(app.error_message.as_deref(), Some("Failed to delete session: x"));
}

#[test]
fn a_failed_refresh_after_a_rename_is_shown() {
    let mut app = loaded();
    app.selected_index = 1;
    app.handle_key(ch('r'));
    let command = app.handle_key(key(KeyCode::Enter));
    assert_eq!(app.complete(&command, Outcome::RefreshFailed("gone".to_string())), false);
    assert_eq!(app.error_message.as_deref(), Some("Failed to refresh sessions: gone"));
    assert_eq!(app.mode, Mode::Window);
    assert!(!app.show_popup);
    let command = Command::NewWindow { session: "work".to_string() };
    assert_eq!(app.complete(&command, Outcome::RefreshFailed("gone".to_string())), false);
    assert_eq!(app.error_message.as_deref(), Some("Failed to refresh sessions: gone"));
}

#[test]
fn a_stale_quick_search_result_selects_nothing() {
    let mut app = loaded();
    app.handle_key(ch('/'));
    assert_eq!(app.quick_search_results, vec![0, 1, 2, 3, 4]);
    app.quick_search_selected_index = 4;
    app.refresh_sessions(vec![app_session("work", &[("@1", "editor", false)])], None);
    assert_eq!(app.tree_lines.len(), 2);
    let before = app.selected_index;
    assert_eq!(shown(&app.handle_key(key(KeyCode::Enter))), "Continue");
    assert_eq!(app.mode, Mode::Window);
    assert_eq!(app.selected_index, before);
    assert!(app.history.is_empty());
}
