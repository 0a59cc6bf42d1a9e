use tmux_portal::app::{App, KeyCode, KeyEvent, Mode};
use tmux_portal::config::{Color, Config, Style};
use tmux_portal::search::SearchProvider;
use tmux_portal::tmux::{TmuxSession, TmuxWindow};
use tmux_portal::ui::confirm::render_confirmation_prompt;
use tmux_portal::ui::draw::{
    draw, draw_session_mode_interface, Screen, create_highlighted_spans, create_highlighted_spans_for_content, draw_main_content,
    draw_main_content_with_quick_search_highlights, draw_query, draw_search_interface,
    draw_search_status_bar, draw_status_bar, get_mode_style, get_mode_text, line_number_text,
    visible_selection,
};
use tmux_portal::ui::help::{get_help_items_for_mode, render_help_panel};
use tmux_portal::widgets::confirm_prompt::ConfirmPrompt;
use tmux_portal::widgets::help_panel::{unstyled, HelpItem, HelpPanel, Span};

fn ui_session(name: &str, windows: &[(&str, &str, bool)]) -> TmuxSession {
    TmuxSession {
        name: name.to_string(),
        windows: windows
            .iter()
            .map(|(id, w, active)| TmuxWindow {
                id: id.to_string(),
                name: w.to_string(),
                session_name: name.to_string(),
                active: *active,
            })
            .collect(),
    }
}

fn ui_app() -> App {
    let mut app = App::new(Config::default(), SearchProvider::new(Vec::new()), Vec::new());
    app.refresh_sessions(
        vec![
            ui_session("work", &[("@1", "editor", false), ("@2", "server", true)]),
            ui_session("chat", &[("@3", "irc", false)]),
        ],
        None,
    );
    app
}

fn press(app: &mut App, c: char) {
    app.handle_key(KeyEvent { code: KeyCode::Char(c), shift: false, control: false });
}

fn texts(spans: &[Span]) -> Vec<&str> {
    spans.iter().map(|s| s.content.as_str()).collect()
}

fn colored(fg: Option<Color>, bg: Option<Color>, bold: bool) -> Style {
    Style { fg, bg, bold, ..unstyled() }
}

#[test]
fn mode_names() {
    assert_eq!(get_mode_text(&Mode::Window), "-- WINDOW --");
    assert_eq!(get_mode_text(&Mode::Rename), "-- RENAME --");
    assert_eq!(get_mode_text(&Mode::Search), "-- SEARCH --");
    assert_eq!(get_mode_text(&Mode::QuickSearch), "-- QUICK --");
    assert_eq!(get_mode_text(&Mode::Session), "-- SESSION --");
    assert_eq!(get_mode_text(&Mode::DeleteConfirm), "-- CONFIRM --");
    let colors = Config::default().colors;
    let white = colored(Some(Color::White), None, false);
    let yellow = colored(Some(Color::Yellow), None, false);
    let cyan = colored(Some(Color::Cyan), None, false);
    assert_eq!(get_mode_style(&Mode::Window, &colors), white);
    assert_eq!(get_mode_style(&Mode::Session, &colors), white);
    assert_eq!(get_mode_style(&Mode::Rename, &colors), yellow);
    assert_eq!(get_mode_style(&Mode::DeleteConfirm, &colors), yellow);
    assert_eq!(get_mode_style(&Mode::Search, &colors), cyan);
    assert_eq!(get_mode_style(&Mode::QuickSearch, &colors), cyan);
}

#[test]
fn hints_of_each_mode() {
    let keys = |mode: Mode| -> Vec<(&str, &str)> {
        get_help_items_for_mode(&mode).iter().map(|i| (i.key, i.description)).collect()
    };
    assert_eq!(
        keys(Mode::Window),
        vec![
            ("q", "quit"),
            ("j/k", "move"),
            ("Enter", "select"),
            ("r/,", "rename"),
            ("x", "delete"),
            ("R", "refresh"),
            ("/", "search"),
            ("F", "find project"),
            ("S", "session mode"),
            ("J/K", "move item"),
            ("C", "create window"),
        ]
    );
    assert_eq!(keys(Mode::Rename), vec![("Esc", "cancel"), ("Enter", "confirm")]);
    assert_eq!(
        keys(Mode::Search),
        vec![("Esc", "cancel"), ("Enter", "select"), ("↑/↓", "navigate")]
    );
    assert_eq!(keys(Mode::QuickSearch), keys(Mode::Search));
    assert_eq!(
        keys(Mode::Session),
        vec![
            ("q/Esc", "normal mode"),
            ("j/k", "move between sessions"),
            ("Enter", "switch to session"),
            ("/r", "rename session"),
            ("x", "delete session"),
            ("J/K", "move session"),
        ]
    );
    assert_eq!(keys(Mode::DeleteConfirm), vec![("y", "confirm delete"), ("n/Esc", "cancel")]);
}

#[test]
fn help_line() {
    let panel = HelpPanel::new(vec![
        HelpItem { key: "q", description: "quit" },
        HelpItem { key: "j/k", description: "move" },
    ]);
    let spans = panel.render();
    assert_eq!(texts(&spans), vec![" ", "q", ":quit ", " ", "j/k", ":move "]);
    assert_eq!(spans[0].style, unstyled());
    assert_eq!(spans[1].style, colored(Some(Color::Yellow), None, true));
    assert_eq!(spans[2].style, colored(Some(Color::Gray), None, false));
    assert_eq!(spans[3].style, unstyled());
    let red = colored(Some(Color::Red), None, false);
    let blue = colored(Some(Color::Blue), None, false);
    let restyled = HelpPanel::new(vec![HelpItem { key: "x", description: "y" }])
        .key_style(red)
        .desc_style(blue)
        .render();
    assert_eq!(texts(&restyled), vec![" ", "x", ":y "]);
    assert_eq!((restyled[1].style, restyled[2].style), (red, blue));
    assert_eq!(texts(&HelpPanel::new(Vec::new()).render()), vec![" "]);
    let mut app = ui_app();
    press(&mut app, 'x');
    let line = render_help_panel(&app);
    assert_eq!(texts(&line), vec![" ", "y", ":confirm delete ", " ", "n/Esc", ":cancel "]);
    assert_eq!(line[1].style, colored(Some(Color::Yellow), None, true));
    assert_eq!(line[2].style, colored(Some(Color::White), None, false));
}

#[test]
fn highlighted_runs() {
    let normal = unstyled();
    let high = colored(Some(Color::Cyan), None, true);
    let spans = create_highlighted_spans("chat/irc", &vec![5, 6, 7], normal, high);
    assert_eq!(texts(&spans), vec!["chat/", "irc"]);
    assert_eq!((spans[0].style, spans[1].style), (normal, high));
    let spans = create_highlighted_spans("abcdef", &vec![0, 2, 3, 9], normal, high);
    assert_eq!(texts(&spans), vec!["a", "b", "cd", "ef"]);
    assert_eq!(
        spans.iter().map(|s| s.style == high).collect::<Vec<bool>>(),
        vec![true, false, true, false]
    );
    assert_eq!(texts(&create_highlighted_spans("héé", &vec![1], normal, high)), vec!["h", "é", "é"]);
    assert_eq!(texts(&create_highlighted_spans("abc", &vec![], normal, high)), vec!["abc"]);
    assert!(create_highlighted_spans("", &vec![0], normal, high).is_empty());
    let plain = create_highlighted_spans_for_content("└── irc", "chat:irc", &vec![5, 6], normal, high);
    assert_eq!(texts(&plain), vec!["└── irc"]);
    assert_eq!(plain[0].style, normal);
    let shown = create_highlighted_spans_for_content("chat", "chat", &vec![0, 1], normal, high);
    assert_eq!(texts(&shown), vec!["ch", "at"]);
    let colon = create_highlighted_spans_for_content("a:b", "s:a:b", &vec![0], normal, high);
    assert_eq!(texts(&colon), vec!["a", ":b"]);
}

#[test]
fn line_numbers() {
    assert_eq!(line_number_text(Some(0), 5), "0       ");
    assert_eq!(line_number_text(Some(0), 0), "0  ");
    assert_eq!(line_number_text(Some(2), 1), "  2 ");
    assert_eq!(line_number_text(Some(-2), 1), "  2 ");
    assert_eq!(line_number_text(Some(12), 2), " 12  ");
    assert_eq!(line_number_text(Some(-123), 0), "123");
    assert_eq!(line_number_text(Some(1234), 1), "1234 ");
    assert_eq!(line_number_text(Some(i32::MIN), 0), "2147483648");
    assert_eq!(line_number_text(Some(i32::MAX), 0), "2147483647");
    assert_eq!(line_number_text(None, 5), "        ");
    assert_eq!(line_number_text(None, 0), "   ");
}

#[test]
fn rows_of_the_tree() {
    let mut app = ui_app();
    assert_eq!(app.selected_index, 2);
    let rows = draw_main_content(&app, 10);
    assert_eq!(rows.len(), 5);
    let shown: Vec<Vec<&str>> = rows.iter().map(|r| texts(&r.spans)).collect();
    assert_eq!(
        shown,
        vec![
            vec!["        ", "work"],
            vec!["  1     ", "├── editor"],
            vec!["0       ", "└── server (active)"],
            vec!["        ", "chat"],
            vec!["  1     ", "└── irc"],
        ]
    );
    let gray = colored(Some(Color::DarkGray), None, false);
    assert_eq!(rows[0].spans[0].style, unstyled());
    assert_eq!(rows[1].spans[0].style, gray);
    assert_eq!(rows[2].spans[0].style, gray);
    assert_eq!(rows[1].spans[1].style, unstyled());
    assert_eq!(rows[0].style, colored(None, None, true));
    assert_eq!(rows[1].style, unstyled());
    assert_eq!(
        rows[2].style,
        colored(Some(Color::Yellow), Some(Color::Rgb(0x1b, 0x24, 0x33)), true)
    );
    assert_eq!(rows[4].style, unstyled());
    assert_eq!(visible_selection(&app, 10), Some(2));
    app.scroll_offset = 1;
    let rows = draw_main_content(&app, 2);
    let shown: Vec<Vec<&str>> = rows.iter().map(|r| texts(&r.spans)).collect();
    assert_eq!(shown, vec![vec!["  1     ", "├── editor"], vec!["0       ", "└── server (active)"]]);
    assert_eq!(visible_selection(&app, 2), Some(1));
    assert_eq!(visible_selection(&app, 1), None);
    app.scroll_offset = 3;
    assert_eq!(visible_selection(&app, 5), None);
    assert_eq!(draw_main_content(&app, 5).len(), 2);
    app.scroll_offset = 9;
    assert!(draw_main_content(&app, 5).is_empty());
    app.scroll_offset = 0;
    assert!(draw_main_content(&app, 0).is_empty());
    app.selected_index = 0;
    let rows = draw_main_content(&app, usize::MAX);
    assert_eq!(rows.len(), 5);
    assert_eq!(texts(&rows[1].spans), vec!["        ", "├── editor"]);
    assert_eq!(rows[0].style, colored(None, Some(Color::LightBlue), true));
    assert_eq!(rows[2].style, Style { bold: false, ..unstyled() });
}

#[test]
fn rows_of_the_quick_search() {
    let mut app = ui_app();
    press(&mut app, '/');
    let rows = draw_main_content_with_quick_search_highlights(&app);
    assert_eq!(rows.len(), 5);
    assert_eq!(texts(&rows[0]), vec!["        ", "work"]);
    let chosen = colored(Some(Color::Black), Some(Color::Cyan), true);
    assert_eq!(rows[0][1].style, chosen);
    assert_eq!(
        rows[2][1].style,
        colored(Some(Color::Yellow), Some(Color::Rgb(0x1b, 0x24, 0x33)), true)
    );
    assert_eq!(rows[1][1].style, colored(None, None, true));
    for c in "ch".chars() {
        press(&mut app, c);
    }
    assert_eq!(app.quick_search_results.len(), 2);
    app.quick_search_selected_index = 1;
    let first = app.quick_search_results[0];
    let second = app.quick_search_results[1];
    assert_eq!((first.min(second), first.max(second)), (3, 4));
    let rows = draw_main_content_with_quick_search_highlights(&app);
    assert_eq!(rows[second][1].style, chosen);
    assert_eq!(rows[second].len(), 2);
    if first == 3 {
        assert_eq!(texts(&rows[3]), vec!["        ", "ch", "at"]);
        assert_eq!(rows[3][1].style, colored(Some(Color::Cyan), None, true));
        assert_eq!(rows[3][2].style, colored(None, None, true));
    } else {
        assert_eq!(texts(&rows[4]), vec!["  2     ", "└── irc"]);
    }
    assert_eq!(texts(&rows[0]), vec!["        ", "work"]);
    assert_eq!(rows[0][1].style, colored(None, None, true));
    assert_eq!(texts(&rows[1]), vec!["  1     ", "├── editor"]);
    assert_eq!(rows[1][1].style, unstyled());
}

#[test]
fn status_texts() {
    let mut app = ui_app();
    let status = draw_status_bar(&app);
    assert_eq!(status.content, " Sessions: 2 | Windows: 3");
    assert_eq!(status.style, colored(Some(Color::Green), None, false));
    app.error_message = Some("Failed to switch: gone".to_string());
    let status = draw_status_bar(&app);
    assert_eq!(status.content, " Failed to switch: gone");
    assert_eq!(status.style, colored(Some(Color::Red), None, false));
    let results = draw_search_status_bar(&app);
    assert_eq!(results.content, " Results: 0 ");
    assert_eq!(results.style, colored(Some(Color::Green), None, false));
    assert_eq!(draw_query("ab"), "Search: ab");
    assert!(draw_search_interface(&app).is_empty());
}

#[test]
fn popups() {
    let mut app = ui_app();
    assert!(render_confirmation_prompt(&app).is_none());
    press(&mut app, 'r');
    let prompt = render_confirmation_prompt(&app).unwrap();
    assert_eq!(prompt.title(), "Rename Window");
    assert_eq!(prompt.message(), "Enter new window name:");
    assert_eq!(prompt.typed().as_deref(), Some("server"));
    assert!(prompt.cursor_shown());
    let yellow = colored(Some(Color::Yellow), None, false);
    let white = colored(Some(Color::White), None, false);
    assert_eq!(prompt.styles(), (yellow, white, white));
    app.handle_key(KeyEvent { code: KeyCode::Esc, shift: false, control: false });
    press(&mut app, 'x');
    let prompt = render_confirmation_prompt(&app).unwrap();
    assert_eq!(prompt.title(), "Delete Window");
    assert_eq!(prompt.message(), "Are you sure you want to delete window 'server'? (y/n)");
    assert!(prompt.typed().is_none());
    assert!(!prompt.cursor_shown());
    assert_eq!(prompt.styles(), (yellow, white, unstyled()));
    press(&mut app, 'n');
    press(&mut app, 'S');
    press(&mut app, 'x');
    let prompt = render_confirmation_prompt(&app).unwrap();
    assert_eq!(prompt.title(), "Delete Session");
    assert_eq!(prompt.message(), "Are you sure you want to delete session 'work'? (y/n)");
    press(&mut app, 'n');
    press(&mut app, 'r');
    let prompt = render_confirmation_prompt(&app).unwrap();
    assert_eq!(prompt.title(), "Rename Session");
    assert_eq!(prompt.message(), "Enter new session name:");
    app.selected_index = 99;
    let prompt = render_confirmation_prompt(&app).unwrap();
    assert_eq!((prompt.title().as_str(), prompt.message().as_str()), ("Rename", "Enter new name:"));
    app.mode = Mode::DeleteConfirm;
    let prompt = render_confirmation_prompt(&app).unwrap();
    assert_eq!(prompt.title(), "Delete");
    assert_eq!(prompt.message(), "Are you sure you want to delete this item? (y/n)");
    let built = ConfirmPrompt::new("T", "M").input("typed").show_cursor(true).border_style(yellow);
    assert_eq!(built.title(), "T");
    assert_eq!(built.message(), "M");
    assert_eq!(built.typed().as_deref(), Some("typed"));
    assert!(built.cursor_shown());
    assert_eq!(built.styles(), (yellow, unstyled(), unstyled()));
    let styled = ConfirmPrompt::new("T", "M").text_style(white).input_style(yellow);
    assert_eq!(styled.styles(), (unstyled(), white, yellow));
    assert!(styled.typed().is_none() && !styled.cursor_shown());
}

#[test]
fn screens_of_the_modes() {
    let mut app = ui_app();
    app.selected_index = 4;
    match draw(&mut app, 3) {
        Screen::Tree { rows, selected, status, prompt } => {
            assert_eq!(app.scroll_offset, 3);
            assert_eq!(rows.len(), 2);
            assert_eq!(texts(&rows[1].spans), vec!["0       ", "└── irc"]);
            assert_eq!(selected, Some(1));
            assert_eq!(status.content, " Sessions: 2 | Windows: 3");
            assert!(prompt.is_none());
        }
        other => panic!("{other:?}"),
    }
    press(&mut app, 'r');
    match draw(&mut app, 10) {
        Screen::Tree { rows, prompt, .. } => {
            assert_eq!(app.scroll_offset, 3);
            assert_eq!(rows.len(), 2);
            assert_eq!(prompt.unwrap().title(), "Rename Window");
        }
        other => panic!("{other:?}"),
    }
    app.handle_key(KeyEvent { code: KeyCode::Esc, shift: false, control: false });
    press(&mut app, 'S');
    app.scroll_offset = 4;
    match draw(&mut app, 10) {
        Screen::Tree { rows, selected, .. } => {
            assert_eq!(app.scroll_offset, 4);
            assert_eq!(rows.len(), 1);
            assert_eq!(selected, None);
        }
        other => panic!("{other:?}"),
    }
    assert!(matches!(draw_session_mode_interface(&app, 2), Screen::Tree { .. }));
    press(&mut app, 'q');
    press(&mut app, '/');
    press(&mut app, 'c');
    match draw(&mut app, 10) {
        Screen::QuickSearch { query, rows, status } => {
            assert_eq!(query, "Search: c");
            assert_eq!(rows.len(), 5);
            assert_eq!(status.content, " Sessions: 2 | Windows: 3");
            assert_eq!(app.scroll_offset, 4);
        }
        other => panic!("{other:?}"),
    }
    app.handle_key(KeyEvent { code: KeyCode::Esc, shift: false, control: false });
    press(&mut app, 'F');
    press(&mut app, 'x');
    match draw(&mut app, 10) {
        Screen::Search { query, results, status } => {
            assert_eq!(query, "Search: x");
            assert!(results.is_empty());
            assert_eq!(status.content, " Results: 0 ");
        }
        other => panic!("{other:?}"),
    }
}
