use tmux_portal::tmux::{
    find_window, keeps_active, parse_active_window_id, parse_attached_session,
    parse_session_name, parse_session_names, parse_window_line, parse_windows, plan_activation,
    session_exists, window_target, Activation, TmuxSession, TmuxWindow,
};

#[test]
fn session_name_is_what_stands_before_the_colon() {
    assert_eq!(
        parse_session_name("dev: 2 windows (created Mon Jan  1 10:00:00 2024)"),
        Some("dev".to_string())
    );
    assert_eq!(parse_session_name("  my work \t: 1 windows"), Some("my work".to_string()));
    assert_eq!(parse_session_name(": nothing"), Some(String::new()));
    assert_eq!(parse_session_name("a:b:c"), Some("a".to_string()));
    assert_eq!(parse_session_name("no colon here"), None);
    assert_eq!(parse_session_name(""), None);
}

#[test]
fn session_names_of_a_listing() {
    let listing = "dev: 2 windows\nbroken line\nchat: 1 windows (attached)\n";
    assert_eq!(parse_session_names(listing), vec!["dev", "chat"]);
    assert!(session_exists(listing, "chat"));
    assert!(!session_exists(listing, "cha"));
    assert!(!session_exists("", "dev"));
}

#[test]
fn windows_of_a_listing() {
    let windows = parse_windows("@1|vim|1\n@2|shell|0\nrubbish\n@3|a|b|0\n@4||1\n", "dev");
    assert_eq!(windows.len(), 3);
    assert_eq!(windows[0].id, "@1");
    assert_eq!(windows[0].name, "vim");
    assert_eq!(windows[0].session_name, "dev");
    assert!(windows[0].active);
    assert_eq!(windows[1].id, "@2");
    assert_eq!(windows[1].name, "shell");
    assert!(!windows[1].active);
    assert_eq!(windows[2].id, "@4");
    assert_eq!(windows[2].name, "");
    assert!(windows[2].active);
    assert!(parse_window_line("@1|vim", "dev").is_none());
    assert!(parse_window_line("@1|vim|1|x", "dev").is_none());
    let odd = parse_window_line("@1|vim|yes", "dev").unwrap();
    assert!(!odd.active);
}

#[test]
fn attached_session_of_a_listing() {
    assert_eq!(
        parse_attached_session("dev:not_attached\nchat:attached\nmail:attached\n"),
        Some("chat".to_string())
    );
    assert_eq!(parse_attached_session("dev:not_attached\n"), None);
    assert_eq!(parse_attached_session(":attached\nwork:attached"), Some("work".to_string()));
    assert_eq!(parse_attached_session("odd:attached:attached"), Some("odd".to_string()));
    assert_eq!(parse_attached_session(""), None);
}

#[test]
fn active_window_of_a_listing() {
    assert_eq!(parse_active_window_id("@1:0\n@2:1\n@3:1\n"), "@2");
    assert_eq!(parse_active_window_id("@1:0\n"), "");
    assert_eq!(parse_active_window_id(""), "");
    assert!(keeps_active("@2", "@2", "@5"));
    assert!(keeps_active("@5", "@2", "@5"));
    assert!(!keeps_active("@7", "@2", "@5"));
    assert!(!keeps_active("", "", "@5"));
}

#[test]
fn target_of_a_window() {
    assert_eq!(window_target("dev", "@3"), "dev:@3");
    assert_eq!(window_target("", ""), ":");
}

fn tmux_window(id: &str, name: &str, session: &str, active: bool) -> TmuxWindow {
    TmuxWindow {
        id: id.to_string(),
        name: name.to_string(),
        session_name: session.to_string(),
        active,
    }
}

#[test]
fn way_to_the_window_of_a_search_result() {
    let windows = vec![
        tmux_window("@1", "src", "proj", false),
        tmux_window("@2", "docs", "proj", true),
        tmux_window("@3", "src", "proj", false),
    ];
    let found = find_window(&windows, "src").unwrap();
    assert_eq!(found.id, "@1");
    assert!(find_window(&windows, "tests").is_none());
    match plan_activation(Some(found), true) {
        Activation::SwitchTo { session_name, window_id } => {
            assert_eq!(session_name, "proj");
            assert_eq!(window_id, "@1");
        }
        other => panic!("{other:?}"),
    }
    assert!(matches!(plan_activation(None, true), Activation::CreateWindow));
    assert!(matches!(plan_activation(None, false), Activation::CreateSession));
}

#[test]
fn sessions_and_windows_are_copied_whole() {
    let session = TmuxSession {
        name: "dev".to_string(),
        windows: vec![tmux_window("@1", "vim", "dev", true), tmux_window("@2", "sh", "dev", false)],
    };
    let copy = session.clone();
    assert_eq!(copy.name, "dev");
    assert_eq!(copy.windows.len(), 2);
    assert_eq!(copy.windows[1].id, "@2");
    assert_eq!(copy.windows[1].name, "sh");
    assert!(copy.windows[0].active);
}
