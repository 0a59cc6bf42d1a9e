use tmux_portal::selection::{find_first, find_last, LineFilter};
use tmux_portal::tmux::{TmuxSession, TmuxWindow};
use tmux_portal::tree::{
    build_tree, duplicate_names, label_of, session_tree_lines, LineType, TreeLine,
};

fn tree_window(id: &str, name: &str, session: &str, active: bool) -> TmuxWindow {
    TmuxWindow {
        id: id.to_string(),
        name: name.to_string(),
        session_name: session.to_string(),
        active,
    }
}

fn tree_session(name: &str, windows: &[(&str, &str, bool)]) -> TmuxSession {
    TmuxSession {
        name: name.to_string(),
        windows: windows.iter().map(|(id, w, active)| tree_window(id, w, name, *active)).collect(),
    }
}

fn work_and_chat() -> Vec<TmuxSession> {
    vec![
        tree_session("work", &[("@1", "editor", true), ("@2", "server", false)]),
        tree_session("chat", &[("@3", "irc", false)]),
    ]
}

fn contents(lines: &[TreeLine]) -> Vec<&str> {
    lines.iter().map(|l| l.content.as_str()).collect()
}

#[test]
fn tree_of_two_sessions() {
    let lines = build_tree(&work_and_chat(), true);
    assert_eq!(
        contents(&lines),
        vec!["work", "├── editor (active)", "└── server", "chat", "└── irc"]
    );
    let kinds: Vec<LineType> = lines.iter().map(|l| l.line_type).collect();
    assert_eq!(
        kinds,
        vec![
            LineType::Session,
            LineType::Window,
            LineType::Window,
            LineType::Session,
            LineType::Window
        ]
    );
    let sessions: Vec<Option<&str>> = lines.iter().map(|l| l.session_name.as_deref()).collect();
    assert_eq!(
        sessions,
        vec![Some("work"), Some("work"), Some("work"), Some("chat"), Some("chat")]
    );
    let ids: Vec<Option<&str>> =
        lines.iter().map(|l| l.window.as_ref().map(|w| w.id.as_str())).collect();
    assert_eq!(ids, vec![None, Some("@1"), Some("@2"), None, Some("@3")]);
}

#[test]
fn windows_follow_their_session_in_order() {
    let sessions = vec![
        tree_session("a", &[]),
        tree_session("b", &[("@1", "x", false), ("@2", "y", true), ("@3", "z", false)]),
        tree_session("c", &[]),
        tree_session("d", &[("@4", "w", true)]),
    ];
    let lines = build_tree(&sessions, false);
    assert_eq!(lines.len(), 8);
    let mut at = 0;
    for session in &sessions {
        assert_eq!(lines[at].line_type, LineType::Session);
        assert_eq!(lines[at].session_name.as_deref(), Some(session.name.as_str()));
        assert!(lines[at].window.is_none());
        for (k, window) in session.windows.iter().enumerate() {
            let line = &lines[at + 1 + k];
            assert_eq!(line.line_type, LineType::Window);
            assert_eq!(line.session_name.as_deref(), Some(session.name.as_str()));
            assert_eq!(line.window.as_ref().unwrap().id, window.id);
        }
        at += 1 + session.windows.len();
    }
    assert_eq!(at, lines.len());
    assert_eq!(
        contents(&lines),
        vec!["a", "b", "├── x", "├── y (active)", "└── z", "c", "d", "└── w (active)"]
    );
}

#[test]
fn empty_list_gives_empty_tree() {
    assert!(build_tree(&Vec::new(), true).is_empty());
}

#[test]
fn session_without_windows_is_one_line() {
    let lines = session_tree_lines(&tree_session("lonely", &[]), true);
    assert_eq!(lines.len(), 1);
    assert_eq!(lines[0].content, "lonely");
    assert_eq!(lines[0].line_type, LineType::Session);
}

#[test]
fn shared_names_show_identifiers() {
    let session = tree_session("s", &[("@1", "sh", false), ("@2", "vim", false), ("@7", "sh", true)]);
    assert!(duplicate_names(&session.windows));
    assert_eq!(
        contents(&session_tree_lines(&session, true)),
        vec!["s", "├── sh [@1]", "├── vim [@2]", "└── sh [@7] (active)"]
    );
    assert_eq!(
        contents(&session_tree_lines(&session, false)),
        vec!["s", "├── sh", "├── vim", "└── sh (active)"]
    );
    let plain = tree_session("s", &[("@1", "sh", false), ("@2", "vim", false)]);
    assert!(!duplicate_names(&plain.windows));
    assert_eq!(contents(&session_tree_lines(&plain, true)), vec!["s", "├── sh", "└── vim"]);
}

#[test]
fn labels() {
    assert_eq!(label_of(&tree_window("@1", "vim", "s", false), false), "vim");
    assert_eq!(label_of(&tree_window("@1", "vim", "s", true), false), "vim (active)");
    assert_eq!(label_of(&tree_window("@1", "vim", "s", false), true), "vim [@1]");
    assert_eq!(label_of(&tree_window("@1", "vim", "s", true), true), "vim [@1] (active)");
}

#[test]
fn a_name_with_a_line_feed_keeps_the_lines_in_step() {
    let session = tree_session("s", &[("@1", "two\nlines", false), ("@2", "last", false)]);
    let lines = session_tree_lines(&session, false);
    assert_eq!(lines.len(), 3);
    assert_eq!(lines[1].window.as_ref().unwrap().id, "@1");
    assert_eq!(lines[2].window.as_ref().unwrap().id, "@2");
    assert_eq!(contents(&lines), vec!["s", "├── two", "lines"]);
}

#[test]
fn finding_lines() {
    let lines = build_tree(&work_and_chat(), true);
    let work = "work".to_string();
    let chat = "chat".to_string();
    let id = "@3".to_string();
    assert_eq!(find_first(&lines, &LineFilter::Kind(LineType::Window), 0), Some(1));
    assert_eq!(find_first(&lines, &LineFilter::Kind(LineType::Window), 3), Some(4));
    assert_eq!(find_first(&lines, &LineFilter::Kind(LineType::Session), 1), Some(3));
    assert_eq!(find_first(&lines, &LineFilter::Kind(LineType::Session), 4), None);
    assert_eq!(find_first(&lines, &LineFilter::Kind(LineType::Session), 9), None);
    assert_eq!(find_last(&lines, &LineFilter::Kind(LineType::Window), 5), Some(4));
    assert_eq!(find_last(&lines, &LineFilter::Kind(LineType::Window), 1), None);
    assert_eq!(find_last(&lines, &LineFilter::Kind(LineType::Session), 3), Some(0));
    assert_eq!(find_first(&lines, &LineFilter::SessionNamed(&chat), 0), Some(3));
    assert_eq!(find_first(&lines, &LineFilter::WindowIn(&work), 2), Some(2));
    assert_eq!(find_first(&lines, &LineFilter::WindowIn(&work), 3), None);
    assert_eq!(find_last(&lines, &LineFilter::WindowIn(&chat), 4), None);
    assert_eq!(find_first(&lines, &LineFilter::ActiveWindow, 0), Some(1));
    assert_eq!(find_first(&lines, &LineFilter::ActiveWindowIn(&chat), 0), None);
    assert_eq!(find_first(&lines, &LineFilter::ActiveWindowIn(&work), 0), Some(1));
    assert_eq!(find_first(&lines, &LineFilter::WindowWithId(&id), 0), Some(4));
}
