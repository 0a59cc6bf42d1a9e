use tmux_portal::history::{add_to_history, load_history, save_history};

fn entry(session: &str, window: &str) -> (String, String) {
    (session.to_string(), window.to_string())
}

#[test]
fn reactivating_moves_to_front() {
    let mut history: Vec<(String, String)> = Vec::new();
    add_to_history(&mut history, "dev", "@1");
    add_to_history(&mut history, "dev", "@2");
    add_to_history(&mut history, "dev", "@1");
    assert_eq!(history, vec![entry("dev", "@1"), entry("dev", "@2")]);
}

#[test]
fn history_keeps_the_ten_newest() {
    let mut history: Vec<(String, String)> = Vec::new();
    for i in 0..11 {
        add_to_history(&mut history, "dev", &format!("@{}", i));
    }
    assert_eq!(history.len(), 10);
    assert_eq!(history[0], entry("dev", "@10"));
    assert_eq!(history[9], entry("dev", "@1"));
}

#[test]
fn stored_history_is_read_back() {
    let history = vec![entry("dev", "@1"), entry("chat", "@7")];
    let text = save_history(&history).unwrap();
    assert_eq!(text, "[[\"dev\",\"@1\"],[\"chat\",\"@7\"]]");
    assert_eq!(load_history(Some(&text)), history);
}

#[test]
fn missing_or_broken_history_is_empty() {
    assert!(load_history(None).is_empty());
    assert!(load_history(Some("not json")).is_empty());
}
