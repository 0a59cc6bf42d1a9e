use tmux_portal::config::{Config, SearchPatternConfig};
use tmux_portal::quick_search::{quick_search, search_text_of};
use tmux_portal::ranking::rank;
use tmux_portal::search::{
    scan_pattern, search_patterns_from, DirNode, PatternComponent, SearchPattern, SearchProvider,
    SearchResult,
};
use tmux_portal::tmux::{TmuxSession, TmuxWindow};
use tmux_portal::tree::build_tree;

fn dir(name: &str, path: &str, children: Vec<DirNode>) -> DirNode {
    DirNode { name: name.to_string(), path: path.to_string(), children }
}

fn projects() -> DirNode {
    dir(
        "projects",
        "/projects",
        vec![
            dir(
                "alpha",
                "/projects/alpha",
                vec![
                    dir("api", "/projects/alpha/api", vec![]),
                    dir(
                        "src",
                        "/projects/alpha/src",
                        vec![dir("core", "/projects/alpha/src/core", vec![])],
                    ),
                ],
            ),
            dir("beta", "/projects/beta", vec![dir("cli", "/projects/beta/cli", vec![])]),
            dir("empty", "/projects/empty", vec![]),
        ],
    )
}

fn pattern(name: &str, roots: &[&str], text: &str) -> SearchPattern {
    SearchPattern::new(
        name.to_string(),
        roots.iter().map(|r| r.to_string()).collect(),
        text.to_string(),
    )
}

fn found(results: &[SearchResult]) -> Vec<(&str, &str, &str, &str)> {
    results
        .iter()
        .map(|r| {
            (
                r.display_text.as_str(),
                r.session_name.as_str(),
                r.window_name.as_str(),
                r.full_path.as_str(),
            )
        })
        .collect()
}

fn components(p: &SearchPattern) -> Vec<String> {
    p.parse_pattern()
        .iter()
        .map(|c| match c {
            PatternComponent::Session => "<session>".to_string(),
            PatternComponent::Window => "<window>".to_string(),
            PatternComponent::Literal(s) => format!("lit:{s}"),
            PatternComponent::FixedSession(s) => format!("fixed:{s}"),
        })
        .collect()
}

#[test]
fn pattern_parts() {
    assert_eq!(
        components(&pattern("git", &[], "{session}/src/{window}")),
        vec!["<session>", "lit:src", "<window>"]
    );
    assert_eq!(components(&pattern("notes", &[], "{window}")), vec!["fixed:notes", "<window>"]);
    assert_eq!(
        components(&pattern("odd", &[], "{other}/{Session}/")),
        vec!["fixed:odd", "lit:{other}", "lit:{Session}", "lit:"]
    );
    assert_eq!(components(&pattern("none", &[], "")), vec!["fixed:none", "lit:"]);
    let p = pattern("n", &["/a", "/b"], "{session}");
    assert_eq!(p.name, "n");
    assert_eq!(p.base_paths, vec!["/a", "/b"]);
    assert_eq!(p.pattern, "{session}");
}

#[test]
fn scan_takes_directories_for_session_and_window() {
    let roots = vec![projects()];
    let mut provider =
        SearchProvider::new(vec![pattern("git-style", &["/projects"], "{session}/{window}")]);
    assert!(provider.search("").is_empty());
    provider.scan_directories(&roots);
    let all = provider.search("");
    assert_eq!(
        found(&all),
        vec![
            ("alpha/api", "alpha", "api", "/projects/alpha/api"),
            ("alpha/src", "alpha", "src", "/projects/alpha/src"),
            ("beta/cli", "beta", "cli", "/projects/beta/cli"),
        ]
    );
    assert!(all.iter().all(|r| r.score == 0 && r.match_indices.is_empty()));
}

#[test]
fn scan_follows_literal_parts_and_fixed_sessions() {
    let roots = vec![projects()];
    let mut out = Vec::new();
    scan_pattern(&pattern("deep", &["/projects"], "{session}/src/{window}"), &roots, &mut out);
    assert_eq!(found(&out), vec![("alpha/core", "alpha", "core", "/projects/alpha/src/core")]);
    scan_pattern(&pattern("top", &["/nowhere", "/projects"], "{window}"), &roots, &mut out);
    assert_eq!(
        found(&out)[1..],
        [
            ("top/alpha", "top", "alpha", "/projects/alpha"),
            ("top/beta", "top", "beta", "/projects/beta"),
            ("top/empty", "top", "empty", "/projects/empty"),
        ]
    );
    let mut none = Vec::new();
    scan_pattern(&pattern("only", &["/projects"], "{session}"), &roots, &mut none);
    assert!(none.is_empty());
    scan_pattern(&pattern("missing", &["/projects"], "gone/{window}"), &roots, &mut none);
    assert!(none.is_empty());
}

#[test]
fn scan_runs_pattern_after_pattern() {
    let roots = vec![projects()];
    let mut provider = SearchProvider::new(vec![
        pattern("deep", &["/projects"], "{session}/src/{window}"),
        pattern("beta", &["/projects/beta", "/projects"], "beta/{window}"),
    ]);
    provider.scan_directories(&roots);
    assert_eq!(
        found(&provider.search("")),
        vec![
            ("alpha/core", "alpha", "core", "/projects/alpha/src/core"),
            ("beta/cli", "beta", "cli", "/projects/beta/cli"),
        ]
    );
    provider.scan_directories(&Vec::new());
    assert!(provider.search("").is_empty());
}

#[test]
fn query_ranks_the_matches() {
    let roots = vec![projects()];
    let mut provider =
        SearchProvider::new(vec![pattern("git-style", &["/projects"], "{session}/{window}")]);
    provider.scan_directories(&roots);
    let only = provider.search("cli");
    assert_eq!(found(&only), vec![("beta/cli", "beta", "cli", "/projects/beta/cli")]);
    assert_eq!(only[0].match_indices, vec![5, 6, 7]);
    assert!(only[0].score > 0);
    assert!(provider.search("zzz").is_empty());
    let ranked = provider.search("a");
    assert_eq!(ranked.len(), 3);
    for pair in ranked.windows(2) {
        assert!(pair[0].score >= pair[1].score);
    }
    let again = provider.search("a");
    assert_eq!(found(&ranked), found(&again));
    let pool = provider.search("");
    let place = |r: &SearchResult| pool.iter().position(|p| p.full_path == r.full_path).unwrap();
    for pair in ranked.windows(2) {
        if pair[0].score == pair[1].score {
            assert!(place(&pair[0]) < place(&pair[1]));
        }
    }
    let upper = provider.search("CLI");
    assert!(upper.is_empty());
    for query in ["a", "pi", "b/c", "/"] {
        for hit in provider.search(query) {
            let len = hit.display_text.chars().count();
            assert!(hit.match_indices.iter().all(|&place| place < len));
        }
    }
}

#[test]
fn ranking_is_by_score_then_by_place() {
    assert_eq!(rank(&vec![]), Vec::<usize>::new());
    assert_eq!(rank(&vec![5]), vec![0]);
    assert_eq!(rank(&vec![1, 3, 2]), vec![1, 2, 0]);
    assert_eq!(rank(&vec![7, 7, 7]), vec![0, 1, 2]);
    assert_eq!(rank(&vec![1, 9, 1, 9, 5, -3, 9]), vec![1, 3, 6, 4, 0, 2, 5]);
    assert_eq!(rank(&vec![i64::MIN, i64::MAX, 0]), vec![1, 2, 0]);
}

#[test]
fn patterns_of_a_configuration() {
    let mut config = Config::default();
    assert!(search_patterns_from(&config).is_empty());
    config.search_paths = vec!["/code".to_string(), "/work".to_string()];
    let legacy = search_patterns_from(&config);
    assert_eq!(legacy.len(), 1);
    assert_eq!(legacy[0].name, "git-style");
    assert_eq!(legacy[0].base_paths, vec!["/code", "/work"]);
    assert_eq!(legacy[0].pattern, "{session}/{window}");
    config.search_patterns = vec![
        SearchPatternConfig {
            name: "deep".to_string(),
            paths: vec!["/x".to_string()],
            pattern: "{session}/src/{window}".to_string(),
        },
        SearchPatternConfig::default(),
    ];
    let configured = search_patterns_from(&config);
    assert_eq!(configured.len(), 2);
    assert_eq!(configured[0].name, "deep");
    assert_eq!(configured[0].base_paths, vec!["/x"]);
    assert_eq!(configured[0].pattern, "{session}/src/{window}");
    assert_eq!(configured[1].name, "git-style");
    assert!(configured[1].base_paths.is_empty());
}

fn quick_session(name: &str, windows: &[&str]) -> TmuxSession {
    TmuxSession {
        name: name.to_string(),
        windows: windows
            .iter()
            .enumerate()
            .map(|(i, w)| TmuxWindow {
                id: format!("@{name}{i}"),
                name: w.to_string(),
                session_name: name.to_string(),
                active: false,
            })
            .collect(),
    }
}

#[test]
fn quick_search_scope() {
    let lines = build_tree(
        &vec![quick_session("work", &["editor", "server"]), quick_session("chat", &["irc"])],
        true,
    );
    assert_eq!(quick_search(&lines, ""), vec![0, 1, 2, 3, 4]);
    assert_eq!(quick_search(&lines, "irc"), vec![4]);
    assert_eq!(quick_search(&lines, "IRC"), vec![4]);
    assert!(quick_search(&lines, "zzz").is_empty());
    assert!(quick_search(&Vec::new(), "").is_empty());
    assert!(quick_search(&Vec::new(), "a").is_empty());
    let work = quick_search(&lines, "work");
    let mut sorted = work.clone();
    sorted.sort();
    assert_eq!(sorted, vec![0, 1, 2]);
    assert_eq!(work, quick_search(&lines, "work"));
    assert_eq!(search_text_of(&lines[0]), Some("work".to_string()));
    assert_eq!(search_text_of(&lines[2]), Some("work:server".to_string()));
    let mut odd = lines[2].clone();
    odd.session_name = None;
    assert_eq!(search_text_of(&odd), Some("server".to_string()));
    odd.window = None;
    assert_eq!(search_text_of(&odd), None);
}
