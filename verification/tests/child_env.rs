use lca_launcher::child_env::{assemble_env, ChildEnv};

fn owned(s: &str) -> String {
    s.to_string()
}

#[test]
fn new_env_is_empty() {
    let env = ChildEnv::new();
    assert_eq!(env.len(), 0);
    assert!(!env.contains("PORT"));
    assert_eq!(env.get("PORT"), None);
    assert!(env.into_pairs().is_empty());
}

#[test]
fn insert_then_get() {
    let mut env = ChildEnv::new();
    env.insert(owned("A"), owned("1"));
    env.insert(owned("B"), owned("2"));
    assert_eq!(env.len(), 2);
    assert_eq!(env.get("A"), Some(&owned("1")));
    assert_eq!(env.get("B"), Some(&owned("2")));
    assert_eq!(env.get("C"), None);
    assert!(env.contains("A"));
    assert!(!env.contains("a"));
}

#[test]
fn insert_replaces_value_of_same_name() {
    let mut env = ChildEnv::new();
    env.insert(owned("A"), owned("1"));
    env.insert(owned("B"), owned("2"));
    env.insert(owned("A"), owned("3"));
    assert_eq!(env.len(), 2);
    assert_eq!(env.get("A"), Some(&owned("3")));
    assert_eq!(env.get("B"), Some(&owned("2")));
    let mut pairs = env.into_pairs();
    pairs.sort();
    assert_eq!(pairs, vec![(owned("A"), owned("3")), (owned("B"), owned("2"))]);
}

#[test]
fn names_are_compared_by_their_whole_text() {
    let mut env = ChildEnv::new();
    env.insert(owned("PORT"), owned("1"));
    env.insert(owned("PORTS"), owned("2"));
    env.insert(owned("POR"), owned("3"));
    env.insert(owned("p\u{f6}rt"), owned("4"));
    assert_eq!(env.len(), 4);
    assert_eq!(env.get("PORT"), Some(&owned("1")));
    assert_eq!(env.get("PORTS"), Some(&owned("2")));
    assert_eq!(env.get("POR"), Some(&owned("3")));
    assert_eq!(env.get("p\u{f6}rt"), Some(&owned("4")));
    assert_eq!(env.get("port"), None);
}

#[test]
fn assembled_env_without_engine_path() {
    let env = assemble_env("42069", "/home/u/LocalChessAnalyzer/data", None);
    assert_eq!(env.len(), 2);
    assert_eq!(env.get("PORT"), Some(&owned("42069")));
    assert_eq!(env.get("DATA_DIR"), Some(&owned("/home/u/LocalChessAnalyzer/data")));
    assert!(!env.contains("STOCKFISH_PATH"));
    assert_eq!(env.get("STOCKFISH_PATH"), None);
}

#[test]
fn assembled_env_with_engine_path() {
    let env = assemble_env("8080", "/tmp/x", Some(owned("/opt/stockfish/bin")));
    assert_eq!(env.len(), 3);
    assert_eq!(env.get("PORT"), Some(&owned("8080")));
    assert_eq!(env.get("DATA_DIR"), Some(&owned("/tmp/x")));
    assert_eq!(env.get("STOCKFISH_PATH"), Some(&owned("/opt/stockfish/bin")));
    let mut pairs = env.into_pairs();
    pairs.sort();
    assert_eq!(
        pairs,
        vec![
            (owned("DATA_DIR"), owned("/tmp/x")),
            (owned("PORT"), owned("8080")),
            (owned("STOCKFISH_PATH"), owned("/opt/stockfish/bin")),
        ]
    );
}

#[test]
fn assembled_env_keeps_an_empty_engine_path() {
    let env = assemble_env("1", "2", Some(owned("")));
    assert_eq!(env.len(), 3);
    assert_eq!(env.get("STOCKFISH_PATH"), Some(&owned("")));
}
