use kongg::ignore::{build_ignore_list, IgnoreFilter};

#[test]
fn default_patterns_match_the_usual_noise() {
    let f = build_ignore_list().expect("default patterns compile");
    assert!(f.is_match("/home/u/p/.git/objects/aa"));
    assert!(f.is_match("/home/u/p/node_modules/x/index.js"));
    assert!(f.is_match("/home/u/p/target/debug/build"));
    assert!(f.is_match("/home/u/p/app.log"));
    assert!(f.is_match("/home/u/p/.gitignore"));
}

#[test]
fn default_patterns_leave_ordinary_paths_alone() {
    let f = build_ignore_list().expect("default patterns compile");
    assert!(!f.is_match("/home/u/p/src/main.rs"));
    assert!(!f.is_match("/home/u/p/notes.txt"));
    assert!(!f.is_match("/home/u/p/logbook.md"));
}

#[test]
fn matches_any_needs_only_one_matching_path() {
    let f = build_ignore_list().expect("default patterns compile");
    let paths = vec!["/a/b.txt".to_string(), "/a/.git/c".to_string()];
    assert!(f.matches_any(&paths));
    let clean = vec!["/a/b.txt".to_string(), "/a/c.txt".to_string()];
    assert!(!f.matches_any(&clean));
    let empty: Vec<String> = Vec::new();
    assert!(!f.matches_any(&empty));
}

#[test]
fn custom_pattern_set_is_honoured() {
    let patterns = vec!["**/*.tmp".to_string()];
    let f = IgnoreFilter::new(&patterns).expect("pattern compiles");
    assert!(f.is_match("/x/y/z.tmp"));
    assert!(!f.is_match("/x/y/z.txt"));
}

#[test]
fn invalid_pattern_is_rejected() {
    let patterns = vec!["a{".to_string()];
    assert!(IgnoreFilter::new(&patterns).is_none());
}
