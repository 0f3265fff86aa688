use hfuzz::debugger::debugger_uses_lldb;
use hfuzz::paths::{
    debug_binary_path, engine_binary_path, release_binary_path, resolve_corpus_dir,
    resolve_output_dir, resolve_workspace, root_search_step, workspace_target_dir,
    RootSearchStep,
};
use hfuzz::strutil::{
    contains_str, file_name_of, join_with_spaces, split_whitespace, str_eq,
};

#[test]
fn split_whitespace_tokens() {
    let empty: Vec<String> = vec![];
    assert_eq!(split_whitespace(""), empty);
    assert_eq!(split_whitespace("   \t \n "), empty);
    assert_eq!(split_whitespace("one"), vec!["one"]);
    assert_eq!(split_whitespace("a b c"), vec!["a", "b", "c"]);
    assert_eq!(split_whitespace("  -t 1\t-n\n12  "), vec!["-t", "1", "-n", "12"]);
    // No quoting support: quotes are ordinary characters.
    assert_eq!(split_whitespace("\"a b\""), vec!["\"a", "b\""]);
}

#[test]
fn join_with_spaces_values() {
    assert_eq!(join_with_spaces(&vec![]), "");
    assert_eq!(join_with_spaces(&vec!["a".to_string()]), "a");
    let toks = vec!["x".to_string(), "y".to_string(), "z".to_string()];
    assert_eq!(join_with_spaces(&toks), "x y z");
    // Splitting what was joined yields the tokens again.
    assert_eq!(split_whitespace(&join_with_spaces(&toks)), toks);
}

#[test]
fn str_eq_exact() {
    assert!(str_eq("", ""));
    assert!(str_eq("abc", "abc"));
    assert!(!str_eq("abc", "abd"));
    assert!(!str_eq("abc", "abcd"));
    assert!(!str_eq("ABC", "abc"));
}

#[test]
fn contains_str_search() {
    assert!(contains_str("rust-lldb", "lldb"));
    assert!(contains_str("lldb", "lldb"));
    assert!(contains_str("anything", ""));
    assert!(!contains_str("rust-gdb", "lldb"));
    assert!(!contains_str("lld", "lldb"));
}

#[test]
fn file_name_after_last_separator() {
    assert_eq!(file_name_of("rust-lldb"), "rust-lldb");
    assert_eq!(file_name_of("/usr/bin/lldb-7"), "lldb-7");
    assert_eq!(file_name_of("a/b/c"), "c");
    assert_eq!(file_name_of(""), "");
    assert_eq!(file_name_of("a/"), "");
}

#[test]
fn debugger_style_selection() {
    assert!(debugger_uses_lldb("rust-lldb"));
    assert!(debugger_uses_lldb("/usr/bin/lldb-7"));
    assert!(debugger_uses_lldb("my-lldb-wrapper"));
    assert!(!debugger_uses_lldb("rust-gdb"));
    assert!(!debugger_uses_lldb("/usr/bin/gdb"));
    // The selection looks at the file name only, not the directory part.
    assert!(!debugger_uses_lldb("/opt/lldb/bin/gdb"));
}

#[test]
fn path_resolution_defaults() {
    assert_eq!(resolve_workspace(&None, &None), "hfuzz_workspace");
    assert_eq!(resolve_workspace(&None, &Some("ws".to_string())), "ws");
    assert_eq!(resolve_workspace(&Some("flag".to_string()), &Some("ws".to_string())), "flag");
    assert_eq!(resolve_output_dir(&None), "hfuzz_target");
    assert_eq!(resolve_output_dir(&Some("out".to_string())), "out");
    assert_eq!(resolve_corpus_dir(&None, &None, "ws", "demo"), "ws/demo/input");
    assert_eq!(resolve_corpus_dir(&None, &Some("e".to_string()), "ws", "demo"), "e");
    assert_eq!(
        resolve_corpus_dir(&Some("f".to_string()), &Some("e".to_string()), "ws", "demo"),
        "f"
    );
}

#[test]
fn binary_paths() {
    assert_eq!(release_binary_path("out", "triple", "demo"), "out/triple/release/demo");
    assert_eq!(debug_binary_path("out", "triple", "demo"), "out/triple/debug/demo");
    assert_eq!(engine_binary_path("hfuzz_target"), "hfuzz_target/honggfuzz");
    assert_eq!(workspace_target_dir("hfuzz_workspace", "demo"), "hfuzz_workspace/demo");
}

#[test]
fn root_search_decisions() {
    assert_eq!(root_search_step(true, true), RootSearchStep::Found);
    assert_eq!(root_search_step(true, false), RootSearchStep::Found);
    assert_eq!(root_search_step(false, true), RootSearchStep::Ascend);
    assert_eq!(root_search_step(false, false), RootSearchStep::GiveUp);
}
