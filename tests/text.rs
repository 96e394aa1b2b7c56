use athena_shell::text::{
    collapse_terminator_space, ends_with_semicolon, eq_ignoring_ascii_case, join_with_spaces,
    same_text, trim_str,
};

#[test]
fn trims_like_std() {
    for s in ["", "  ", " a ", "\n\ta b\r\n", "\u{2003}x\u{85}", "x"] {
        assert_eq!(trim_str(s), s.trim());
    }
}

#[test]
fn joins_and_collapses() {
    let fs = vec!["SELECT".to_string(), "1".to_string(), ";".to_string()];
    let joined = join_with_spaces(&fs);
    assert_eq!(joined, "SELECT 1 ;");
    assert_eq!(collapse_terminator_space(&joined), "SELECT 1;");
    assert_eq!(join_with_spaces(&Vec::new()), "");
    assert_eq!(collapse_terminator_space("a  ;"), "a ;");
    assert_eq!(collapse_terminator_space(" ; ;"), ";;");
}

#[test]
fn text_comparisons() {
    assert!(ends_with_semicolon("x;"));
    assert!(!ends_with_semicolon("x; "));
    assert!(!ends_with_semicolon(""));
    assert!(same_text("abc", "abc"));
    assert!(!same_text("abc", "abd"));
    assert!(eq_ignoring_ascii_case("ExIt;", "exit;"));
    assert!(!eq_ignoring_ascii_case("exit;", "EXIT;"));
}
