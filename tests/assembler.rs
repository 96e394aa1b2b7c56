use athena_shell::assembler::{FeedOutcome, StatementAssembler};
use athena_shell::meta::MetaCommand;

fn complete(s: &str) -> FeedOutcome {
    FeedOutcome::Complete(s.to_string())
}

#[test]
fn single_line_statement() {
    let mut a = StatementAssembler::new();
    assert_eq!(a.feed("SELECT 1;"), complete("SELECT 1;"));
    assert!(!a.is_accumulating());
}

#[test]
fn two_line_statement() {
    let mut a = StatementAssembler::new();
    assert_eq!(a.feed("SELECT"), FeedOutcome::Pending);
    assert!(a.is_accumulating());
    assert_eq!(a.feed("1;"), complete("SELECT 1;"));
    assert!(!a.is_accumulating());
}

#[test]
fn raw_lines_are_trimmed() {
    let mut a = StatementAssembler::new();
    assert_eq!(a.feed("  SELECT *\n"), FeedOutcome::Pending);
    assert_eq!(a.feed("\tFROM t  \r\n"), FeedOutcome::Pending);
    assert_eq!(a.feed("  ;\n"), complete("SELECT * FROM t;"));
}

#[test]
fn unterminated_lines_never_complete() {
    let mut a = StatementAssembler::new();
    for line in ["SELECT a,", "b,", "", "c", "FROM x", "WHERE y = ';' AND z"] {
        let out = a.feed(line);
        assert!(!matches!(out, FeedOutcome::Complete(_)));
        assert!(a.is_accumulating());
    }
    assert_eq!(a.pending_len(), 5);
}

#[test]
fn semicolon_inside_a_line_continues() {
    let mut a = StatementAssembler::new();
    assert_eq!(a.feed("SELECT ';' AS x"), FeedOutcome::Pending);
    assert!(a.is_accumulating());
    assert_eq!(a.feed("FROM t;"), complete("SELECT ';' AS x FROM t;"));
}

#[test]
fn fragments_join_like_one_line() {
    let fragments = ["SELECT a", "FROM t", "WHERE b = 1 ;"];
    let mut a = StatementAssembler::new();
    let mut last = FeedOutcome::Skipped;
    for f in fragments {
        last = a.feed(f);
    }
    assert_eq!(last, complete("SELECT a FROM t WHERE b = 1;"));
    let mut b = StatementAssembler::new();
    assert_eq!(b.feed(&fragments.join(" ")), last);
}

#[test]
fn space_before_terminator_collapses_everywhere() {
    let mut a = StatementAssembler::new();
    assert_eq!(a.feed("SELECT 'x ;y' ;"), complete("SELECT 'x;y';"));
}

#[test]
fn interrupt_clears_pending_fragments() {
    let mut a = StatementAssembler::new();
    for line in ["SELECT", "a", "b", "c"] {
        a.feed(line);
    }
    assert_eq!(a.pending_len(), 4);
    assert!(a.interrupt());
    assert!(!a.is_accumulating());
    assert_eq!(a.pending_len(), 0);
    assert!(!a.interrupt());
    assert_eq!(a.feed("1;"), complete("1;"));
}

#[test]
fn blank_lines_are_skipped() {
    let mut a = StatementAssembler::new();
    assert_eq!(a.feed(""), FeedOutcome::Skipped);
    assert_eq!(a.feed("  \n"), FeedOutcome::Skipped);
    assert!(!a.is_accumulating());
    a.feed("SELECT");
    assert_eq!(a.feed("\n"), FeedOutcome::Skipped);
    assert_eq!(a.feed("2;"), complete("SELECT 2;"));
}

#[test]
fn meta_command_only_when_idle() {
    let mut a = StatementAssembler::new();
    assert_eq!(a.feed("\\lc"), FeedOutcome::Meta(MetaCommand::ListCatalogs));
    assert!(!a.is_accumulating());
    a.feed("SELECT");
    assert_eq!(a.feed("\\lc"), FeedOutcome::Pending);
    assert_eq!(a.feed(";"), complete("SELECT \\lc;"));
}

#[test]
fn unicode_whitespace_is_trimmed() {
    let mut a = StatementAssembler::new();
    assert_eq!(a.feed("\u{3000}SELECT 1;\u{a0}"), complete("SELECT 1;"));
}
