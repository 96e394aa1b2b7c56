use athena_shell::meta::MetaCommand;

#[test]
fn parses_each_meta_command() {
    assert_eq!(MetaCommand::parse("\\q"), Some(MetaCommand::Quit));
    assert_eq!(MetaCommand::parse("\\h\n"), Some(MetaCommand::Help));
    assert_eq!(MetaCommand::parse("  \\lc "), Some(MetaCommand::ListCatalogs));
    assert_eq!(
        MetaCommand::parse("\\ld AwsDataCatalog"),
        Some(MetaCommand::ListDatabases("AwsDataCatalog".to_string()))
    );
    assert_eq!(
        MetaCommand::parse("\\lt   sales db  \n"),
        Some(MetaCommand::ListTables("sales db".to_string()))
    );
}

#[test]
fn unknown_or_malformed_tokens_are_no_meta_command() {
    assert_eq!(MetaCommand::parse("\\x"), None);
    assert_eq!(MetaCommand::parse("\\ld"), None);
    assert_eq!(MetaCommand::parse("\\lt   "), None);
    assert_eq!(MetaCommand::parse("\\q now"), None);
    assert_eq!(MetaCommand::parse("\\lc;"), None);
    assert_eq!(MetaCommand::parse("SELECT 1;"), None);
    assert_eq!(MetaCommand::parse(""), None);
}
