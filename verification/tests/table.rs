use grpc_hook::rewrite::ReverseRewriteTable;

fn reversed(table: &ReverseRewriteTable, key: &str) -> Option<String> {
    table.reverse(key)
}

#[test]
fn empty_table_knows_nothing() {
    let table = ReverseRewriteTable::default();
    assert_eq!(reversed(&table, "a"), None);
    assert_eq!(reversed(&table, ""), None);
}

#[test]
fn whole_key_comes_back() {
    let mut table = ReverseRewriteTable::default();
    table.insert("tenant_42/provision/response", "provision/response");
    assert_eq!(
        reversed(&table, "tenant_42/provision/response"),
        Some("provision/response".to_owned())
    );
    assert_eq!(reversed(&table, "tenant_42/provision/response/x"), None);
    assert_eq!(reversed(&table, "provision/response"), None);
}

#[test]
fn unchanged_key_is_not_recorded() {
    let mut table = ReverseRewriteTable::default();
    table.insert("a/b", "a/b");
    table.insert("a/*", "a/*");
    assert_eq!(reversed(&table, "a/b"), None);
    assert_eq!(reversed(&table, "a/x"), None);
}

#[test]
fn prefix_comes_back() {
    let mut table = ReverseRewriteTable::default();
    table.insert("tenant_42/provision/**", "provision/**");
    assert_eq!(reversed(&table, "tenant_42/provision/a/b"), Some("provision/a/b".to_owned()));
    assert_eq!(reversed(&table, "tenant_42/provision/"), Some("provision/".to_owned()));
    assert_eq!(reversed(&table, "tenant_42/provision"), None);
    assert_eq!(reversed(&table, "tenant_43/provision/a"), None);
}

#[test]
fn plus_and_dollar_make_prefixes_too() {
    let mut table = ReverseRewriteTable::default();
    table.insert("t/a/+/x", "a/+/x");
    table.insert("t/b$*", "b$*");
    assert_eq!(reversed(&table, "t/a/1/x"), Some("a/1/x".to_owned()));
    assert_eq!(reversed(&table, "t/bcd"), Some("bcd".to_owned()));
}

#[test]
fn rewritten_key_without_a_wildcard_is_a_whole_prefix() {
    let mut table = ReverseRewriteTable::default();
    table.insert("t/all", "a/*");
    assert_eq!(reversed(&table, "t/all"), Some("a/".to_owned()));
    assert_eq!(reversed(&table, "t/all/x"), Some("a//x".to_owned()));
}

#[test]
fn leading_wildcards_stand_for_everything() {
    let mut table = ReverseRewriteTable::default();
    table.insert("t/**", "**");
    assert_eq!(reversed(&table, "t/a/b"), Some("a/b".to_owned()));
    let mut table = ReverseRewriteTable::default();
    table.insert("*", "a/*");
    assert_eq!(reversed(&table, "b"), Some("a/b".to_owned()));
    assert_eq!(reversed(&table, ""), Some("a/".to_owned()));
}

#[test]
fn whole_key_goes_before_prefix() {
    let mut table = ReverseRewriteTable::default();
    table.insert("t/a/**", "a/**");
    table.insert("t/a/b", "other");
    assert_eq!(reversed(&table, "t/a/b"), Some("other".to_owned()));
    assert_eq!(reversed(&table, "t/a/c"), Some("a/c".to_owned()));
}

#[test]
fn first_record_wins() {
    let mut table = ReverseRewriteTable::default();
    table.insert("t/a", "a");
    table.insert("t/a", "b");
    assert_eq!(reversed(&table, "t/a"), Some("a".to_owned()));
    table.insert("t/p/*", "p/*");
    table.insert("t/p/**", "q/**");
    assert_eq!(reversed(&table, "t/p/x"), Some("p/x".to_owned()));
}

#[test]
fn earlier_prefix_goes_before_longer_prefix() {
    let mut table = ReverseRewriteTable::default();
    table.insert("t/*", "u/*");
    table.insert("t/a/*", "v/*");
    assert_eq!(reversed(&table, "t/a/x"), Some("u/a/x".to_owned()));
}

#[test]
fn other_keys_keep_their_answers() {
    let mut table = ReverseRewriteTable::default();
    table.insert("t/a", "a");
    table.insert("t/b", "b");
    table.insert("u/*", "c/*");
    assert_eq!(reversed(&table, "t/a"), Some("a".to_owned()));
    assert_eq!(reversed(&table, "t/b"), Some("b".to_owned()));
    assert_eq!(reversed(&table, "t/c"), None);
}

#[test]
fn text_beyond_ascii_is_kept() {
    let mut table = ReverseRewriteTable::default();
    table.insert("t\u{e9}/\u{20ac}/*", "\u{20ac}/*");
    assert_eq!(
        reversed(&table, "t\u{e9}/\u{20ac}/\u{1f600}"),
        Some("\u{20ac}/\u{1f600}".to_owned())
    );
}
