use easy_sqlx_core::quote::{always_no_reserve, always_reserve, QuotePolicy, Quoter};

fn pg() -> Quoter {
    Quoter::new(b'"', b'"', QuotePolicy::QuotePolicyAlways)
}

fn brackets() -> Quoter {
    Quoter::new(b'[', b']', QuotePolicy::QuotePolicyAlways)
}

fn q(quoter: &Quoter, s: &str) -> String {
    quoter.quote(&s.to_string())
}

#[test]
fn reserve_predicates_are_constant() {
    assert!(always_reserve(&"select".to_string()));
    assert!(always_reserve(&"".to_string()));
    assert!(!always_no_reserve(&"select".to_string()));
}

#[test]
fn quote_puts_marks_round_each_word() {
    let b = brackets();
    assert_eq!(q(&b, "name"), "[name]");
    assert_eq!(q(&b, "`name`"), "[name]");
    assert_eq!(q(&b, "[name]"), "[name]");
    assert_eq!(q(&b, "schema.name"), "[schema].[name]");
    assert_eq!(q(&b, "`schema`.`name`"), "[schema].[name]");
    assert_eq!(q(&b, "`schema`.name"), "[schema].[name]");
    assert_eq!(q(&b, "schema.`name`"), "[schema].[name]");
    assert_eq!(q(&b, "[schema].name"), "[schema].[name]");
    assert_eq!(q(&b, "schema.[name]"), "[schema].[name]");
}

#[test]
fn quote_keeps_alias_keyword() {
    let b = brackets();
    assert_eq!(q(&b, "name AS a"), "[name] AS [a]");
    assert_eq!(q(&b, "schema.name AS a"), "[schema].[name] AS [a]");
    assert_eq!(q(&pg(), "abc as name"), "\"abc\" as \"name\"");
}

#[test]
fn quote_leaves_wildcard_bare() {
    assert_eq!(q(&pg(), "*"), "*");
    assert_eq!(q(&pg(), "t.*"), "\"t\".*");
    assert_eq!(q(&pg(), "\"*\""), "*");
}

#[test]
fn quote_handles_odd_identifiers() {
    let p = pg();
    assert_eq!(q(&p, ""), "");
    assert_eq!(q(&p, " "), " ");
    assert_eq!(q(&p, "a b"), "\"a\" \"b\"");
    assert_eq!(q(&p, "\""), "\"\"\"");
    assert_eq!(q(&p, "a..b"), "\"a\".\"\".\"b\"");
    assert_eq!(q(&p, "a as"), "\"a\" as");
}

#[test]
fn quote_with_policy_none_only_strips() {
    let n = Quoter::new(b'"', b'"', QuotePolicy::QuotePolicyNone);
    assert_eq!(q(&n, "schema.name"), "schema.name");
    assert_eq!(q(&n, "`schema`.\"name\""), "schema.name");
}

#[test]
fn quote_with_reserved_words_quotes_those_words_only() {
    let r = Quoter::with_reserved_words(b'"', b'"', vec!["user".to_string(), "Order".to_string()]);
    assert!(r.is_reserved(&"user".to_string()));
    assert!(r.is_reserved(&"USER".to_string()));
    assert!(r.is_reserved(&"order".to_string()));
    assert!(!r.is_reserved(&"users".to_string()));
    assert!(!r.is_reserved(&"".to_string()));
    assert_eq!(q(&r, "public.user"), "public.\"user\"");
    assert_eq!(q(&r, "`public`.`User`"), "public.\"User\"");
    assert_eq!(q(&r, "order as o"), "\"order\" as o");
    assert_eq!(q(&r, "name"), "name");
    assert_eq!(q(&r, &q(&r, "public.user")), "public.\"user\"");
    assert_eq!(r.replace(&"select `id` from `user`".to_string()), "select id from \"user\"");
    let copy = r.clone();
    assert_eq!(q(&copy, "app.order"), "app.\"order\"");
    let none = Quoter::new(b'"', b'"', QuotePolicy::QuotePolicyReserved);
    assert!(!none.is_reserved(&"user".to_string()));
    assert_eq!(q(&none, "schema.name"), "schema.name");
}

#[test]
fn quoter_without_marks_strips_backticks() {
    let e = Quoter::new(0, 0, QuotePolicy::QuotePolicyAlways);
    assert!(e.is_empty());
    assert!(!pg().is_empty());
    assert_eq!(q(&e, "`schema`.name"), "schema.name");
}

#[test]
fn quoting_twice_changes_nothing() {
    let p = pg();
    for s in ["name", "schema.name", "name AS a", "`a`.b", "*", "t.*", "a b c", "public.user as u"] {
        let once = q(&p, s);
        assert_eq!(q(&p, &once), once, "quoting {:?}", s);
    }
}

#[test]
fn common_quoter_uses_backticks() {
    assert_eq!(q(&Quoter::common_quoter(), "a.b"), "`a`.`b`");
}

#[test]
fn join_trims_and_quotes_each_item() {
    let p = pg();
    let items = vec![" id".to_string(), "name ".to_string(), "t.c".to_string()];
    assert_eq!(p.join(items, &",".to_string()), "\"id\",\"name\",\"t\".\"c\"");
    assert_eq!(p.join(vec![], &",".to_string()), "");
    let mut buf = "x:".to_string();
    p.join_write(&mut buf, vec!["a".to_string()], &", ".to_string());
    assert_eq!(buf, "x:\"a\"");
}

#[test]
fn trim_removes_marks_at_the_ends() {
    let b = brackets();
    assert_eq!(b.trim("[name]".to_string()), "name");
    assert_eq!(b.trim("[[name]]".to_string()), "name");
    assert_eq!(b.trim("name".to_string()), "name");
    assert_eq!(b.trim("[".to_string()), "[");
    assert_eq!(b.trim("[]".to_string()), "");
    assert_eq!(pg().trim("\"a\".\"b\"".to_string()), "a\".\"b");
}

#[test]
fn quote_to_appends() {
    let mut buf = "select ".to_string();
    pg().quote_to(&mut buf, &"t.c".to_string());
    assert_eq!(buf, "select \"t\".\"c\"");
}

#[test]
fn replace_turns_backticks_into_marks() {
    let p = pg();
    assert_eq!(p.replace(&"select `a` from `t`".to_string()), "select \"a\" from \"t\"");
    assert_eq!(
        p.replace(&"select `a` from `t` where x = '`q`'".to_string()),
        "select \"a\" from \"t\" where x = '`q`'"
    );
    assert_eq!(p.replace(&"".to_string()), "");
    assert_eq!(p.replace(&"`open".to_string()), "\"open\"");
    let n = Quoter::new(b'"', b'"', QuotePolicy::QuotePolicyNone);
    assert_eq!(n.replace(&"select `a`".to_string()), "select a");
    let e = Quoter::new(0, 0, QuotePolicy::QuotePolicyAlways);
    assert_eq!(e.replace(&"select `a`".to_string()), "select `a`");
}
