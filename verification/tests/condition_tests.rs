use easy_sqlx_core::condition::{placeholder_text, Condition, Operator, Where, WhereAppend};
use easy_sqlx_core::quote::{QuotePolicy, Quoter};
use easy_sqlx_core::value::{Pair, Query, Value};

fn s(text: &str) -> String {
    text.to_string()
}

fn quoter() -> Quoter {
    Quoter::new(b'"', b'"', QuotePolicy::QuotePolicyAlways)
}

fn leaf(name: &str, value: i64, op: Operator) -> Condition {
    Condition::Condition(Pair { name: s(name), value: Value::Long(Some(value)) }, op)
}

fn and(l: Condition, r: Condition) -> Condition {
    Condition::And(Box::new(l), Box::new(r))
}

fn or(l: Condition, r: Condition) -> Condition {
    Condition::Or(Box::new(l), Box::new(r))
}

fn a() -> Condition {
    leaf("a", 1, Operator::Eq)
}

fn b() -> Condition {
    leaf("b", 2, Operator::Gt)
}

fn c() -> Condition {
    leaf("c", 3, Operator::Le)
}

fn longs(values: &[i64]) -> Value {
    Value::Array(values.iter().map(|v| Value::Long(Some(*v))).collect())
}

fn bound(cond: &Condition) -> Vec<Value> {
    cond.bind_to_query(Query { sql: s(""), args: vec![] }).args
}

#[test]
fn operator_names_round_trip() {
    let all = [
        (Operator::Eq, "eq", "="),
        (Operator::Neq, "neq", "<>"),
        (Operator::Gt, "gt", ">"),
        (Operator::Ge, "ge", ">="),
        (Operator::Lt, "lt", "<"),
        (Operator::Le, "le", "<="),
        (Operator::In, "in", "in"),
        (Operator::Like, "like", "like"),
        (Operator::IsNull, "is_null", "is null"),
        (Operator::IsNotNull, "is_not_null", "is not null"),
    ];
    for (op, name, sql) in all {
        assert_eq!(op.to_string(), name);
        assert_eq!(op.sql(), sql);
        assert_eq!(Operator::resolve(s(name)), op);
    }
}

#[test]
fn operator_resolve_falls_back_to_eq() {
    assert_eq!(Operator::resolve(s("between")), Operator::Eq);
    assert_eq!(Operator::resolve(s("")), Operator::Eq);
    assert_eq!(Operator::resolve(s("IN")), Operator::Eq);
}

#[test]
fn operators_without_value() {
    assert!(Operator::IsNull.is_not_param());
    assert!(Operator::IsNotNull.is_not_param());
    for op in [Operator::Eq, Operator::Neq, Operator::Gt, Operator::Ge, Operator::Lt, Operator::Le, Operator::In, Operator::Like] {
        assert!(!op.is_not_param());
    }
}

#[test]
fn condition_kinds() {
    assert!(a().is_condition() && !a().is_and() && !a().is_or());
    assert!(and(a(), b()).is_and() && !and(a(), b()).is_condition() && !and(a(), b()).is_or());
    assert!(or(a(), b()).is_or() && !or(a(), b()).is_condition() && !or(a(), b()).is_and());
}

#[test]
fn placeholder_is_dollar_and_number() {
    assert_eq!(placeholder_text(1), "$1");
    assert_eq!(placeholder_text(12), "$12");
}

#[test]
fn leaf_renders_field_operator_placeholder() {
    assert_eq!(a().sql(1, &quoter()), (s("\"a\" = $1"), 2));
    assert_eq!(b().sql(7, &quoter()), (s("\"b\" > $7"), 8));
    assert_eq!(leaf("t.n", 0, Operator::Like).sql(3, &quoter()), (s("\"t\".\"n\" like $3"), 4));
}

#[test]
fn leaf_without_value_takes_no_placeholder() {
    assert_eq!(leaf("deleted_at", 0, Operator::IsNull).sql(4, &quoter()), (s("\"deleted_at\" is null"), 4));
    assert_eq!(
        leaf("deleted_at", 0, Operator::IsNotNull).sql(4, &quoter()),
        (s("\"deleted_at\" is not null"), 4)
    );
}

#[test]
fn in_leaf_takes_one_placeholder_for_each_item() {
    let cond = Condition::Condition(Pair { name: s("id"), value: longs(&[10, 20, 30]) }, Operator::In);
    assert_eq!(cond.sql(5, &quoter()), (s("\"id\" in ($5,$6,$7)"), 8));
    let one = Condition::Condition(Pair { name: s("id"), value: longs(&[10]) }, Operator::In);
    assert_eq!(one.sql(1, &quoter()), (s("\"id\" in ($1)"), 2));
    let none = Condition::Condition(Pair { name: s("id"), value: longs(&[]) }, Operator::In);
    assert_eq!(none.sql(9, &quoter()), (s("\"id\" in ()"), 9));
    let scalar = leaf("id", 1, Operator::In);
    assert_eq!(scalar.sql(2, &quoter()), (s("\"id\" in ($2)"), 3));
}

#[test]
fn and_of_or_puts_brackets_round_the_or() {
    assert_eq!(
        and(or(a(), b()), c()).sql(1, &quoter()),
        (s("(\"a\" = $1 or \"b\" > $2) and \"c\" <= $3"), 4)
    );
    assert_eq!(
        and(a(), or(b(), c())).sql(1, &quoter()),
        (s("\"a\" = $1 and (\"b\" > $2 or \"c\" <= $3)"), 4)
    );
    assert_eq!(
        and(or(a(), b()), or(b(), c())).sql(1, &quoter()),
        (s("(\"a\" = $1 or \"b\" > $2) and (\"b\" > $3 or \"c\" <= $4)"), 5)
    );
}

#[test]
fn or_of_and_puts_brackets_round_the_and() {
    assert_eq!(
        or(and(a(), b()), c()).sql(1, &quoter()),
        (s("(\"a\" = $1 and \"b\" > $2) or \"c\" <= $3"), 4)
    );
    assert_eq!(
        or(a(), and(b(), c())).sql(2, &quoter()),
        (s("\"a\" = $2 or (\"b\" > $3 and \"c\" <= $4)"), 5)
    );
}

#[test]
fn same_connective_stays_flat() {
    assert_eq!(
        and(and(a(), b()), c()).sql(1, &quoter()),
        (s("\"a\" = $1 and \"b\" > $2 and \"c\" <= $3"), 4)
    );
    assert_eq!(
        or(a(), or(b(), c())).sql(1, &quoter()),
        (s("\"a\" = $1 or \"b\" > $2 or \"c\" <= $3"), 4)
    );
}

#[test]
fn numbering_goes_on_across_leaves_of_all_kinds() {
    let list = Condition::Condition(Pair { name: s("id"), value: longs(&[1, 2]) }, Operator::In);
    let null = leaf("x", 0, Operator::IsNull);
    let tree = and(or(list, null), and(a(), b()));
    assert_eq!(
        tree.sql(3, &quoter()),
        (s("(\"id\" in ($3,$4) or \"x\" is null) and \"a\" = $5 and \"b\" > $6"), 7)
    );
}

#[test]
fn binding_follows_the_leaves_from_left_to_right() {
    let l1 = leaf("a", 1, Operator::Eq);
    let l2 = leaf("b", 2, Operator::Eq);
    let l3 = leaf("c", 3, Operator::Eq);
    let expected = vec![Value::Long(Some(1)), Value::Long(Some(2)), Value::Long(Some(3))];
    assert_eq!(bound(&and(and(l1.clone(), l2.clone()), l3.clone())), expected);
    assert_eq!(bound(&and(l1.clone(), or(l2.clone(), l3.clone()))), expected);
    assert_eq!(bound(&or(and(l1.clone(), l2.clone()), l3.clone())), expected);
    assert_eq!(bound(&or(l1, and(l2, l3))), expected);
}

#[test]
fn binding_skips_leaves_without_value_and_unfolds_lists() {
    let list = Condition::Condition(Pair { name: s("id"), value: longs(&[1, 2]) }, Operator::In);
    let null = leaf("x", 9, Operator::IsNull);
    let text = Condition::Condition(
        Pair { name: s("n"), value: Value::Text(Some(s("%a%"))) },
        Operator::Like,
    );
    let tree = and(or(list, null), text);
    let query = tree.bind_to_query(Query { sql: s("q"), args: vec![Value::Bool(Some(true))] });
    assert_eq!(query.sql, "q");
    assert_eq!(
        query.args,
        vec![
            Value::Bool(Some(true)),
            Value::Long(Some(1)),
            Value::Long(Some(2)),
            Value::Text(Some(s("%a%"))),
        ]
    );
    let (_, next) = tree.sql(1, &quoter());
    assert_eq!(next - 1, 3);
}

#[test]
fn next_index_counts_placeholders() {
    let list = Condition::Condition(Pair { name: s("id"), value: longs(&[1, 2]) }, Operator::In);
    let tree = and(list, or(a(), leaf("x", 0, Operator::IsNotNull)));
    assert_eq!(tree.next_index(1), Some(4));
    assert_eq!(tree.next_index(usize::MAX - 3), Some(usize::MAX));
    assert_eq!(tree.next_index(usize::MAX - 2), None);
    assert_eq!(a().next_index(usize::MAX), None);
    assert_eq!(leaf("x", 0, Operator::IsNull).next_index(usize::MAX), Some(usize::MAX));
}

#[test]
fn where_joins_conditions() {
    let w = Where::new(a()).and(b()).or(c());
    assert_eq!(w.sql(1, &quoter()), (s("(\"a\" = $1 and \"b\" > $2) or \"c\" <= $3"), 4));
    let w = Where::new(a()).or(b()).and(c());
    assert_eq!(w.sql(1, &quoter()), (s("(\"a\" = $1 or \"b\" > $2) and \"c\" <= $3"), 4));
    let w = Where::new(a()).and(Where::new(b()).or(c()));
    assert_eq!(w.sql(1, &quoter()), (s("\"a\" = $1 and (\"b\" > $2 or \"c\" <= $3)"), 4));
}

#[test]
fn empty_where_renders_nothing() {
    let w = Where::default();
    assert_eq!(w.sql(5, &quoter()), (s(""), 5));
    assert_eq!(w.next_index(5), Some(5));
    assert_eq!(w.bind_to_query(Query { sql: s(""), args: vec![] }).args, vec![]);
    let w = Where::default().and(a());
    assert_eq!(w.sql(1, &quoter()), (s("\"a\" = $1"), 2));
    let w = Where::default().or(Where::default());
    assert_eq!(w.sql(1, &quoter()), (s(""), 1));
    let w = Where::new(a()).and(Where::default());
    assert_eq!(w.sql(1, &quoter()), (s("\"a\" = $1"), 2));
    let w = Where::default().or(Where::new(b()));
    assert_eq!(w.sql(1, &quoter()), (s("\"b\" > $1"), 2));
}

#[test]
fn where_binds_its_condition() {
    let w = Where::new(a()).and(b());
    let q = w.bind_to_query(Query { sql: s(""), args: vec![] });
    assert_eq!(q.args, vec![Value::Long(Some(1)), Value::Long(Some(2))]);
    let copy = w.clone();
    assert_eq!(copy.sql(1, &quoter()), w.sql(1, &quoter()));
}

#[test]
fn value_len_and_nested_lists() {
    assert_eq!(Value::Int(Some(1)).len(), 1);
    assert_eq!(Value::Text(None).len(), 1);
    assert_eq!(longs(&[1, 2, 3]).len(), 3);
    assert_eq!(longs(&[]).len(), 0);
    let nested = Value::Array(vec![longs(&[1, 2]), Value::Int(Some(3)), longs(&[])]);
    assert_eq!(nested.len(), 3);
    let q = nested.bind_to_query(Query { sql: s(""), args: vec![] });
    assert_eq!(q.args, vec![Value::Long(Some(1)), Value::Long(Some(2)), Value::Int(Some(3))]);
}

#[test]
fn values_of_every_kind_are_bound_as_they_are() {
    let when = chrono::NaiveDate::from_ymd_opt(2024, 2, 29).unwrap().and_hms_opt(1, 2, 3).unwrap();
    let values = vec![
        Value::Bool(Some(false)),
        Value::Binary(Some(vec![1, 2, 3])),
        Value::Short(Some(-3)),
        Value::Int(None),
        Value::Long(Some(i64::MIN)),
        Value::Float(Some(1.5f32.to_bits())),
        Value::Double(Some((-0.25f64).to_bits())),
        Value::Text(Some(s("x"))),
        Value::ChronoDate(Some(when)),
    ];
    let mut q = Query { sql: s(""), args: vec![] };
    for v in values.iter() {
        q = v.bind_to_query(q);
    }
    assert_eq!(q.args, values);
    assert_eq!(f32::from_bits(1.5f32.to_bits()), 1.5);
    let p = Pair { name: s("n"), value: Value::Text(Some(s("y"))) };
    assert_eq!(p.clone().bind_to_query(Query { sql: s("k"), args: vec![] }).args, vec![Value::Text(Some(s("y")))]);
}

#[test]
fn comparison_with_a_list_numbers_one_placeholder_only() {
    let odd = Condition::Condition(Pair { name: s("id"), value: longs(&[1, 2]) }, Operator::Eq);
    assert_eq!(odd.sql(1, &quoter()), (s("\"id\" = $1"), 2));
    assert_eq!(bound(&odd).len(), 2);
    let nested = Condition::Condition(
        Pair { name: s("id"), value: Value::Array(vec![longs(&[1, 2]), longs(&[3])]) },
        Operator::In,
    );
    assert_eq!(nested.sql(1, &quoter()), (s("\"id\" in ($1,$2)"), 3));
    assert_eq!(bound(&nested).len(), 3);
}

#[test]
fn try_sql_refuses_numbers_that_cannot_be_held() {
    assert_eq!(a().try_sql(1, &quoter()), Some((s("\"a\" = $1"), 2)));
    assert_eq!(a().try_sql(usize::MAX, &quoter()), None);
    assert_eq!(Where::new(a()).try_sql(usize::MAX, &quoter()), None);
    assert_eq!(Where::default().try_sql(usize::MAX, &quoter()), Some((s(""), usize::MAX)));
}
