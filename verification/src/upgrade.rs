//! The ledger of rebuilt tables.
//!
//! One table of the database records, for each table that was dropped
//! and built anew, the value of the tag that asked for it. A tag whose
//! value is recorded is never acted on again.

use vstd::prelude::*;
use vstd::string::*;
use chrono::Local;
use crate::introspect::text_value;
use crate::text::views;
use crate::value::{Query, QueryView, Value};

verus! {

/// The name of the ledger table.
pub const TABLE_NAME: &'static str = "__rpa_upgrade";

/// The statement that creates the ledger table.
pub const TABLE_DDL: &'static str =
    "CREATE TABLE public.__rpa_upgrade (id BIGSERIAL, table_name character varying(255), up_tag character varying(20), up_value character varying(255), create_time character varying(20), PRIMARY KEY (id));";

/// The statement that adds an entry to the ledger.
pub const TABLE_INSERT: &'static str =
    "insert into public.__rpa_upgrade (table_name, up_tag, up_value, create_time) values ($1, $2, $3, $4)";

/// The query for the entries of one table and one kind of tag, the
/// newest first.
pub const TABLE_QUERY: &'static str =
    "select id, table_name, up_tag, up_value, create_time from public.__rpa_upgrade where table_name = $1 and up_tag = $2 order by id desc";

/// How the time of an entry is written: year, month, day, hour, minute
/// and second.
pub const TIME_FORMAT: &'static str = "%Y/%m/%d %H:%M:%S";

/// An entry of the ledger.
#[derive(Debug, Default)]
pub struct Upgrade {
    pub id: i64,
    pub table_name: String,
    pub up_tag: String,
    pub up_value: String,
    pub create_time: String,
}

/// The values of the tags that some entries record.
pub open spec fn recorded_values(rows: Seq<Upgrade>) -> Seq<Seq<char>> {
    rows.map_values(|r: Upgrade| r.up_value@)
}

/// The query for the entries of a table and a kind of tag.
pub open spec fn tags_query(table_name: Seq<char>, tag: Seq<char>) -> QueryView {
    QueryView { sql: TABLE_QUERY@, args: seq![text_value(table_name), text_value(tag)] }
}

/// The statement that records a tag, with the values for its placeholders.
pub open spec fn tag_insert(
    table_name: Seq<char>,
    tag: Seq<char>,
    tag_value: Seq<char>,
    create_time: Seq<char>,
) -> QueryView {
    QueryView {
        sql: TABLE_INSERT@,
        args: seq![
            text_value(table_name),
            text_value(tag),
            text_value(tag_value),
            text_value(create_time),
        ],
    }
}

/// Reads the clock with `chrono::Local::now` and writes the time with
/// `DateTime::format`. Nothing is claimed of the text, which changes
/// from call to call. Only the one format of the ledger is accepted,
/// since writing with a format that is no format panics.
#[verifier::external_body]
fn local_time(format: &str) -> (r: String)
    requires
        format@ == TIME_FORMAT@,
{
    Local::now().format(format).to_string()
}

fn text_arg(s: &String) -> (r: Value)
    ensures
        r@ == text_value(s@),
{
    Value::Text(Some(s.clone()))
}

/// The query for the values that the ledger records for the table
/// `table_name` under the kind of tag `tag`.
pub fn query_upgrade_tags(table_name: &String, tag: &String) -> (r: Query)
    ensures
        r@ == tags_query(table_name@, tag@),
{
    let mut args: Vec<Value> = Vec::new();
    args.push(text_arg(table_name));
    args.push(text_arg(tag));
    let q = Query { sql: String::from_str(TABLE_QUERY), args };
    assert(q@.args =~= seq![text_value(table_name@), text_value(tag@)]);
    q
}

/// The values that the entries `rows` record, in their order.
pub fn upgrade_values(rows: &Vec<Upgrade>) -> (r: Vec<String>)
    ensures
        views(r@) == recorded_values(rows@),
{
    let mut out: Vec<String> = Vec::new();
    let mut i: usize = 0;
    while i < rows.len()
        invariant
            i <= rows.len(),
            views(out@) == recorded_values(rows@).take(i as int),
        decreases rows.len() - i,
    {
        let ghost before = out@;
        let value = rows[i].up_value.clone();
        out.push(value);
        proof {
            assert(views(out@) =~= views(before).push(value@));
            assert(views(out@) =~= recorded_values(rows@).take(i + 1));
        }
        i += 1;
    }
    assert(recorded_values(rows@).take(rows.len() as int) =~= recorded_values(rows@));
    out
}

/// The statement that records the value `tag_value` of the tag `tag`
/// for the table `table_name`, made at the time `create_time`.
pub fn insert_upgrade_tag_at(
    table_name: &String,
    tag: &String,
    tag_value: &String,
    create_time: &String,
) -> (r: Query)
    ensures
        r@ == tag_insert(table_name@, tag@, tag_value@, create_time@),
{
    let mut args: Vec<Value> = Vec::new();
    args.push(text_arg(table_name));
    args.push(text_arg(tag));
    args.push(text_arg(tag_value));
    args.push(text_arg(create_time));
    let q = Query { sql: String::from_str(TABLE_INSERT), args };
    assert(q@.args =~= seq![
        text_value(table_name@),
        text_value(tag@),
        text_value(tag_value@),
        text_value(create_time@),
    ]);
    q
}

/// The statement that records the value `tag_value` of the tag `tag`
/// for the table `table_name`, made now. The time is whatever the clock
/// says; the rest of the statement is fixed.
pub fn insert_upgrade_tag(table_name: &String, tag: &String, tag_value: &String) -> (r: Query)
    ensures
        exists|create_time: Seq<char>| r@ == tag_insert(table_name@, tag@, tag_value@, create_time),
{
    let now = local_time(TIME_FORMAT);
    insert_upgrade_tag_at(table_name, tag, tag_value, &now)
}

} // verus!
