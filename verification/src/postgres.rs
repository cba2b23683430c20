//! The type relations of the PostgreSQL dialect and the names it
//! writes in statements.

use vstd::prelude::*;
use vstd::string::*;
use crate::column::{Column, ColumnView};
use crate::rust_types;
use crate::sql_types;
use crate::text::{int_decimal, isize_to_string, same_text};
use crate::types::{
    answers_to, displayed, parsed_type, relations_view, SqlType, SqlTypeView, TypeRelation,
    TypeRelationView,
};

verus! {

/// The relations of the dialect, in the order in which they are searched.
/// The other spellings are those under which the database reports a
/// column of the type, so that a reported column leads back to the
/// relation that its declaration came from.
pub open spec fn type_relations_spec() -> Seq<TypeRelationView> {
    seq![
        TypeRelationView {
            rust: rust_types::R_BOOL@,
            sql: sql_types::BOOLEAN@,
            maybe_types: Some(seq![sql_types::BOOL@]),
            fix_len: None,
            default_len: None,
        },
        TypeRelationView {
            rust: rust_types::R_U8@,
            sql: sql_types::SMALL_INT@,
            maybe_types: Some(seq![sql_types::SMALL_SERIAL@]),
            fix_len: None,
            default_len: None,
        },
        TypeRelationView {
            rust: rust_types::R_I8@,
            sql: sql_types::SMALL_INT@,
            maybe_types: Some(seq![sql_types::SMALL_SERIAL@]),
            fix_len: None,
            default_len: None,
        },
        TypeRelationView {
            rust: rust_types::R_CHAR@,
            sql: sql_types::CHAR@,
            maybe_types: Some(seq![sql_types::CHARACTER@]),
            fix_len: Some(1),
            default_len: None,
        },
        TypeRelationView {
            rust: rust_types::R_I16@,
            sql: sql_types::SMALL_INT@,
            maybe_types: Some(seq![sql_types::SMALL_SERIAL@]),
            fix_len: None,
            default_len: None,
        },
        TypeRelationView {
            rust: rust_types::R_U16@,
            sql: sql_types::SMALL_INT@,
            maybe_types: Some(seq![sql_types::SMALL_SERIAL@]),
            fix_len: None,
            default_len: None,
        },
        TypeRelationView {
            rust: rust_types::R_I32@,
            sql: sql_types::INT@,
            maybe_types: Some(seq![sql_types::INTEGER@, sql_types::SERIAL@]),
            fix_len: None,
            default_len: None,
        },
        TypeRelationView {
            rust: rust_types::R_U32@,
            sql: sql_types::INT@,
            maybe_types: Some(seq![sql_types::INTEGER@, sql_types::SERIAL@]),
            fix_len: None,
            default_len: None,
        },
        TypeRelationView {
            rust: rust_types::R_I64@,
            sql: sql_types::BIG_INT@,
            maybe_types: Some(seq![sql_types::BIG_SERIAL@]),
            fix_len: None,
            default_len: None,
        },
        TypeRelationView {
            rust: rust_types::R_U64@,
            sql: sql_types::BIG_INT@,
            maybe_types: Some(seq![sql_types::BIG_SERIAL@]),
            fix_len: None,
            default_len: None,
        },
        TypeRelationView {
            rust: rust_types::R_F32@,
            sql: sql_types::REAL@,
            maybe_types: None,
            fix_len: None,
            default_len: None,
        },
        TypeRelationView {
            rust: rust_types::R_F64@,
            sql: sql_types::DOUBLE@,
            maybe_types: Some(seq![sql_types::DOUBLE_PRECISION@]),
            fix_len: None,
            default_len: None,
        },
        TypeRelationView {
            rust: rust_types::R_STRING@,
            sql: sql_types::VARCHAR@,
            maybe_types: Some(seq![sql_types::CHARACTER_VARYING@]),
            fix_len: None,
            default_len: Some(255),
        },
        TypeRelationView {
            rust: rust_types::R_CHRONO_DATE@,
            sql: sql_types::DATE@,
            maybe_types: None,
            fix_len: None,
            default_len: None,
        },
        TypeRelationView {
            rust: rust_types::R_CHRONO_DATE_FULL@,
            sql: sql_types::DATE@,
            maybe_types: None,
            fix_len: None,
            default_len: None,
        },
        TypeRelationView {
            rust: rust_types::R_CHRONO_DATETIME@,
            sql: sql_types::TIME_STAMP@,
            maybe_types: Some(seq![sql_types::TIMESTAMP_WITHOUT_TIME_ZONE@]),
            fix_len: None,
            default_len: Some(6),
        },
        TypeRelationView {
            rust: rust_types::R_CHRONO_DATETIME_FULL@,
            sql: sql_types::TIME_STAMP@,
            maybe_types: Some(seq![sql_types::TIMESTAMP_WITHOUT_TIME_ZONE@]),
            fix_len: None,
            default_len: Some(6),
        },
        TypeRelationView {
            rust: rust_types::R_CHRONO_TIME@,
            sql: sql_types::TIME@,
            maybe_types: Some(seq![sql_types::TIME_WITHOUT_TIME_ZONE@]),
            fix_len: None,
            default_len: Some(6),
        },
        TypeRelationView {
            rust: rust_types::R_CHRONO_TIME_FULL@,
            sql: sql_types::TIME@,
            maybe_types: Some(seq![sql_types::TIME_WITHOUT_TIME_ZONE@]),
            fix_len: None,
            default_len: Some(6),
        },
    ]
}

/// Each scalar type has one relation: no two relations of the dialect
/// are declared for the same scalar type.
pub proof fn law_one_relation_for_each_scalar_type()
    ensures
        forall|i: int, j: int|
            0 <= i < j < type_relations_spec().len() ==> (#[trigger] type_relations_spec()[i]).rust
                != (#[trigger] type_relations_spec()[j]).rust,
{
    reveal_strlit("bool");
    reveal_strlit("char");
    reveal_strlit("u8");
    reveal_strlit("i8");
    reveal_strlit("u16");
    reveal_strlit("i16");
    reveal_strlit("u32");
    reveal_strlit("i32");
    reveal_strlit("u64");
    reveal_strlit("i64");
    reveal_strlit("f32");
    reveal_strlit("f64");
    reveal_strlit("String");
    reveal_strlit("NaiveDate");
    reveal_strlit("chrono::NaiveDate");
    reveal_strlit("NaiveDateTime");
    reveal_strlit("chrono::NaiveDateTime");
    reveal_strlit("NaiveTime");
    reveal_strlit("chrono::NaiveTime");
    let table = type_relations_spec();
    let names = Seq::new(table.len(), |k: int| table[k].rust);
    assert(names[0].len() == 4 && names[0][0] == 'b');
    assert(names[1].len() == 2 && names[1][0] == 'u');
    assert(names[2].len() == 2 && names[2][0] == 'i');
    assert(names[3].len() == 4 && names[3][0] == 'c');
    assert(names[4].len() == 3 && names[4][0] == 'i' && names[4][1] == '1');
    assert(names[5].len() == 3 && names[5][0] == 'u' && names[5][1] == '1');
    assert(names[6].len() == 3 && names[6][0] == 'i' && names[6][1] == '3');
    assert(names[7].len() == 3 && names[7][0] == 'u' && names[7][1] == '3');
    assert(names[8].len() == 3 && names[8][0] == 'i' && names[8][1] == '6');
    assert(names[9].len() == 3 && names[9][0] == 'u' && names[9][1] == '6');
    assert(names[10].len() == 3 && names[10][0] == 'f' && names[10][1] == '3');
    assert(names[11].len() == 3 && names[11][0] == 'f' && names[11][1] == '6');
    assert(names[12].len() == 6);
    assert(names[13].len() == 9 && names[13][5] == 'D');
    assert(names[14].len() == 17 && names[14][13] == 'D');
    assert(names[15].len() == 13);
    assert(names[16].len() == 21);
    assert(names[17].len() == 9 && names[17][5] == 'T');
    assert(names[18].len() == 17 && names[18][13] == 'T');
    assert forall|i: int, j: int| 0 <= i < j < table.len() implies (#[trigger] table[i]).rust != (
    #[trigger] table[j]).rust by {
        assert(table[i].rust == names[i]);
        assert(table[j].rust == names[j]);
    }
}

/// What tells the SQL names of the relations apart: the length of a
/// name and its first character.
spec fn name_key(name: Seq<char>) -> (nat, char) {
    (
        name.len(),
        if name.len() > 0 {
            name[0]
        } else {
            ' '
        },
    )
}

/// The key of the names that the relation at `i` answers to, and the
/// number of the group of relations that it belongs to: relations of one
/// group have the same SQL type and the same lengths.
proof fn lemma_relation_answers_to_its_group(i: int, name: Seq<char>) -> (group: int)
    requires
        0 <= i < type_relations_spec().len(),
        answers_to(type_relations_spec()[i], name),
    ensures
        group == relation_group(i),
        names_of_group(group).contains(name_key(name)),
{
    reveal_strlit("BOOLEAN");
    reveal_strlit("BOOL");
    reveal_strlit("SMALLINT");
    reveal_strlit("SMALLSERIAL");
    reveal_strlit("CHAR");
    reveal_strlit("CHARACTER");
    reveal_strlit("INT");
    reveal_strlit("INTEGER");
    reveal_strlit("SERIAL");
    reveal_strlit("BIGINT");
    reveal_strlit("BIGSERIAL");
    reveal_strlit("REAL");
    reveal_strlit("DOUBLE");
    reveal_strlit("DOUBLE PRECISION");
    reveal_strlit("VARCHAR");
    reveal_strlit("CHARACTER VARYING");
    reveal_strlit("DATE");
    reveal_strlit("TIMESTAMP");
    reveal_strlit("TIMESTAMP WITHOUT TIME ZONE");
    reveal_strlit("TIME");
    reveal_strlit("TIME WITHOUT TIME ZONE");
    let rel = type_relations_spec()[i];
    let group = relation_group(i);
    let keys = names_of_group(group);
    if rel.sql == name {
        assert(keys[0] == name_key(name));
    } else {
        let others = rel.maybe_types->0;
        let k = choose|k: int| 0 <= k < others.len() && others[k] == name;
        assert(keys[k + 1] == name_key(name));
    }
    group
}

/// The group of the relation at `i`.
spec fn relation_group(i: int) -> int {
    if i == 0 {
        0
    } else if i == 1 || i == 2 || i == 4 || i == 5 {
        1
    } else if i == 3 {
        2
    } else if i == 6 || i == 7 {
        3
    } else if i == 8 || i == 9 {
        4
    } else if i == 10 {
        5
    } else if i == 11 {
        6
    } else if i == 12 {
        7
    } else if i == 13 || i == 14 {
        8
    } else if i == 15 || i == 16 {
        9
    } else {
        10
    }
}

/// The keys of the names that the relations of a group answer to: that
/// of the SQL type first, then those of its other spellings.
spec fn names_of_group(group: int) -> Seq<(nat, char)> {
    if group == 0 {
        seq![(7nat, 'B'), (4nat, 'B')]
    } else if group == 1 {
        seq![(8nat, 'S'), (11nat, 'S')]
    } else if group == 2 {
        seq![(4nat, 'C'), (9nat, 'C')]
    } else if group == 3 {
        seq![(3nat, 'I'), (7nat, 'I'), (6nat, 'S')]
    } else if group == 4 {
        seq![(6nat, 'B'), (9nat, 'B')]
    } else if group == 5 {
        seq![(4nat, 'R')]
    } else if group == 6 {
        seq![(6nat, 'D'), (16nat, 'D')]
    } else if group == 7 {
        seq![(7nat, 'V'), (17nat, 'C')]
    } else if group == 8 {
        seq![(4nat, 'D')]
    } else if group == 9 {
        seq![(9nat, 'T'), (27nat, 'T')]
    } else {
        seq![(4nat, 'T'), (22nat, 'T')]
    }
}

/// A name that the database reports leads to one type: the relations
/// that answer to a name have the same SQL type, the same fixed length
/// and the same default length, so that it does not matter which of
/// them is found first.
pub proof fn law_one_type_for_each_reported_name(i: int, j: int, name: Seq<char>)
    requires
        0 <= i < type_relations_spec().len(),
        0 <= j < type_relations_spec().len(),
        answers_to(type_relations_spec()[i], name),
        answers_to(type_relations_spec()[j], name),
    ensures
        type_relations_spec()[i].sql == type_relations_spec()[j].sql,
        type_relations_spec()[i].fix_len == type_relations_spec()[j].fix_len,
        type_relations_spec()[i].default_len == type_relations_spec()[j].default_len,
{
    let g = lemma_relation_answers_to_its_group(i, name);
    let h = lemma_relation_answers_to_its_group(j, name);
    let key = name_key(name);
    let a = choose|a: int| 0 <= a < names_of_group(g).len() && names_of_group(g)[a] == key;
    let b = choose|b: int| 0 <= b < names_of_group(h).len() && names_of_group(h)[b] == key;
    assert(g == h);
}

/// Builds the relations of the dialect.
pub fn type_relations() -> (table: Vec<TypeRelation>)
    ensures
        relations_view(table@) == type_relations_spec(),
{
    let mut table: Vec<TypeRelation> = Vec::new();
    table.push(TypeRelation::with_alias(rust_types::R_BOOL, sql_types::BOOLEAN, sql_types::BOOL, None, None));
    table.push(TypeRelation::with_alias(rust_types::R_U8, sql_types::SMALL_INT, sql_types::SMALL_SERIAL, None, None));
    table.push(TypeRelation::with_alias(rust_types::R_I8, sql_types::SMALL_INT, sql_types::SMALL_SERIAL, None, None));
    table.push(TypeRelation::with_alias(rust_types::R_CHAR, sql_types::CHAR, sql_types::CHARACTER, Some(1), None));
    table.push(TypeRelation::with_alias(rust_types::R_I16, sql_types::SMALL_INT, sql_types::SMALL_SERIAL, None, None));
    table.push(TypeRelation::with_alias(rust_types::R_U16, sql_types::SMALL_INT, sql_types::SMALL_SERIAL, None, None));
    table.push(TypeRelation::with_aliases(rust_types::R_I32, sql_types::INT, sql_types::INTEGER, sql_types::SERIAL, None, None));
    table.push(TypeRelation::with_aliases(rust_types::R_U32, sql_types::INT, sql_types::INTEGER, sql_types::SERIAL, None, None));
    table.push(TypeRelation::with_alias(rust_types::R_I64, sql_types::BIG_INT, sql_types::BIG_SERIAL, None, None));
    table.push(TypeRelation::with_alias(rust_types::R_U64, sql_types::BIG_INT, sql_types::BIG_SERIAL, None, None));
    table.push(TypeRelation::plain(rust_types::R_F32, sql_types::REAL, None, None));
    table.push(TypeRelation::with_alias(rust_types::R_F64, sql_types::DOUBLE, sql_types::DOUBLE_PRECISION, None, None));
    table.push(TypeRelation::with_alias(rust_types::R_STRING, sql_types::VARCHAR, sql_types::CHARACTER_VARYING, None, Some(255)));
    table.push(TypeRelation::plain(rust_types::R_CHRONO_DATE, sql_types::DATE, None, None));
    table.push(TypeRelation::plain(rust_types::R_CHRONO_DATE_FULL, sql_types::DATE, None, None));
    table.push(TypeRelation::with_alias(rust_types::R_CHRONO_DATETIME, sql_types::TIME_STAMP, sql_types::TIMESTAMP_WITHOUT_TIME_ZONE, None, Some(6)));
    table.push(TypeRelation::with_alias(rust_types::R_CHRONO_DATETIME_FULL, sql_types::TIME_STAMP, sql_types::TIMESTAMP_WITHOUT_TIME_ZONE, None, Some(6)));
    table.push(TypeRelation::with_alias(rust_types::R_CHRONO_TIME, sql_types::TIME, sql_types::TIME_WITHOUT_TIME_ZONE, None, Some(6)));
    table.push(TypeRelation::with_alias(rust_types::R_CHRONO_TIME_FULL, sql_types::TIME, sql_types::TIME_WITHOUT_TIME_ZONE, None, Some(6)));
    assert(relations_view(table@) =~= type_relations_spec());
    table
}

/// The name under which the dialect knows a type: three names of other
/// dialects stand for types of this one.
pub open spec fn canonical_name(name: Seq<char>) -> Seq<char> {
    if name == sql_types::TINY_INT@ {
        sql_types::SMALL_INT@
    } else if name == sql_types::NCHAR@ {
        sql_types::CHAR@
    } else if name == sql_types::NVARCHAR@ {
        sql_types::VARCHAR@
    } else {
        name
    }
}

/// A length, or 255 where there is none.
pub open spec fn length_or_default(len: Option<isize>) -> int {
    match len {
        Some(l) => l as int,
        None => 255,
    }
}

/// A name with one length in brackets.
pub open spec fn sized(name: Seq<char>, len: int) -> Seq<char> {
    name + "("@ + int_decimal(len) + ")"@
}

/// A name with the lengths it has, in brackets.
pub open spec fn with_lengths(name: Seq<char>, t: SqlTypeView) -> Seq<char> {
    match t.len {
        Some(len) => match t.len2 {
            Some(len2) => name + "("@ + int_decimal(len as int) + ", "@ + int_decimal(len2 as int)
                + ")"@,
            None => sized(name, len as int),
        },
        None => name,
    }
}

/// What the dialect writes for a type. Integer types become their serial
/// variant in an autoincrement column; names of other dialects become
/// the dialect's own; character types always carry a length.
pub open spec fn rendered(t: SqlTypeView, autoincr: bool) -> Seq<char> {
    let name = canonical_name(t.name);
    if name == sql_types::BIT@ {
        sql_types::BOOLEAN@
    } else if name == sql_types::SMALL_INT@ {
        if autoincr {
            sql_types::SMALL_SERIAL@
        } else {
            sql_types::SMALL_INT@
        }
    } else if name == sql_types::BIG_INT@ {
        if autoincr {
            sql_types::BIG_SERIAL@
        } else {
            sql_types::BIG_INT@
        }
    } else if name == sql_types::INT@ || name == sql_types::MEDIUM_INT@ || name
        == sql_types::INTEGER@ {
        if autoincr {
            sql_types::SERIAL@
        } else {
            sql_types::INT@
        }
    } else if name == sql_types::FLOAT@ {
        sql_types::REAL@
    } else if name == sql_types::DOUBLE@ {
        sql_types::DOUBLE_PRECISION@
    } else if name == sql_types::DATE_TIME@ {
        displayed(SqlTypeView { name, ..t })
    } else if name == sql_types::TIME_STAMPZ@ {
        sql_types::TIMESTAMP_WITH_TIME_ZONE@
    } else if name == sql_types::TINY_TEXT@ || name == sql_types::MEDIUM_TEXT@ || name
        == sql_types::LONG_TEXT@ {
        sql_types::TEXT@
    } else if name == sql_types::BLOB@ || name == sql_types::TINY_BLOB@ || name
        == sql_types::MEDIUM_BLOB@ || name == sql_types::LONG_BLOB@ {
        sql_types::BYTEA@
    } else if name == sql_types::CHAR@ {
        match t.len {
            Some(len) => sized(sql_types::CHAR@, len as int),
            None => sized(sql_types::CHAR@, length_or_default(t.fixed_len)),
        }
    } else if name == sql_types::VARCHAR@ {
        sized(sql_types::VARCHAR@, length_or_default(t.len))
    } else {
        with_lengths(name, t)
    }
}

/// Whether two types are the same to the dialect: it writes them the
/// same, in a plain column and in an autoincrement one. A length that is
/// only implied (255 for a text without one) makes no difference.
pub open spec fn same_type(a: SqlTypeView, b: SqlTypeView) -> bool {
    rendered(a, false) == rendered(b, false) && rendered(a, true) == rendered(b, true)
}

/// The type that decides what is written for a column: the custom type
/// where one is given, whatever the scalar type says.
pub open spec fn effective_type(col: ColumnView) -> SqlTypeView {
    match col.col_type {
        Some(custom) => parsed_type(custom),
        None => col.typ,
    }
}

/// What the dialect writes for the type of a column.
pub open spec fn converted(col: ColumnView) -> Seq<char> {
    rendered(effective_type(col), col.autoincr)
}

fn name_with_length(name: &str, len: isize) -> (r: String)
    ensures
        r@ == sized(name@, len as int),
{
    let mut out = String::from_str(name);
    out.append("(");
    out.append(isize_to_string(len).as_str());
    out.append(")");
    assert(out@ =~= sized(name@, len as int));
    out
}

fn serial_or(autoincr: bool, serial: &'static str, plain: &'static str) -> (r: String)
    ensures
        r@ == (if autoincr {
            serial@
        } else {
            plain@
        }),
{
    if autoincr {
        String::from_str(serial)
    } else {
        String::from_str(plain)
    }
}

/// The name under which the dialect knows a type.
pub fn canonical(name: &String) -> (r: String)
    ensures
        r@ == canonical_name(name@),
{
    let given = name.as_str();
    if same_text(given, sql_types::TINY_INT) {
        String::from_str(sql_types::SMALL_INT)
    } else if same_text(given, sql_types::NCHAR) {
        String::from_str(sql_types::CHAR)
    } else if same_text(given, sql_types::NVARCHAR) {
        String::from_str(sql_types::VARCHAR)
    } else {
        name.clone()
    }
}

/// Writes a type as the dialect does.
pub fn render_sql_type(t: &SqlType, autoincr: bool) -> (r: String)
    ensures
        r@ == rendered(t@, autoincr),
{
    let name: String = canonical(&t.name);
    let n = name.as_str();
    if same_text(n, sql_types::BIT) {
        String::from_str(sql_types::BOOLEAN)
    } else if same_text(n, sql_types::SMALL_INT) {
        serial_or(autoincr, sql_types::SMALL_SERIAL, sql_types::SMALL_INT)
    } else if same_text(n, sql_types::BIG_INT) {
        serial_or(autoincr, sql_types::BIG_SERIAL, sql_types::BIG_INT)
    } else if same_text(n, sql_types::INT) || same_text(n, sql_types::MEDIUM_INT) || same_text(
        n,
        sql_types::INTEGER,
    ) {
        serial_or(autoincr, sql_types::SERIAL, sql_types::INT)
    } else if same_text(n, sql_types::FLOAT) {
        String::from_str(sql_types::REAL)
    } else if same_text(n, sql_types::DOUBLE) {
        String::from_str(sql_types::DOUBLE_PRECISION)
    } else if same_text(n, sql_types::DATE_TIME) {
        let shown = SqlType { name: name.clone(), len: t.len, len2: t.len2, fixed_len: t.fixed_len };
        shown.to_string()
    } else if same_text(n, sql_types::TIME_STAMPZ) {
        String::from_str(sql_types::TIMESTAMP_WITH_TIME_ZONE)
    } else if same_text(n, sql_types::TINY_TEXT) || same_text(n, sql_types::MEDIUM_TEXT)
        || same_text(n, sql_types::LONG_TEXT) {
        String::from_str(sql_types::TEXT)
    } else if same_text(n, sql_types::BLOB) || same_text(n, sql_types::TINY_BLOB) || same_text(
        n,
        sql_types::MEDIUM_BLOB,
    ) || same_text(n, sql_types::LONG_BLOB) {
        String::from_str(sql_types::BYTEA)
    } else if same_text(n, sql_types::CHAR) {
        match t.len {
            Some(len) => name_with_length(sql_types::CHAR, len),
            None => match t.fixed_len {
                Some(fixed) => name_with_length(sql_types::CHAR, fixed),
                None => name_with_length(sql_types::CHAR, 255),
            },
        }
    } else if same_text(n, sql_types::VARCHAR) {
        match t.len {
            Some(len) => name_with_length(sql_types::VARCHAR, len),
            None => name_with_length(sql_types::VARCHAR, 255),
        }
    } else {
        match t.len {
            Some(len) => match t.len2 {
                Some(len2) => {
                    let mut out = name.clone();
                    out.append("(");
                    out.append(isize_to_string(len).as_str());
                    out.append(", ");
                    out.append(isize_to_string(len2).as_str());
                    out.append(")");
                    assert(out@ =~= with_lengths(name@, t@));
                    out
                },
                None => name_with_length(n, len),
            },
            None => name,
        }
    }
}

/// Whether two types are the same to the dialect.
pub fn is_same_type(a: &SqlType, b: &SqlType) -> (r: bool)
    ensures
        r == same_type(a@, b@),
{
    same_text(render_sql_type(a, false).as_str(), render_sql_type(b, false).as_str()) && same_text(
        render_sql_type(a, true).as_str(),
        render_sql_type(b, true).as_str(),
    )
}

/// The type name that the dialect writes for a column.
pub fn convert_sql_type(col: &Column) -> (r: String)
    ensures
        r@ == converted(col@),
{
    match &col.col_type {
        Some(custom) => {
            let t = SqlType::parse(custom);
            render_sql_type(&t, col.autoincr)
        },
        None => render_sql_type(&col.typ, col.autoincr),
    }
}

} // verus!
