//! SQL types and their relation to the scalar types of a declaration.

use vstd::prelude::*;
use vstd::std_specs::cmp::PartialEqSpecImpl;
use vstd::string::*;
use crate::column::Column;
use crate::error::SchemaError;
use crate::pattern::{captures, first_match, groups_view};
use crate::postgres;
use crate::text::{
    int_decimal, isize_to_string, lemma_split_has_a_piece, parse_isize, parse_isize_spec, same_text,
    split, split_at, to_uppercase, trim, trimmed, uppercase, views,
};

verus! {

/// How one scalar type is stored: the SQL type that a declaration gets,
/// the other spellings under which the database may report it, and the
/// lengths that go with it.
#[derive(Debug)]
pub struct TypeRelation {
    pub rust: &'static str,
    pub sql: &'static str,
    pub maybe_types: Option<Vec<&'static str>>,
    /// The length that the SQL type always has.
    pub fix_len: Option<isize>,
    /// The length that is used where none is declared.
    pub default_len: Option<isize>,
}

/// A relation as plain values.
pub struct TypeRelationView {
    pub rust: Seq<char>,
    pub sql: Seq<char>,
    pub maybe_types: Option<Seq<Seq<char>>>,
    pub fix_len: Option<isize>,
    pub default_len: Option<isize>,
}

impl View for TypeRelation {
    type V = TypeRelationView;

    open spec fn view(&self) -> TypeRelationView {
        TypeRelationView {
            rust: self.rust@,
            sql: self.sql@,
            maybe_types: match self.maybe_types {
                Some(names) => Some(names@.map_values(|s: &'static str| s@)),
                None => None,
            },
            fix_len: self.fix_len,
            default_len: self.default_len,
        }
    }
}

/// The views of a list of relations.
pub open spec fn relations_view(table: Seq<TypeRelation>) -> Seq<TypeRelationView> {
    table.map_values(|r: TypeRelation| r@)
}

impl TypeRelation {
    /// A relation without other spellings.
    pub fn plain(
        rust: &'static str,
        sql: &'static str,
        fix_len: Option<isize>,
        default_len: Option<isize>,
    ) -> (r: Self)
        ensures
            r@ == (TypeRelationView {
                rust: rust@,
                sql: sql@,
                maybe_types: None,
                fix_len,
                default_len,
            }),
    {
        TypeRelation { rust, sql, maybe_types: None, fix_len, default_len }
    }

    /// A relation with one other spelling.
    pub fn with_alias(
        rust: &'static str,
        sql: &'static str,
        alias: &'static str,
        fix_len: Option<isize>,
        default_len: Option<isize>,
    ) -> (r: Self)
        ensures
            r@ == (TypeRelationView {
                rust: rust@,
                sql: sql@,
                maybe_types: Some(seq![alias@]),
                fix_len,
                default_len,
            }),
    {
        let mut names: Vec<&'static str> = Vec::new();
        names.push(alias);
        assert(names@.map_values(|s: &'static str| s@) =~= seq![alias@]);
        TypeRelation { rust, sql, maybe_types: Some(names), fix_len, default_len }
    }

    /// A relation with two other spellings.
    pub fn with_aliases(
        rust: &'static str,
        sql: &'static str,
        first: &'static str,
        second: &'static str,
        fix_len: Option<isize>,
        default_len: Option<isize>,
    ) -> (r: Self)
        ensures
            r@ == (TypeRelationView {
                rust: rust@,
                sql: sql@,
                maybe_types: Some(seq![first@, second@]),
                fix_len,
                default_len,
            }),
    {
        let mut names: Vec<&'static str> = Vec::new();
        names.push(first);
        names.push(second);
        assert(names@.map_values(|s: &'static str| s@) =~= seq![first@, second@]);
        TypeRelation { rust, sql, maybe_types: Some(names), fix_len, default_len }
    }
}

/// A SQL type with its lengths.
#[derive(Debug)]
pub struct SqlType {
    pub name: String,
    pub len: Option<isize>,
    pub len2: Option<isize>,
    pub fixed_len: Option<isize>,
}

/// A SQL type as plain values.
pub struct SqlTypeView {
    pub name: Seq<char>,
    pub len: Option<isize>,
    pub len2: Option<isize>,
    pub fixed_len: Option<isize>,
}

impl View for SqlType {
    type V = SqlTypeView;

    open spec fn view(&self) -> SqlTypeView {
        SqlTypeView {
            name: self.name@,
            len: self.len,
            len2: self.len2,
            fixed_len: self.fixed_len,
        }
    }
}

/// The expression that finds a type written as `NAME(len)` or
/// `NAME(len, len2)`.
pub const SIZED_TYPE_PATTERN: &'static str = r#"(\w+)\((\s*\d+\s*[,\s*\d+\s*]*)\)"#;

/// The first relation of `table` that is declared for the scalar type `name`.
pub open spec fn relation_of(table: Seq<TypeRelationView>, name: Seq<char>) -> Option<
    TypeRelationView,
>
    decreases table.len(),
{
    if table.len() == 0 {
        None
    } else if table[0].rust == name {
        Some(table[0])
    } else {
        relation_of(table.drop_first(), name)
    }
}

/// The first relation of `table` whose SQL type is `name`.
pub open spec fn relation_of_sql(table: Seq<TypeRelationView>, name: Seq<char>) -> Option<
    TypeRelationView,
>
    decreases table.len(),
{
    if table.len() == 0 {
        None
    } else if table[0].sql == name {
        Some(table[0])
    } else {
        relation_of_sql(table.drop_first(), name)
    }
}

/// Whether a relation answers to a SQL name: as its own, or as one of
/// its other spellings.
pub open spec fn answers_to(rel: TypeRelationView, name: Seq<char>) -> bool {
    rel.sql == name || match rel.maybe_types {
        Some(names) => names.contains(name),
        None => false,
    }
}

/// The first relation of `table` that answers to `name`.
pub open spec fn relation_answering(table: Seq<TypeRelationView>, name: Seq<char>) -> Option<
    TypeRelationView,
>
    decreases table.len(),
{
    if table.len() == 0 {
        None
    } else if answers_to(table[0], name) {
        Some(table[0])
    } else {
        relation_answering(table.drop_first(), name)
    }
}

/// The SQL type of a declaration. A fixed length of the relation wins
/// over a declared one, and the default length is used where neither is
/// there.
pub open spec fn native_type(rel: TypeRelationView, len: Option<isize>) -> SqlTypeView {
    SqlTypeView {
        name: rel.sql,
        len: if rel.fix_len is Some {
            rel.fix_len
        } else if len is Some {
            len
        } else {
            rel.default_len
        },
        len2: None,
        fixed_len: rel.fix_len,
    }
}

/// A type that is only a name, in upper case.
pub open spec fn literal_type(value: Seq<char>) -> SqlTypeView {
    SqlTypeView { name: uppercase(value), len: None, len2: None, fixed_len: None }
}

/// The name and the lengths in what the pattern captured: the second
/// group is cut at commas, and the first piece, and the second where
/// there is one, must be integers once trimmed.
pub open spec fn sized_parts(groups: Seq<Option<Seq<char>>>) -> Option<
    (Seq<char>, isize, Option<isize>),
> {
    if groups.len() == 3 && groups[1] is Some && groups[2] is Some {
        let pieces = split(groups[2]->0, ',');
        match parse_isize_spec(trimmed(pieces[0])) {
            Some(len) => if pieces.len() > 1 {
                match parse_isize_spec(trimmed(pieces[1])) {
                    Some(len2) => Some((groups[1]->0, len, Some(len2))),
                    None => None,
                }
            } else {
                Some((groups[1]->0, len, None))
            },
            None => None,
        }
    } else {
        None
    }
}

/// The type that a text denotes, given what the pattern found in it.
/// Where it found a name and lengths, they are the type; otherwise the
/// whole text is the name.
pub open spec fn type_from_match(value: Seq<char>, found: Option<Seq<Option<Seq<char>>>>) -> SqlTypeView {
    match found {
        Some(groups) => match sized_parts(groups) {
            Some((name, len, len2)) => SqlTypeView {
                name: uppercase(name),
                len: Some(len),
                len2,
                fixed_len: None,
            },
            None => literal_type(value),
        },
        None => literal_type(value),
    }
}

/// The type that a text such as `varchar(30)` or `numeric(10, 2)` denotes.
pub open spec fn parsed_type(value: Seq<char>) -> SqlTypeView {
    type_from_match(value, first_match(SIZED_TYPE_PATTERN@, value))
}

/// A type as it is shown: the name, then the lengths in brackets.
pub open spec fn displayed(t: SqlTypeView) -> Seq<char> {
    match (t.len, t.len2) {
        (Some(len), Some(len2)) => t.name + "("@ + int_decimal(len as int) + ", "@ + int_decimal(
            len2 as int,
        ) + ")"@,
        (Some(len), None) => t.name + "("@ + int_decimal(len as int) + ")"@,
        _ => t.name,
    }
}

fn copy_relation(rel: &TypeRelation) -> (r: TypeRelation)
    ensures
        r@ == rel@,
{
    let maybe_types = match &rel.maybe_types {
        Some(names) => {
            let mut copy: Vec<&'static str> = Vec::new();
            let mut i: usize = 0;
            while i < names.len()
                invariant
                    i <= names.len(),
                    copy@ == names@.subrange(0, i as int),
                decreases names.len() - i,
            {
                copy.push(names[i]);
                i += 1;
                assert(copy@ =~= names@.subrange(0, i as int));
            }
            assert(copy@ =~= names@);
            Some(copy)
        },
        None => None,
    };
    TypeRelation {
        rust: rel.rust,
        sql: rel.sql,
        maybe_types,
        fix_len: rel.fix_len,
        default_len: rel.default_len,
    }
}

/// The relation for a scalar type; `UnknownScalarType` where there is none.
pub fn find_relation(rust_type: &String) -> (r: Result<TypeRelation, SchemaError>)
    ensures
        match relation_of(postgres::type_relations_spec(), rust_type@) {
            Some(rel) => r is Ok && r->Ok_0@ == rel,
            None => r matches Err(SchemaError::UnknownScalarType(name)) && name@ == rust_type@,
        },
{
    let table = postgres::type_relations();
    let ghost all = relations_view(table@);
    let mut i: usize = 0;
    proof {
        assert(all.subrange(0, all.len() as int) =~= all);
    }
    while i < table.len()
        invariant
            i <= table.len(),
            all == relations_view(table@),
            all == postgres::type_relations_spec(),
            relation_of(all, rust_type@) == relation_of(
                all.subrange(i as int, all.len() as int),
                rust_type@,
            ),
        decreases table.len() - i,
    {
        proof {
            let rest = all.subrange(i as int, all.len() as int);
            assert(rest[0] == table@[i as int]@);
            assert(rest.drop_first() =~= all.subrange(i + 1, all.len() as int));
        }
        if same_text(table[i].rust, rust_type.as_str()) {
            return Ok(copy_relation(&table[i]));
        }
        i += 1;
    }
    Err(SchemaError::UnknownScalarType(rust_type.clone()))
}

/// The relation whose SQL type is `sql_type`; `UnmappableSqlType` where
/// there is none.
pub fn find_relation_by_sql_type(sql_type: &String) -> (r: Result<TypeRelation, SchemaError>)
    ensures
        match relation_of_sql(postgres::type_relations_spec(), sql_type@) {
            Some(rel) => r is Ok && r->Ok_0@ == rel,
            None => r matches Err(SchemaError::UnmappableSqlType(name)) && name@ == sql_type@,
        },
{
    let table = postgres::type_relations();
    let ghost all = relations_view(table@);
    let mut i: usize = 0;
    proof {
        assert(all.subrange(0, all.len() as int) =~= all);
    }
    while i < table.len()
        invariant
            i <= table.len(),
            all == relations_view(table@),
            all == postgres::type_relations_spec(),
            relation_of_sql(all, sql_type@) == relation_of_sql(
                all.subrange(i as int, all.len() as int),
                sql_type@,
            ),
        decreases table.len() - i,
    {
        proof {
            let rest = all.subrange(i as int, all.len() as int);
            assert(rest[0] == table@[i as int]@);
            assert(rest.drop_first() =~= all.subrange(i + 1, all.len() as int));
        }
        if same_text(table[i].sql, sql_type.as_str()) {
            return Ok(copy_relation(&table[i]));
        }
        i += 1;
    }
    Err(SchemaError::UnmappableSqlType(sql_type.clone()))
}

fn relation_answers(rel: &TypeRelation, name: &String) -> (r: bool)
    ensures
        r == answers_to(rel@, name@),
{
    if same_text(rel.sql, name.as_str()) {
        return true;
    }
    match &rel.maybe_types {
        Some(names) => {
            let ghost list = names@.map_values(|s: &'static str| s@);
            let mut i: usize = 0;
            while i < names.len()
                invariant
                    i <= names.len(),
                    list == names@.map_values(|s: &'static str| s@),
                    rel@.maybe_types == Some(list),
                    rel@.sql != name@,
                    forall|j: int| 0 <= j < i ==> list[j] != name@,
                decreases names.len() - i,
            {
                if same_text(names[i], name.as_str()) {
                    assert(list[i as int] == name@);
                    assert(list.contains(name@));
                    return true;
                }
                i += 1;
            }
            false
        },
        None => false,
    }
}

/// The relation for a type name that the database reports. The name is
/// compared in upper case with the SQL type of each relation and with
/// its other spellings; `UnmappableSqlType` where no relation answers.
pub fn find_relation_answering(sql_type: &String) -> (r: Result<TypeRelation, SchemaError>)
    ensures
        match relation_answering(postgres::type_relations_spec(), uppercase(sql_type@)) {
            Some(rel) => r is Ok && r->Ok_0@ == rel,
            None => r matches Err(SchemaError::UnmappableSqlType(name)) && name@ == sql_type@,
        },
{
    let upper = to_uppercase(sql_type.as_str());
    let table = postgres::type_relations();
    let ghost all = relations_view(table@);
    let mut i: usize = 0;
    proof {
        assert(all.subrange(0, all.len() as int) =~= all);
    }
    while i < table.len()
        invariant
            i <= table.len(),
            all == relations_view(table@),
            all == postgres::type_relations_spec(),
            upper@ == uppercase(sql_type@),
            relation_answering(all, upper@) == relation_answering(
                all.subrange(i as int, all.len() as int),
                upper@,
            ),
        decreases table.len() - i,
    {
        proof {
            let rest = all.subrange(i as int, all.len() as int);
            assert(rest[0] == table@[i as int]@);
            assert(rest.drop_first() =~= all.subrange(i + 1, all.len() as int));
        }
        if relation_answers(&table[i], &upper) {
            return Ok(copy_relation(&table[i]));
        }
        i += 1;
    }
    Err(SchemaError::UnmappableSqlType(sql_type.clone()))
}

/// The SQL type of a declaration with the scalar type `scalar_type` and,
/// where one is declared, the length `explicit_len`; `UnknownScalarType`
/// where the scalar type has no relation.
pub fn to_native(scalar_type: &String, explicit_len: Option<isize>) -> (r: Result<
    SqlType,
    SchemaError,
>)
    ensures
        match relation_of(postgres::type_relations_spec(), scalar_type@) {
            Some(rel) => r is Ok && r->Ok_0@ == native_type(rel, explicit_len),
            None => r matches Err(SchemaError::UnknownScalarType(name)) && name@ == scalar_type@,
        },
{
    SqlType::new(scalar_type, explicit_len)
}

/// The scalar type that is stored under a type name that the database
/// reports: that of the first relation that answers to the name in
/// upper case; `UnmappableSqlType` where none answers.
pub fn from_native(sql_type_name: &String) -> (r: Result<&'static str, SchemaError>)
    ensures
        match relation_answering(postgres::type_relations_spec(), uppercase(sql_type_name@)) {
            Some(rel) => r is Ok && r->Ok_0@ == rel.rust,
            None => r matches Err(SchemaError::UnmappableSqlType(name)) && name@
                == sql_type_name@,
        },
{
    match find_relation_answering(sql_type_name) {
        Ok(rel) => Ok(rel.rust),
        Err(e) => Err(e),
    }
}

/// The SQL type that a declaration would get for a type name that the
/// database reports. The name is compared in upper case with the SQL
/// type of each relation and with its other spellings;
/// `UnmappableSqlType` where no relation answers.
pub fn match_sql_type(sql_type: &String) -> (r: Result<&'static str, SchemaError>)
    ensures
        match relation_answering(postgres::type_relations_spec(), uppercase(sql_type@)) {
            Some(rel) => r is Ok && r->Ok_0@ == rel.sql,
            None => r matches Err(SchemaError::UnmappableSqlType(name)) && name@ == sql_type@,
        },
{
    let upper = to_uppercase(sql_type.as_str());
    let table = postgres::type_relations();
    let ghost all = relations_view(table@);
    let mut i: usize = 0;
    proof {
        assert(all.subrange(0, all.len() as int) =~= all);
    }
    while i < table.len()
        invariant
            i <= table.len(),
            all == relations_view(table@),
            all == postgres::type_relations_spec(),
            upper@ == uppercase(sql_type@),
            relation_answering(all, upper@) == relation_answering(
                all.subrange(i as int, all.len() as int),
                upper@,
            ),
        decreases table.len() - i,
    {
        proof {
            let rest = all.subrange(i as int, all.len() as int);
            assert(rest[0] == table@[i as int]@);
            assert(rest.drop_first() =~= all.subrange(i + 1, all.len() as int));
        }
        if relation_answers(&table[i], &upper) {
            return Ok(table[i].sql);
        }
        i += 1;
    }
    Err(SchemaError::UnmappableSqlType(sql_type.clone()))
}

/// The type name that the dialect writes for a column.
pub fn convert_sql_type(col: &Column) -> (r: String)
    ensures
        r@ == postgres::converted(col@),
{
    postgres::convert_sql_type(col)
}

impl Default for SqlType {
    fn default() -> (r: Self)
        ensures
            r@ == (SqlTypeView { name: Seq::empty(), len: None, len2: None, fixed_len: None }),
    {
        SqlType { name: String::new(), len: None, len2: None, fixed_len: None }
    }
}

impl PartialEq for SqlType {
    fn eq(&self, other: &Self) -> (r: bool) {
        postgres::is_same_type(self, other)
    }
}

impl PartialEqSpecImpl for SqlType {
    open spec fn obeys_eq_spec() -> bool {
        true
    }

    open spec fn eq_spec(&self, other: &Self) -> bool {
        postgres::same_type(self@, other@)
    }
}

impl Eq for SqlType {

}

impl Clone for SqlType {
    fn clone(&self) -> (r: Self)
        ensures
            r@ == self@,
    {
        SqlType {
            name: self.name.clone(),
            len: self.len,
            len2: self.len2,
            fixed_len: self.fixed_len,
        }
    }
}

impl SqlType {
    /// The SQL type of a declaration with the scalar type `rust_type`
    /// and, where one is declared, the length `len`.
    pub fn new(rust_type: &String, len: Option<isize>) -> (r: Result<Self, SchemaError>)
        ensures
            match relation_of(postgres::type_relations_spec(), rust_type@) {
                Some(rel) => r is Ok && r->Ok_0@ == native_type(rel, len),
                None => r matches Err(SchemaError::UnknownScalarType(name)) && name@
                    == rust_type@,
            },
    {
        match find_relation(rust_type) {
            Ok(rel) => {
                let chosen = if rel.fix_len.is_some() {
                    rel.fix_len
                } else if len.is_some() {
                    len
                } else {
                    rel.default_len
                };
                Ok(
                    SqlType {
                        name: String::from_str(rel.sql),
                        len: chosen,
                        len2: None,
                        fixed_len: rel.fix_len,
                    },
                )
            },
            Err(e) => Err(e),
        }
    }

    /// The type that `value` denotes, given what the pattern for sized
    /// types found in it.
    pub fn from_captures(value: &String, found: &Option<Vec<Option<String>>>) -> (r: Self)
        ensures
            r@ == type_from_match(
                value@,
                match found {
                    Some(groups) => Some(groups_view(groups@)),
                    None => None,
                },
            ),
    {
        if let Some(groups) = found {
            if groups.len() == 3 {
                if let Some(name) = &groups[1] {
                    if let Some(lens) = &groups[2] {
                        proof {
                            lemma_split_has_a_piece(lens@, ',');
                            assert(groups_view(groups@)[1] == Some(name@));
                            assert(groups_view(groups@)[2] == Some(lens@));
                        }
                        let pieces = split_at(lens.as_str(), ',');
                        assert(views(pieces@)[0] == pieces@[0]@);
                        let first = trim(pieces[0].as_str());
                        if let Some(len) = parse_isize(first.as_str()) {
                            if pieces.len() > 1 {
                                assert(views(pieces@)[1] == pieces@[1]@);
                                let second = trim(pieces[1].as_str());
                                if let Some(len2) = parse_isize(second.as_str()) {
                                    return SqlType {
                                        name: to_uppercase(name.as_str()),
                                        len: Some(len),
                                        len2: Some(len2),
                                        fixed_len: None,
                                    };
                                }
                            } else {
                                return SqlType {
                                    name: to_uppercase(name.as_str()),
                                    len: Some(len),
                                    len2: None,
                                    fixed_len: None,
                                };
                            }
                        }
                    }
                }
            }
        }
        SqlType { name: to_uppercase(value.as_str()), len: None, len2: None, fixed_len: None }
    }

    /// Reads a type written as `NAME`, `NAME(len)` or `NAME(len, len2)`.
    /// The name comes out in upper case.
    pub fn parse(value: &String) -> (r: Self)
        ensures
            r@ == parsed_type(value@),
    {
        let found = captures(SIZED_TYPE_PATTERN, value.as_str());
        SqlType::from_captures(value, &found)
    }

    /// The type as it is shown: `NAME`, `NAME(len)` or `NAME(len, len2)`.
    pub fn to_string(&self) -> (r: String)
        ensures
            r@ == displayed(self@),
    {
        let mut out = self.name.clone();
        match self.len {
            Some(len) => {
                out.append("(");
                out.append(isize_to_string(len).as_str());
                match self.len2 {
                    Some(len2) => {
                        out.append(", ");
                        out.append(isize_to_string(len2).as_str());
                    },
                    None => {},
                }
                out.append(")");
            },
            None => {},
        }
        assert(out@ =~= displayed(self@));
        out
    }

    /// Whether two types have the same name and the same lengths, the
    /// implied ones included.
    pub fn same(&self, other: &SqlType) -> (r: bool)
        ensures
            r == (self@ == other@),
    {
        let names = self.name == other.name;
        let lens = same_len(self.len, other.len) && same_len(self.len2, other.len2) && same_len(
            self.fixed_len,
            other.fixed_len,
        );
        assert(names == (self@.name =~= other@.name));
        names && lens
    }
}

fn same_len(a: Option<isize>, b: Option<isize>) -> (r: bool)
    ensures
        r == (a == b),
{
    match (a, b) {
        (Some(x), Some(y)) => x == y,
        (None, None) => true,
        _ => false,
    }
}

} // verus!
