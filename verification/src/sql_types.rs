//! The names of SQL column types, in upper case.

use vstd::prelude::*;

verus! {

pub const BIT: &'static str = "BIT";

pub const TINY_INT: &'static str = "TINYINT";

pub const SMALL_INT: &'static str = "SMALLINT";

pub const SMALL_SERIAL: &'static str = "SMALLSERIAL";

pub const MEDIUM_INT: &'static str = "MEDIUMINT";

pub const INT: &'static str = "INT";

pub const INTEGER: &'static str = "INTEGER";

pub const SERIAL: &'static str = "SERIAL";

pub const BIG_INT: &'static str = "BIGINT";

pub const BIG_SERIAL: &'static str = "BIGSERIAL";

pub const ENUM: &'static str = "ENUM";

pub const SET: &'static str = "SET";

pub const STRING: &'static str = "STRING";

pub const CHAR: &'static str = "CHAR";

pub const CHARACTER: &'static str = "CHARACTER";

pub const VARCHAR: &'static str = "VARCHAR";

pub const CHARACTER_VARYING: &'static str = "CHARACTER VARYING";

pub const NCHAR: &'static str = "NCHAR";

pub const NVARCHAR: &'static str = "NVARCHAR";

pub const TINY_TEXT: &'static str = "TINYTEXT";

pub const TEXT: &'static str = "TEXT";

pub const NTEXT: &'static str = "NTEXT";

pub const CLOB: &'static str = "CLOB";

pub const MEDIUM_TEXT: &'static str = "MEDIUMTEXT";

pub const LONG_TEXT: &'static str = "LONGTEXT";

pub const UUID: &'static str = "UUID";

pub const UNIQUE_IDENTIFIER: &'static str = "UNIQUEIDENTIFIER";

pub const SYS_NAME: &'static str = "SYSNAME";

pub const TIMESTAMP_WITHOUT_TIME_ZONE: &'static str = "TIMESTAMP WITHOUT TIME ZONE";

pub const DATE: &'static str = "DATE";

pub const DATE_TIME: &'static str = "DATETIME";

pub const SMALL_DATE_TIME: &'static str = "SMALLDATETIME";

pub const TIME: &'static str = "TIME";

pub const TIME_STAMP: &'static str = "TIMESTAMP";

pub const TIME_WITHOUT_TIME_ZONE: &'static str = "TIME WITHOUT TIME ZONE";

pub const TIME_STAMPZ: &'static str = "TIMESTAMPZ";

pub const TIMESTAMP_WITH_TIME_ZONE: &'static str = "TIMESTAMP WITH TIME ZONE";

pub const YEAR: &'static str = "YEAR";

pub const DECIMAL: &'static str = "DECIMAL";

pub const NUMERIC: &'static str = "NUMERIC";

pub const MONEY: &'static str = "MONEY";

pub const SMALL_MONEY: &'static str = "SMALLMONEY";

pub const REAL: &'static str = "REAL";

pub const FLOAT: &'static str = "FLOAT";

pub const DOUBLE: &'static str = "DOUBLE";

pub const DOUBLE_PRECISION: &'static str = "DOUBLE PRECISION";

pub const BINARY: &'static str = "BINARY";

pub const VAR_BINARY: &'static str = "VARBINARY";

pub const TINY_BLOB: &'static str = "TINYBLOB";

pub const BLOB: &'static str = "BLOB";

pub const MEDIUM_BLOB: &'static str = "MEDIUMBLOB";

pub const LONG_BLOB: &'static str = "LONGBLOB";

pub const BYTEA: &'static str = "BYTEA";

pub const BOOL: &'static str = "BOOL";

pub const BOOLEAN: &'static str = "BOOLEAN";

pub const JSON: &'static str = "JSON";

pub const JSONB: &'static str = "JSONB";

pub const XML: &'static str = "XML";

pub const ARRAY: &'static str = "ARRAY";

} // verus!
