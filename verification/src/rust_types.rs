//! The names of the scalar types that a column can be declared with.

use vstd::prelude::*;

verus! {

pub const R_BOOL: &'static str = "bool";

pub const R_CHAR: &'static str = "char";

pub const R_U8: &'static str = "u8";

pub const R_I8: &'static str = "i8";

pub const R_U16: &'static str = "u16";

pub const R_I16: &'static str = "i16";

pub const R_U32: &'static str = "u32";

pub const R_I32: &'static str = "i32";

pub const R_U64: &'static str = "u64";

pub const R_I64: &'static str = "i64";

pub const R_F16: &'static str = "f16";

pub const R_F32: &'static str = "f32";

pub const R_F64: &'static str = "f64";

pub const R_STRING: &'static str = "String";

pub const R_BINARY: &'static str = "Vec<u8>";

pub const R_CHRONO_DATE: &'static str = "NaiveDate";

pub const R_CHRONO_DATE_FULL: &'static str = "chrono::NaiveDate";

pub const R_CHRONO_DATETIME: &'static str = "NaiveDateTime";

pub const R_CHRONO_DATETIME_FULL: &'static str = "chrono::NaiveDateTime";

pub const R_CHRONO_TIME: &'static str = "NaiveTime";

pub const R_CHRONO_TIME_FULL: &'static str = "chrono::NaiveTime";

} // verus!
