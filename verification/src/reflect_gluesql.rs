//! Schema types of host types.

use vstd::prelude::*;
use crate::text_map::TextMap;

verus! {

/// The column type text of a schema type, with its nullability.
pub open spec fn with_nullability(schema_type: Seq<char>, nullable: bool) -> Seq<char> {
    if nullable {
        schema_type + " NULL"@
    } else {
        schema_type + " NOT NULL"@
    }
}

/// A host type that has a schema type.
///
/// `schema_type` and `nullable` say what the two other functions return. An
/// implementation that is not verified writes them as ordinary functions;
/// nothing calls them when the program runs.
pub trait ReflectGlueSql {
    /// The name of the schema type that stores this host type.
    spec fn schema_type() -> &'static str;

    /// Whether a column of this host type admits the null value.
    spec fn nullable() -> bool;

    fn reflect_gluesql_type() -> (s: String)
        ensures
            s@ == Self::schema_type()@,
    ;

    fn reflect_gluesql_type_with_nullability() -> (s: String)
        ensures
            s@ == with_nullability(Self::schema_type()@, Self::nullable()),
    ;
}

/// The column type text of a schema type whose columns refuse null.
fn not_null(schema_type: &str) -> (s: String)
    ensures
        s@ == with_nullability(schema_type@, false),
{
    let mut s = schema_type.to_owned();
    s.append(" NOT NULL");
    s
}

impl ReflectGlueSql for bool {
    open spec fn schema_type() -> &'static str {
        "BOOLEAN"
    }

    open spec fn nullable() -> bool {
        false
    }

    fn reflect_gluesql_type() -> (s: String) {
        "BOOLEAN".to_owned()
    }

    fn reflect_gluesql_type_with_nullability() -> (s: String) {
        not_null("BOOLEAN")
    }
}

impl ReflectGlueSql for i8 {
    open spec fn schema_type() -> &'static str {
        "INT8"
    }

    open spec fn nullable() -> bool {
        false
    }

    fn reflect_gluesql_type() -> (s: String) {
        "INT8".to_owned()
    }

    fn reflect_gluesql_type_with_nullability() -> (s: String) {
        not_null("INT8")
    }
}

impl ReflectGlueSql for i16 {
    open spec fn schema_type() -> &'static str {
        "INT16"
    }

    open spec fn nullable() -> bool {
        false
    }

    fn reflect_gluesql_type() -> (s: String) {
        "INT16".to_owned()
    }

    fn reflect_gluesql_type_with_nullability() -> (s: String) {
        not_null("INT16")
    }
}

impl ReflectGlueSql for i32 {
    open spec fn schema_type() -> &'static str {
        "INT32"
    }

    open spec fn nullable() -> bool {
        false
    }

    fn reflect_gluesql_type() -> (s: String) {
        "INT32".to_owned()
    }

    fn reflect_gluesql_type_with_nullability() -> (s: String) {
        not_null("INT32")
    }
}

impl ReflectGlueSql for i64 {
    open spec fn schema_type() -> &'static str {
        "INT"
    }

    open spec fn nullable() -> bool {
        false
    }

    fn reflect_gluesql_type() -> (s: String) {
        "INT".to_owned()
    }

    fn reflect_gluesql_type_with_nullability() -> (s: String) {
        not_null("INT")
    }
}

impl ReflectGlueSql for i128 {
    open spec fn schema_type() -> &'static str {
        "INT128"
    }

    open spec fn nullable() -> bool {
        false
    }

    fn reflect_gluesql_type() -> (s: String) {
        "INT128".to_owned()
    }

    fn reflect_gluesql_type_with_nullability() -> (s: String) {
        not_null("INT128")
    }
}

impl ReflectGlueSql for u8 {
    open spec fn schema_type() -> &'static str {
        "UINT8"
    }

    open spec fn nullable() -> bool {
        false
    }

    fn reflect_gluesql_type() -> (s: String) {
        "UINT8".to_owned()
    }

    fn reflect_gluesql_type_with_nullability() -> (s: String) {
        not_null("UINT8")
    }
}

impl ReflectGlueSql for u16 {
    open spec fn schema_type() -> &'static str {
        "UINT16"
    }

    open spec fn nullable() -> bool {
        false
    }

    fn reflect_gluesql_type() -> (s: String) {
        "UINT16".to_owned()
    }

    fn reflect_gluesql_type_with_nullability() -> (s: String) {
        not_null("UINT16")
    }
}

impl ReflectGlueSql for u32 {
    open spec fn schema_type() -> &'static str {
        "UINT32"
    }

    open spec fn nullable() -> bool {
        false
    }

    fn reflect_gluesql_type() -> (s: String) {
        "UINT32".to_owned()
    }

    fn reflect_gluesql_type_with_nullability() -> (s: String) {
        not_null("UINT32")
    }
}

impl ReflectGlueSql for u64 {
    open spec fn schema_type() -> &'static str {
        "UINT64"
    }

    open spec fn nullable() -> bool {
        false
    }

    fn reflect_gluesql_type() -> (s: String) {
        "UINT64".to_owned()
    }

    fn reflect_gluesql_type_with_nullability() -> (s: String) {
        not_null("UINT64")
    }
}

impl ReflectGlueSql for u128 {
    open spec fn schema_type() -> &'static str {
        "UINT128"
    }

    open spec fn nullable() -> bool {
        false
    }

    fn reflect_gluesql_type() -> (s: String) {
        "UINT128".to_owned()
    }

    fn reflect_gluesql_type_with_nullability() -> (s: String) {
        not_null("UINT128")
    }
}

impl ReflectGlueSql for String {
    open spec fn schema_type() -> &'static str {
        "TEXT"
    }

    open spec fn nullable() -> bool {
        false
    }

    fn reflect_gluesql_type() -> (s: String) {
        "TEXT".to_owned()
    }

    fn reflect_gluesql_type_with_nullability() -> (s: String) {
        not_null("TEXT")
    }
}

impl ReflectGlueSql for &str {
    open spec fn schema_type() -> &'static str {
        "TEXT"
    }

    open spec fn nullable() -> bool {
        false
    }

    fn reflect_gluesql_type() -> (s: String) {
        "TEXT".to_owned()
    }

    fn reflect_gluesql_type_with_nullability() -> (s: String) {
        not_null("TEXT")
    }
}

impl ReflectGlueSql for rust_decimal::Decimal {
    open spec fn schema_type() -> &'static str {
        "DECIMAL"
    }

    open spec fn nullable() -> bool {
        false
    }

    fn reflect_gluesql_type() -> (s: String) {
        "DECIMAL".to_owned()
    }

    fn reflect_gluesql_type_with_nullability() -> (s: String) {
        not_null("DECIMAL")
    }
}

impl ReflectGlueSql for chrono::NaiveDate {
    open spec fn schema_type() -> &'static str {
        "DATE"
    }

    open spec fn nullable() -> bool {
        false
    }

    fn reflect_gluesql_type() -> (s: String) {
        "DATE".to_owned()
    }

    fn reflect_gluesql_type_with_nullability() -> (s: String) {
        not_null("DATE")
    }
}

impl ReflectGlueSql for chrono::NaiveDateTime {
    open spec fn schema_type() -> &'static str {
        "TIMESTAMP"
    }

    open spec fn nullable() -> bool {
        false
    }

    fn reflect_gluesql_type() -> (s: String) {
        "TIMESTAMP".to_owned()
    }

    fn reflect_gluesql_type_with_nullability() -> (s: String) {
        not_null("TIMESTAMP")
    }
}

impl ReflectGlueSql for chrono::NaiveTime {
    open spec fn schema_type() -> &'static str {
        "TIME"
    }

    open spec fn nullable() -> bool {
        false
    }

    fn reflect_gluesql_type() -> (s: String) {
        "TIME".to_owned()
    }

    fn reflect_gluesql_type_with_nullability() -> (s: String) {
        not_null("TIME")
    }
}

impl ReflectGlueSql for chrono::TimeDelta {
    open spec fn schema_type() -> &'static str {
        "INTERVAL"
    }

    open spec fn nullable() -> bool {
        false
    }

    fn reflect_gluesql_type() -> (s: String) {
        "INTERVAL".to_owned()
    }

    fn reflect_gluesql_type_with_nullability() -> (s: String) {
        not_null("INTERVAL")
    }
}

impl ReflectGlueSql for bytes::Bytes {
    open spec fn schema_type() -> &'static str {
        "BYTEA"
    }

    open spec fn nullable() -> bool {
        false
    }

    fn reflect_gluesql_type() -> (s: String) {
        "BYTEA".to_owned()
    }

    fn reflect_gluesql_type_with_nullability() -> (s: String) {
        not_null("BYTEA")
    }
}

impl ReflectGlueSql for uuid::Uuid {
    open spec fn schema_type() -> &'static str {
        "UUID"
    }

    open spec fn nullable() -> bool {
        false
    }

    fn reflect_gluesql_type() -> (s: String) {
        "UUID".to_owned()
    }

    fn reflect_gluesql_type_with_nullability() -> (s: String) {
        not_null("UUID")
    }
}

impl<T: ReflectGlueSql> ReflectGlueSql for Option<T> {
    open spec fn schema_type() -> &'static str {
        T::schema_type()
    }

    open spec fn nullable() -> bool {
        true
    }

    fn reflect_gluesql_type() -> (s: String) {
        T::reflect_gluesql_type()
    }

    fn reflect_gluesql_type_with_nullability() -> (s: String) {
        let mut s = T::reflect_gluesql_type();
        s.append(" NULL");
        s
    }
}

impl<T: ReflectGlueSql> ReflectGlueSql for Vec<T> {
    open spec fn schema_type() -> &'static str {
        "LIST"
    }

    open spec fn nullable() -> bool {
        false
    }

    fn reflect_gluesql_type() -> (s: String) {
        "LIST".to_owned()
    }

    fn reflect_gluesql_type_with_nullability() -> (s: String) {
        not_null("LIST")
    }
}

impl<K: ReflectGlueSql, V: ReflectGlueSql> ReflectGlueSql for std::collections::HashMap<K, V> {
    open spec fn schema_type() -> &'static str {
        "MAP"
    }

    open spec fn nullable() -> bool {
        false
    }

    fn reflect_gluesql_type() -> (s: String) {
        "MAP".to_owned()
    }

    fn reflect_gluesql_type_with_nullability() -> (s: String) {
        not_null("MAP")
    }
}

impl<T: ReflectGlueSql> ReflectGlueSql for TextMap<T> {
    open spec fn schema_type() -> &'static str {
        "MAP"
    }

    open spec fn nullable() -> bool {
        false
    }

    fn reflect_gluesql_type() -> (s: String) {
        "MAP".to_owned()
    }

    fn reflect_gluesql_type_with_nullability() -> (s: String) {
        not_null("MAP")
    }
}

} // verus!
