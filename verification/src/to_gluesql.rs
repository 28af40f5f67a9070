//! Projection of host values into row expressions.

use vstd::prelude::*;
use vstd::string::to_string_from_display_ensures;
use gluesql_core::query_builder::ExprNode;
use crate::from_gluesql::UtcDateTime;
use crate::trusted::{
    boolean, date, delta_micros, expr, expr_model, micros_of_utc, null, num, rfc3339_text,
    since_unix_epoch, std_duration_as_micros, std_duration_micros, text,
    time_delta_num_microseconds, timestamp, unix_offset, utc_to_micros, utc_to_rfc3339,
};

verus! {

/// What a row expression says, as far as this library builds expressions.
pub enum ExprModel {
    /// A piece of SQL text that the engine parses when it builds the statement.
    Sql(Seq<char>),
    /// A number literal.
    Numeric(int),
    /// A text literal.
    QuotedString(Seq<char>),
    /// A text typed as a date.
    Date(Seq<char>),
    /// A text typed as a timestamp.
    Timestamp(Seq<char>),
    /// A boolean value.
    Bool(bool),
    /// The null value.
    Null,
    /// Any other expression.
    Other,
}

/// A host type whose values can be written as row expressions.
///
/// `projectable` and `projects` say what `to_gluesql` does. An
/// implementation that is not verified writes them as ordinary functions;
/// nothing calls them when the program runs.
pub trait ToGlueSql {
    /// Whether the value has a row expression.
    spec fn projectable(&self) -> bool;

    /// Whether `expr` is what the value is written as.
    spec fn projects(&self, expr: ExprModel) -> bool;

    /// Writes the value as a row expression.
    fn to_gluesql(&self) -> (node: ExprNode<'static>)
        requires
            self.projectable(),
        ensures
            self.projects(expr_model(node)),
    ;
}

/// A host type that can tell whether one of its values has a row expression.
pub trait Projectable: ToGlueSql {
    /// Whether the value has a row expression.
    fn is_projectable(&self) -> (b: bool)
        ensures
            b == self.projectable(),
    ;
}

/// Writes `value` as a row expression where it has one: a value without
/// one is left alone.
pub fn checked_to_gluesql<T: ToGlueSql + Projectable>(value: &T) -> (node: Option<ExprNode<'static>>)
    ensures
        match node {
            Some(node) => value.projectable() && value.projects(expr_model(node)),
            None => !value.projectable(),
        },
{
    if value.is_projectable() {
        Some(value.to_gluesql())
    } else {
        None
    }
}

impl ToGlueSql for String {
    open spec fn projectable(&self) -> bool {
        true
    }

    open spec fn projects(&self, expr: ExprModel) -> bool {
        expr == ExprModel::QuotedString(self@)
    }

    fn to_gluesql(&self) -> (node: ExprNode<'static>) {
        text(self.clone())
    }
}

impl ToGlueSql for &str {
    open spec fn projectable(&self) -> bool {
        true
    }

    open spec fn projects(&self, expr: ExprModel) -> bool {
        expr == ExprModel::QuotedString(self@)
    }

    fn to_gluesql(&self) -> (node: ExprNode<'static>) {
        text((*self).to_owned())
    }
}

impl ToGlueSql for i8 {
    open spec fn projectable(&self) -> bool {
        true
    }

    open spec fn projects(&self, expr: ExprModel) -> bool {
        expr == ExprModel::Numeric(*self as int)
    }

    fn to_gluesql(&self) -> (node: ExprNode<'static>) {
        num(*self)
    }
}

impl ToGlueSql for i16 {
    open spec fn projectable(&self) -> bool {
        true
    }

    open spec fn projects(&self, expr: ExprModel) -> bool {
        expr == ExprModel::Numeric(*self as int)
    }

    fn to_gluesql(&self) -> (node: ExprNode<'static>) {
        num(*self)
    }
}

impl ToGlueSql for i32 {
    open spec fn projectable(&self) -> bool {
        true
    }

    open spec fn projects(&self, expr: ExprModel) -> bool {
        expr == ExprModel::Numeric(*self as int)
    }

    fn to_gluesql(&self) -> (node: ExprNode<'static>) {
        num(*self)
    }
}

impl ToGlueSql for i64 {
    open spec fn projectable(&self) -> bool {
        true
    }

    open spec fn projects(&self, expr: ExprModel) -> bool {
        expr == ExprModel::Numeric(*self as int)
    }

    fn to_gluesql(&self) -> (node: ExprNode<'static>) {
        num(*self)
    }
}

impl ToGlueSql for u8 {
    open spec fn projectable(&self) -> bool {
        true
    }

    open spec fn projects(&self, expr: ExprModel) -> bool {
        expr == ExprModel::Numeric(*self as int)
    }

    fn to_gluesql(&self) -> (node: ExprNode<'static>) {
        num(*self)
    }
}

impl ToGlueSql for u16 {
    open spec fn projectable(&self) -> bool {
        true
    }

    open spec fn projects(&self, expr: ExprModel) -> bool {
        expr == ExprModel::Numeric(*self as int)
    }

    fn to_gluesql(&self) -> (node: ExprNode<'static>) {
        num(*self)
    }
}

impl ToGlueSql for u32 {
    open spec fn projectable(&self) -> bool {
        true
    }

    open spec fn projects(&self, expr: ExprModel) -> bool {
        expr == ExprModel::Numeric(*self as int)
    }

    fn to_gluesql(&self) -> (node: ExprNode<'static>) {
        num(*self)
    }
}

impl ToGlueSql for u64 {
    open spec fn projectable(&self) -> bool {
        true
    }

    open spec fn projects(&self, expr: ExprModel) -> bool {
        expr == ExprModel::Numeric(*self as int)
    }

    fn to_gluesql(&self) -> (node: ExprNode<'static>) {
        num(*self)
    }
}

impl ToGlueSql for bool {
    open spec fn projectable(&self) -> bool {
        true
    }

    open spec fn projects(&self, expr: ExprModel) -> bool {
        expr == ExprModel::Bool(*self)
    }

    fn to_gluesql(&self) -> (node: ExprNode<'static>) {
        boolean(*self)
    }
}

/// The absent value is written as null, any other as `T` writes it.
impl<T: ToGlueSql> ToGlueSql for Option<T> {
    open spec fn projectable(&self) -> bool {
        match self {
            Some(v) => v.projectable(),
            None => true,
        }
    }

    open spec fn projects(&self, expr: ExprModel) -> bool {
        match self {
            Some(v) => v.projects(expr),
            None => expr == ExprModel::Null,
        }
    }

    fn to_gluesql(&self) -> (node: ExprNode<'static>) {
        match self {
            Some(v) => v.to_gluesql(),
            None => null(),
        }
    }
}

impl ToGlueSql for () {
    open spec fn projectable(&self) -> bool {
        true
    }

    open spec fn projects(&self, expr: ExprModel) -> bool {
        expr == ExprModel::Null
    }

    fn to_gluesql(&self) -> (node: ExprNode<'static>) {
        null()
    }
}

/// A decimal is written as the SQL text that it prints as.
impl ToGlueSql for rust_decimal::Decimal {
    open spec fn projectable(&self) -> bool {
        true
    }

    open spec fn projects(&self, expr: ExprModel) -> bool {
        exists|s: String| #[trigger]
            to_string_from_display_ensures::<rust_decimal::Decimal>(self, s) && expr
                == ExprModel::Sql(s@)
    }

    fn to_gluesql(&self) -> (node: ExprNode<'static>) {
        let s = self.to_string();
        assert(to_string_from_display_ensures::<rust_decimal::Decimal>(self, s));
        expr(s)
    }
}

/// An instant is written as a timestamp, in its RFC 3339 text.
impl ToGlueSql for UtcDateTime {
    open spec fn projectable(&self) -> bool {
        true
    }

    open spec fn projects(&self, expr: ExprModel) -> bool {
        expr == ExprModel::Timestamp(rfc3339_text(self.0))
    }

    fn to_gluesql(&self) -> (node: ExprNode<'static>) {
        timestamp(utc_to_rfc3339(&self.0))
    }
}

/// A date and time is written as the count of microseconds from the Unix
/// epoch to the instant at which UTC shows it.
impl ToGlueSql for chrono::NaiveDateTime {
    open spec fn projectable(&self) -> bool {
        true
    }

    open spec fn projects(&self, expr: ExprModel) -> bool {
        expr == ExprModel::Numeric(micros_of_utc(*self) as int)
    }

    fn to_gluesql(&self) -> (node: ExprNode<'static>) {
        num(utc_to_micros(self))
    }
}

/// A time of day is written as the text that it prints as, typed as a date.
impl ToGlueSql for chrono::NaiveTime {
    open spec fn projectable(&self) -> bool {
        true
    }

    open spec fn projects(&self, expr: ExprModel) -> bool {
        exists|s: String| #[trigger]
            to_string_from_display_ensures::<chrono::NaiveTime>(self, s) && expr
                == ExprModel::Date(s@)
    }

    fn to_gluesql(&self) -> (node: ExprNode<'static>) {
        let s = self.to_string();
        assert(to_string_from_display_ensures::<chrono::NaiveTime>(self, s));
        date(s)
    }
}

/// A date is written as the text that it prints as, typed as a date.
impl ToGlueSql for chrono::NaiveDate {
    open spec fn projectable(&self) -> bool {
        true
    }

    open spec fn projects(&self, expr: ExprModel) -> bool {
        exists|s: String| #[trigger]
            to_string_from_display_ensures::<chrono::NaiveDate>(self, s) && expr
                == ExprModel::Date(s@)
    }

    fn to_gluesql(&self) -> (node: ExprNode<'static>) {
        let s = self.to_string();
        assert(to_string_from_display_ensures::<chrono::NaiveDate>(self, s));
        date(s)
    }
}

/// A time span is written as its whole microseconds. A span whose
/// microseconds pass 2^63 in either direction has no row expression.
impl ToGlueSql for chrono::TimeDelta {
    open spec fn projectable(&self) -> bool {
        delta_micros(*self).is_some()
    }

    open spec fn projects(&self, expr: ExprModel) -> bool {
        delta_micros(*self) matches Some(micros) && expr == ExprModel::Numeric(micros as int)
    }

    fn to_gluesql(&self) -> (node: ExprNode<'static>) {
        num(time_delta_num_microseconds(self).unwrap())
    }
}

impl Projectable for chrono::TimeDelta {
    fn is_projectable(&self) -> (b: bool) {
        time_delta_num_microseconds(self).is_some()
    }
}

/// A count of microseconds as a signed number: a count from 2^63 on wraps
/// around, as a cast does.
pub open spec fn signed_micros(micros: u128) -> i64 {
    micros as i64
}

/// An unsigned time span is written as its whole microseconds; a count
/// from 2^63 on wraps around.
impl ToGlueSql for std::time::Duration {
    open spec fn projectable(&self) -> bool {
        true
    }

    open spec fn projects(&self, expr: ExprModel) -> bool {
        expr == ExprModel::Numeric(signed_micros(std_duration_micros(*self)) as int)
    }

    fn to_gluesql(&self) -> (node: ExprNode<'static>) {
        num(
            #[verifier::truncate]
            (std_duration_as_micros(self) as i64),
        )
    }
}

/// A system time is written as the whole microseconds since the Unix
/// epoch. A system time before the epoch has no row expression.
impl ToGlueSql for std::time::SystemTime {
    open spec fn projectable(&self) -> bool {
        unix_offset(*self).is_some()
    }

    open spec fn projects(&self, expr: ExprModel) -> bool {
        unix_offset(*self) matches Some(offset) && expr == ExprModel::Numeric(
            signed_micros(std_duration_micros(offset)) as int,
        )
    }

    fn to_gluesql(&self) -> (node: ExprNode<'static>) {
        let offset = since_unix_epoch(self).unwrap();
        num(
            #[verifier::truncate]
            (std_duration_as_micros(&offset) as i64),
        )
    }
}

impl Projectable for std::time::SystemTime {
    fn is_projectable(&self) -> (b: bool) {
        since_unix_epoch(self).is_some()
    }
}

/// An identifier is written as the text literal that it prints as.
impl ToGlueSql for uuid::Uuid {
    open spec fn projectable(&self) -> bool {
        true
    }

    open spec fn projects(&self, expr: ExprModel) -> bool {
        exists|s: String| #[trigger]
            to_string_from_display_ensures::<uuid::Uuid>(self, s) && expr
                == ExprModel::QuotedString(s@)
    }

    fn to_gluesql(&self) -> (node: ExprNode<'static>) {
        let s = self.to_string();
        assert(to_string_from_display_ensures::<uuid::Uuid>(self, s));
        text(s)
    }
}

} // verus!
