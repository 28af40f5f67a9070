//! Types of other crates that values of this library carry, and the calls
//! made into those crates. Nothing here is proved: each contract restates what
//! the called crate documents. A type declared here is opaque to the proofs;
//! a value of it is only handed on.

use vstd::prelude::*;
use chrono::TimeZone;
use core::str::FromStr;
use crate::to_gluesql::ExprModel;

verus! {

/// `rust_decimal::Decimal`, a decimal number.
#[verifier::external_type_specification]
#[verifier::external_body]
pub struct ExDecimal(rust_decimal::Decimal);

/// `chrono::NaiveDate`, a calendar date.
#[verifier::external_type_specification]
#[verifier::external_body]
pub struct ExNaiveDate(chrono::NaiveDate);

/// `chrono::NaiveDate`, a calendar date.
/// `chrono::NaiveDateTime`, a calendar date with a time of day.
#[verifier::external_type_specification]
#[verifier::external_body]
pub struct ExNaiveDateTime(chrono::NaiveDateTime);

/// `chrono::NaiveTime`, a time of day.
#[verifier::external_type_specification]
#[verifier::external_body]
pub struct ExNaiveTime(chrono::NaiveTime);

/// `chrono::TimeDelta` (also named `chrono::Duration`), a signed time span.
#[verifier::external_type_specification]
#[verifier::external_body]
pub struct ExTimeDelta(chrono::TimeDelta);

/// `uuid::Uuid`, an identifier of 128 bits.
#[verifier::external_type_specification]
#[verifier::external_body]
pub struct ExUuid(uuid::Uuid);

/// `bytes::Bytes`, a buffer of bytes.
#[verifier::external_type_specification]
#[verifier::external_body]
pub struct ExBytes(bytes::Bytes);

/// The bytes that a `bytes::Bytes` holds, in order.
pub uninterp spec fn bytes_contents(bytes: bytes::Bytes) -> Seq<u8>;

/// `Bytes::from(Vec<u8>)`: a buffer that holds the bytes of `v`.
#[verifier::external_body]
pub(crate) fn bytes_from_vec(v: Vec<u8>) -> (b: bytes::Bytes)
    ensures
        bytes_contents(b) == v@,
{
    bytes::Bytes::from(v)
}

/// The date that `NaiveDate::from_str` reads in a text, if it reads one.
pub uninterp spec fn naive_date_parsed(text: Seq<char>) -> Option<chrono::NaiveDate>;

/// `NaiveDate::from_str`: parses a calendar date. The result depends on the
/// text alone.
#[verifier::external_body]
pub(crate) fn parse_naive_date(text: &str) -> (r: Option<chrono::NaiveDate>)
    ensures
        r == naive_date_parsed(text@),
{
    chrono::NaiveDate::from_str(text).ok()
}

/// The date and time in UTC at a count of microseconds since the Unix epoch,
/// where the calendar of `chrono` reaches that far.
pub uninterp spec fn utc_micros(micros: i64) -> Option<chrono::NaiveDateTime>;

/// `Utc.timestamp_micros(..).single()`, read in UTC by `DateTime::naive_utc`:
/// nothing for a count that is out of the calendar's range. The result
/// depends on the count alone.
#[verifier::external_body]
pub(crate) fn utc_timestamp_micros(micros: i64) -> (r: Option<chrono::NaiveDateTime>)
    ensures
        r == utc_micros(micros),
{
    Some(chrono::Utc.timestamp_micros(micros).single()?.naive_utc())
}

/// The time span of a count of microseconds.
pub uninterp spec fn micros_delta(micros: i64) -> chrono::TimeDelta;

/// `TimeDelta::microseconds`: the span of that many microseconds; every
/// count has one.
#[verifier::external_body]
pub(crate) fn time_delta_microseconds(micros: i64) -> (d: chrono::TimeDelta)
    ensures
        d == micros_delta(micros),
{
    chrono::TimeDelta::microseconds(micros)
}

/// The unsigned time span of a count of microseconds.
pub uninterp spec fn std_micros_duration(micros: u64) -> std::time::Duration;

/// `Duration::from_micros`: the span of that many microseconds.
#[verifier::external_body]
pub(crate) fn std_duration_from_micros(micros: u64) -> (d: std::time::Duration)
    ensures
        d == std_micros_duration(micros),
{
    std::time::Duration::from_micros(micros)
}

/// The identifier whose sixteen bytes are the big-endian bytes of a number.
pub uninterp spec fn uuid_of(number: u128) -> uuid::Uuid;

/// `Uuid::from_slice` on the sixteen big-endian bytes of `number`, which it
/// accepts for their length.
#[verifier::external_body]
pub(crate) fn uuid_from_number(number: u128) -> (u: uuid::Uuid)
    ensures
        u == uuid_of(number),
{
    uuid::Uuid::from_slice(&number.to_be_bytes()).unwrap()
}

/// `gluesql_core::query_builder::ExprNode`, an expression of a statement
/// that is being built.
#[verifier::external_type_specification]
#[verifier::external_body]
pub struct ExExprNode<'a>(gluesql_core::query_builder::ExprNode<'a>);

/// `gluesql_core::query_builder::NumericNode`, the number of a numeric
/// expression.
#[verifier::external_type_specification]
#[verifier::external_body]
pub struct ExNumericNode<'a>(gluesql_core::query_builder::NumericNode<'a>);

/// `std::time::SystemTime`, a reading of the system clock.
#[verifier::external_type_specification]
#[verifier::external_body]
pub struct ExSystemTime(std::time::SystemTime);

/// What the expression node `node` says.
pub uninterp spec fn expr_model(node: gluesql_core::query_builder::ExprNode<'static>) -> ExprModel;

/// `query_builder::text`: the text literal of `value` (`ExprNode::QuotedString`).
#[verifier::external_body]
pub(crate) fn text(value: String) -> (node: gluesql_core::query_builder::ExprNode<'static>)
    ensures
        expr_model(node) == ExprModel::QuotedString(value@),
{
    gluesql_core::query_builder::text(value)
}

/// `query_builder::expr`: `value` kept as SQL text (`ExprNode::SqlExpr`).
#[verifier::external_body]
pub(crate) fn expr(value: String) -> (node: gluesql_core::query_builder::ExprNode<'static>)
    ensures
        expr_model(node) == ExprModel::Sql(value@),
{
    gluesql_core::query_builder::expr(value)
}

/// `query_builder::date`: `value` typed as a date (`ExprNode::TypedString`
/// with `DataType::Date`).
#[verifier::external_body]
pub(crate) fn date(value: String) -> (node: gluesql_core::query_builder::ExprNode<'static>)
    ensures
        expr_model(node) == ExprModel::Date(value@),
{
    gluesql_core::query_builder::date(value)
}

/// `query_builder::timestamp`: `value` typed as a timestamp
/// (`ExprNode::TypedString` with `DataType::Timestamp`).
#[verifier::external_body]
pub(crate) fn timestamp(value: String) -> (node: gluesql_core::query_builder::ExprNode<'static>)
    ensures
        expr_model(node) == ExprModel::Timestamp(value@),
{
    gluesql_core::query_builder::timestamp(value)
}

/// `query_builder::null`: the null value.
#[verifier::external_body]
pub(crate) fn null() -> (node: gluesql_core::query_builder::ExprNode<'static>)
    ensures
        expr_model(node) == ExprModel::Null,
{
    gluesql_core::query_builder::null()
}

/// `ExprNode::from(bool)`: the boolean value `value`.
#[verifier::external_body]
pub(crate) fn boolean(value: bool) -> (node: gluesql_core::query_builder::ExprNode<'static>)
    ensures
        expr_model(node) == ExprModel::Bool(value),
{
    gluesql_core::query_builder::ExprNode::from(value)
}

/// `query_builder::num` on one of the integer types that it takes:
/// the number `value` (`ExprNode::Numeric`, which holds the integer as it is).
#[verifier::external_body]
pub(crate) fn num<T: Integer + Into<gluesql_core::query_builder::NumericNode<'static>>>(
    value: T,
) -> (node: gluesql_core::query_builder::ExprNode<'static>)
    ensures
        expr_model(node) == ExprModel::Numeric(value as int),
{
    gluesql_core::query_builder::num(value)
}

/// The RFC 3339 text of the instant at which UTC shows a date and time.
pub uninterp spec fn rfc3339_text(at: chrono::NaiveDateTime) -> Seq<char>;

/// `NaiveDateTime::and_utc`, then `DateTime::to_rfc3339`, which writes into
/// a `String` and so does not fail. The text depends on the date and time
/// alone.
#[verifier::external_body]
pub(crate) fn utc_to_rfc3339(at: &chrono::NaiveDateTime) -> (text: String)
    ensures
        text@ == rfc3339_text(*at),
{
    at.and_utc().to_rfc3339()
}

/// The count of microseconds from the Unix epoch to the instant at which
/// UTC shows a date and time.
pub uninterp spec fn micros_of_utc(at: chrono::NaiveDateTime) -> i64;

/// `NaiveDateTime::and_utc`, then `DateTime::timestamp_micros`. The count
/// depends on the date and time alone; every date and time of `chrono` has one.
#[verifier::external_body]
pub(crate) fn utc_to_micros(at: &chrono::NaiveDateTime) -> (micros: i64)
    ensures
        micros == micros_of_utc(*at),
{
    at.and_utc().timestamp_micros()
}

/// The whole microseconds of a time span, where an `i64` holds them.
pub uninterp spec fn delta_micros(span: chrono::TimeDelta) -> Option<i64>;

/// `TimeDelta::num_microseconds`: the whole microseconds of the span, or
/// nothing where they pass 2^63 in either direction.
#[verifier::external_body]
pub(crate) fn time_delta_num_microseconds(span: &chrono::TimeDelta) -> (micros: Option<i64>)
    ensures
        micros == delta_micros(*span),
{
    span.num_microseconds()
}

/// The whole microseconds of an unsigned time span.
pub uninterp spec fn std_duration_micros(span: std::time::Duration) -> u128;

/// `Duration::as_micros`: the whole microseconds of the span.
#[verifier::external_body]
pub(crate) fn std_duration_as_micros(span: &std::time::Duration) -> (micros: u128)
    ensures
        micros == std_duration_micros(*span),
{
    span.as_micros()
}

/// The time from the Unix epoch to a system time that is not before it.
pub uninterp spec fn unix_offset(at: std::time::SystemTime) -> Option<std::time::Duration>;

/// `SystemTime::duration_since(UNIX_EPOCH)`: the time since the epoch, or
/// nothing for a system time before it.
#[verifier::external_body]
pub(crate) fn since_unix_epoch(at: &std::time::SystemTime) -> (offset: Option<std::time::Duration>)
    ensures
        offset == unix_offset(*at),
{
    at.duration_since(std::time::UNIX_EPOCH).ok()
}

/// `proc_macro2::TokenStream`, a sequence of Rust tokens.
#[verifier::external_type_specification]
#[verifier::external_body]
pub struct ExTokenStream(proc_macro2::TokenStream);

/// `proc_macro2::LexError`, the refusal to read a text as Rust tokens.
#[verifier::external_type_specification]
#[verifier::external_body]
pub struct ExLexError(proc_macro2::LexError);

/// `str::parse` into a `proc_macro2::TokenStream`: reads `expr` as Rust
/// tokens. Which texts read depends on the lexer at hand, so nothing is
/// claimed of the outcome.
#[verifier::external_body]
pub(crate) fn lex_type_expr(expr: &str) -> Result<proc_macro2::TokenStream, proc_macro2::LexError> {
    expr.parse::<proc_macro2::TokenStream>()
}

} // verus!
