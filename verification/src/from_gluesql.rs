//! Extraction of host values from tagged values.

use vstd::prelude::*;
use crate::trusted::{
    bytes_contents, bytes_from_vec, micros_delta, naive_date_parsed, parse_naive_date,
    std_duration_from_micros, std_micros_duration, time_delta_microseconds, utc_micros,
    utc_timestamp_micros, uuid_from_number, uuid_of,
};
use crate::text_map::TextMap;
use crate::value::{Inet, Interval, Value};
use crate::{Error, ErrorView};

verus! {

/// A host type that can be read out of a tagged value.
///
/// `model`, `decode` and `rejects` say what `from_gluesql` does. An
/// implementation that is not verified writes them as ordinary functions;
/// nothing calls them when the program runs.
pub trait FromGlueSql: Sized {
    /// The mathematical value that a host value stands for.
    type Model;

    /// The mathematical value of `self`.
    spec fn model(&self) -> Self::Model;

    /// What `value` holds for this host type, if anything.
    spec fn decode(value: Value) -> Option<Self::Model>;

    /// Whether `error` is the failure reported for a `value` that holds
    /// nothing for this host type.
    spec fn rejects(value: Value, error: Error) -> bool;

    /// Reads `value` as this host type.
    fn from_gluesql(value: Value) -> (r: Result<Self, Error>)
        ensures
            match r {
                Ok(x) => Self::decode(value) == Some(x.model()),
                Err(e) => Self::decode(value).is_none() && Self::rejects(value, e),
            },
    ;
}

/// `error` reports that `value` holds nothing for the host type named `name`.
pub open spec fn scalar_rejects(name: &str, value: Value, error: Error) -> bool {
    error@ == ErrorView::InvalidConversion(name@, value)
}

impl FromGlueSql for i8 {
    type Model = i8;

    open spec fn model(&self) -> i8 {
        *self
    }

    open spec fn decode(value: Value) -> Option<i8> {
        match value {
            Value::I8(x) => Some(x),
            _ => None,
        }
    }

    open spec fn rejects(value: Value, error: Error) -> bool {
        scalar_rejects("i8", value, error)
    }

    fn from_gluesql(value: Value) -> (r: Result<Self, Error>) {
        match value {
            Value::I8(x) => Ok(x),
            _ => Err(Error::InvalidConversion("i8", value)),
        }
    }
}

impl FromGlueSql for i16 {
    type Model = i16;

    open spec fn model(&self) -> i16 {
        *self
    }

    open spec fn decode(value: Value) -> Option<i16> {
        match value {
            Value::I16(x) => Some(x),
            _ => None,
        }
    }

    open spec fn rejects(value: Value, error: Error) -> bool {
        scalar_rejects("i16", value, error)
    }

    fn from_gluesql(value: Value) -> (r: Result<Self, Error>) {
        match value {
            Value::I16(x) => Ok(x),
            _ => Err(Error::InvalidConversion("i16", value)),
        }
    }
}

impl FromGlueSql for i32 {
    type Model = i32;

    open spec fn model(&self) -> i32 {
        *self
    }

    open spec fn decode(value: Value) -> Option<i32> {
        match value {
            Value::I32(x) => Some(x),
            _ => None,
        }
    }

    open spec fn rejects(value: Value, error: Error) -> bool {
        scalar_rejects("i32", value, error)
    }

    fn from_gluesql(value: Value) -> (r: Result<Self, Error>) {
        match value {
            Value::I32(x) => Ok(x),
            _ => Err(Error::InvalidConversion("i32", value)),
        }
    }
}

impl FromGlueSql for i64 {
    type Model = i64;

    open spec fn model(&self) -> i64 {
        *self
    }

    open spec fn decode(value: Value) -> Option<i64> {
        match value {
            Value::I64(x) => Some(x),
            _ => None,
        }
    }

    open spec fn rejects(value: Value, error: Error) -> bool {
        scalar_rejects("i64", value, error)
    }

    fn from_gluesql(value: Value) -> (r: Result<Self, Error>) {
        match value {
            Value::I64(x) => Ok(x),
            _ => Err(Error::InvalidConversion("i64", value)),
        }
    }
}

impl FromGlueSql for i128 {
    type Model = i128;

    open spec fn model(&self) -> i128 {
        *self
    }

    open spec fn decode(value: Value) -> Option<i128> {
        match value {
            Value::I128(x) => Some(x),
            _ => None,
        }
    }

    open spec fn rejects(value: Value, error: Error) -> bool {
        scalar_rejects("i128", value, error)
    }

    fn from_gluesql(value: Value) -> (r: Result<Self, Error>) {
        match value {
            Value::I128(x) => Ok(x),
            _ => Err(Error::InvalidConversion("i128", value)),
        }
    }
}

impl FromGlueSql for u8 {
    type Model = u8;

    open spec fn model(&self) -> u8 {
        *self
    }

    open spec fn decode(value: Value) -> Option<u8> {
        match value {
            Value::U8(x) => Some(x),
            _ => None,
        }
    }

    open spec fn rejects(value: Value, error: Error) -> bool {
        scalar_rejects("u8", value, error)
    }

    fn from_gluesql(value: Value) -> (r: Result<Self, Error>) {
        match value {
            Value::U8(x) => Ok(x),
            _ => Err(Error::InvalidConversion("u8", value)),
        }
    }
}

impl FromGlueSql for u16 {
    type Model = u16;

    open spec fn model(&self) -> u16 {
        *self
    }

    open spec fn decode(value: Value) -> Option<u16> {
        match value {
            Value::U16(x) => Some(x),
            _ => None,
        }
    }

    open spec fn rejects(value: Value, error: Error) -> bool {
        scalar_rejects("u16", value, error)
    }

    fn from_gluesql(value: Value) -> (r: Result<Self, Error>) {
        match value {
            Value::U16(x) => Ok(x),
            _ => Err(Error::InvalidConversion("u16", value)),
        }
    }
}

impl FromGlueSql for u32 {
    type Model = u32;

    open spec fn model(&self) -> u32 {
        *self
    }

    open spec fn decode(value: Value) -> Option<u32> {
        match value {
            Value::U32(x) => Some(x),
            _ => None,
        }
    }

    open spec fn rejects(value: Value, error: Error) -> bool {
        scalar_rejects("u32", value, error)
    }

    fn from_gluesql(value: Value) -> (r: Result<Self, Error>) {
        match value {
            Value::U32(x) => Ok(x),
            _ => Err(Error::InvalidConversion("u32", value)),
        }
    }
}

impl FromGlueSql for u64 {
    type Model = u64;

    open spec fn model(&self) -> u64 {
        *self
    }

    open spec fn decode(value: Value) -> Option<u64> {
        match value {
            Value::U64(x) => Some(x),
            _ => None,
        }
    }

    open spec fn rejects(value: Value, error: Error) -> bool {
        scalar_rejects("u64", value, error)
    }

    fn from_gluesql(value: Value) -> (r: Result<Self, Error>) {
        match value {
            Value::U64(x) => Ok(x),
            _ => Err(Error::InvalidConversion("u64", value)),
        }
    }
}

impl FromGlueSql for u128 {
    type Model = u128;

    open spec fn model(&self) -> u128 {
        *self
    }

    open spec fn decode(value: Value) -> Option<u128> {
        match value {
            Value::U128(x) => Some(x),
            _ => None,
        }
    }

    open spec fn rejects(value: Value, error: Error) -> bool {
        scalar_rejects("u128", value, error)
    }

    fn from_gluesql(value: Value) -> (r: Result<Self, Error>) {
        match value {
            Value::U128(x) => Ok(x),
            _ => Err(Error::InvalidConversion("u128", value)),
        }
    }
}

impl FromGlueSql for bool {
    type Model = bool;

    open spec fn model(&self) -> bool {
        *self
    }

    open spec fn decode(value: Value) -> Option<bool> {
        match value {
            Value::Bool(x) => Some(x),
            _ => None,
        }
    }

    open spec fn rejects(value: Value, error: Error) -> bool {
        scalar_rejects("bool", value, error)
    }

    fn from_gluesql(value: Value) -> (r: Result<Self, Error>) {
        match value {
            Value::Bool(x) => Ok(x),
            _ => Err(Error::InvalidConversion("bool", value)),
        }
    }
}

impl FromGlueSql for String {
    type Model = Seq<char>;

    open spec fn model(&self) -> Seq<char> {
        self@
    }

    open spec fn decode(value: Value) -> Option<Seq<char>> {
        match value {
            Value::Str(s) => Some(s@),
            _ => None,
        }
    }

    open spec fn rejects(value: Value, error: Error) -> bool {
        scalar_rejects("String", value, error)
    }

    fn from_gluesql(value: Value) -> (r: Result<Self, Error>) {
        match value {
            Value::Str(s) => Ok(s),
            _ => Err(Error::InvalidConversion("String", value)),
        }
    }
}

/// The null value is the absent host value; any other value is read as `T`.
impl<T: FromGlueSql> FromGlueSql for Option<T> {
    type Model = Option<T::Model>;

    open spec fn model(&self) -> Option<T::Model> {
        match self {
            Some(x) => Some(x.model()),
            None => None,
        }
    }

    open spec fn decode(value: Value) -> Option<Option<T::Model>> {
        match value {
            Value::Null => Some(None),
            _ => match T::decode(value) {
                Some(m) => Some(Some(m)),
                None => None,
            },
        }
    }

    open spec fn rejects(value: Value, error: Error) -> bool {
        T::rejects(value, error)
    }

    fn from_gluesql(value: Value) -> (r: Result<Self, Error>) {
        match value {
            Value::Null => Ok(None),
            _ => match T::from_gluesql(value) {
                Ok(x) => Ok(Some(x)),
                Err(e) => Err(e),
            },
        }
    }
}

impl FromGlueSql for bytes::Bytes {
    type Model = Seq<u8>;

    open spec fn model(&self) -> Seq<u8> {
        bytes_contents(*self)
    }

    open spec fn decode(value: Value) -> Option<Seq<u8>> {
        match value {
            Value::Bytea(b) => Some(b@),
            _ => None,
        }
    }

    open spec fn rejects(value: Value, error: Error) -> bool {
        scalar_rejects("Vec<u8>", value, error)
    }

    fn from_gluesql(value: Value) -> (r: Result<Self, Error>) {
        match value {
            Value::Bytea(b) => Ok(bytes_from_vec(b)),
            _ => Err(Error::InvalidConversion("Vec<u8>", value)),
        }
    }
}

impl FromGlueSql for rust_decimal::Decimal {
    type Model = rust_decimal::Decimal;

    open spec fn model(&self) -> rust_decimal::Decimal {
        *self
    }

    open spec fn decode(value: Value) -> Option<rust_decimal::Decimal> {
        match value {
            Value::Decimal(d) => Some(d),
            _ => None,
        }
    }

    open spec fn rejects(value: Value, error: Error) -> bool {
        scalar_rejects("Decimal", value, error)
    }

    fn from_gluesql(value: Value) -> (r: Result<Self, Error>) {
        match value {
            Value::Decimal(d) => Ok(d),
            _ => Err(Error::InvalidConversion("Decimal", value)),
        }
    }
}

/// A date is read from a date value, or from a text that parses as a date.
impl FromGlueSql for chrono::NaiveDate {
    type Model = chrono::NaiveDate;

    open spec fn model(&self) -> chrono::NaiveDate {
        *self
    }

    open spec fn decode(value: Value) -> Option<chrono::NaiveDate> {
        match value {
            Value::Str(s) => naive_date_parsed(s@),
            Value::Date(d) => Some(d),
            _ => None,
        }
    }

    open spec fn rejects(value: Value, error: Error) -> bool {
        scalar_rejects("NaiveDate", value, error)
    }

    fn from_gluesql(value: Value) -> (r: Result<Self, Error>) {
        match value {
            Value::Str(s) => match parse_naive_date(s.as_str()) {
                Some(d) => Ok(d),
                None => Err(Error::InvalidConversion("NaiveDate", Value::Str(s))),
            },
            Value::Date(d) => Ok(d),
            _ => Err(Error::InvalidConversion("NaiveDate", value)),
        }
    }
}

/// A date and time is read from a timestamp value, or from a count of
/// microseconds since the Unix epoch that the calendar reaches.
impl FromGlueSql for chrono::NaiveDateTime {
    type Model = chrono::NaiveDateTime;

    open spec fn model(&self) -> chrono::NaiveDateTime {
        *self
    }

    open spec fn decode(value: Value) -> Option<chrono::NaiveDateTime> {
        match value {
            Value::I64(i) => utc_micros(i),
            Value::Timestamp(d) => Some(d),
            _ => None,
        }
    }

    open spec fn rejects(value: Value, error: Error) -> bool {
        scalar_rejects("NaiveDateTime", value, error)
    }

    fn from_gluesql(value: Value) -> (r: Result<Self, Error>) {
        match value {
            Value::I64(i) => match utc_timestamp_micros(i) {
                Some(d) => Ok(d),
                None => Err(Error::InvalidConversion("NaiveDateTime", value)),
            },
            Value::Timestamp(d) => Ok(d),
            _ => Err(Error::InvalidConversion("NaiveDateTime", value)),
        }
    }
}

/// An instant, held as the date and time that UTC shows at it.
#[derive(Debug, Clone, Copy, PartialEq, Eq)]
pub struct UtcDateTime(pub chrono::NaiveDateTime);

/// An instant is read from a timestamp value, taken as UTC, or from a count
/// of microseconds since the Unix epoch that the calendar reaches.
impl FromGlueSql for UtcDateTime {
    type Model = chrono::NaiveDateTime;

    open spec fn model(&self) -> chrono::NaiveDateTime {
        self.0
    }

    open spec fn decode(value: Value) -> Option<chrono::NaiveDateTime> {
        match value {
            Value::I64(i) => utc_micros(i),
            Value::Timestamp(d) => Some(d),
            _ => None,
        }
    }

    open spec fn rejects(value: Value, error: Error) -> bool {
        scalar_rejects("DateTime<Utc>", value, error)
    }

    fn from_gluesql(value: Value) -> (r: Result<Self, Error>) {
        match value {
            Value::I64(i) => match utc_timestamp_micros(i) {
                Some(d) => Ok(UtcDateTime(d)),
                None => Err(Error::InvalidConversion("DateTime<Utc>", value)),
            },
            Value::Timestamp(d) => Ok(UtcDateTime(d)),
            _ => Err(Error::InvalidConversion("DateTime<Utc>", value)),
        }
    }
}

/// A time span is read from an interval of microseconds, or from a count of
/// microseconds.
impl FromGlueSql for chrono::TimeDelta {
    type Model = chrono::TimeDelta;

    open spec fn model(&self) -> chrono::TimeDelta {
        *self
    }

    open spec fn decode(value: Value) -> Option<chrono::TimeDelta> {
        match value {
            Value::I64(m) => Some(micros_delta(m)),
            Value::Interval(Interval::Microsecond(m)) => Some(micros_delta(m)),
            _ => None,
        }
    }

    open spec fn rejects(value: Value, error: Error) -> bool {
        scalar_rejects("chrono::Duration", value, error)
    }

    fn from_gluesql(value: Value) -> (r: Result<Self, Error>) {
        match value {
            Value::I64(m) => Ok(time_delta_microseconds(m)),
            Value::Interval(Interval::Microsecond(m)) => Ok(time_delta_microseconds(m)),
            _ => Err(Error::InvalidConversion("chrono::Duration", value)),
        }
    }
}

/// The count of microseconds as an unsigned number: a negative count wraps
/// around, as a cast does.
pub open spec fn unsigned_micros(m: i64) -> u64 {
    m as u64
}

/// An unsigned time span is read from an interval of microseconds, or from
/// a count of microseconds; a negative count wraps around.
impl FromGlueSql for std::time::Duration {
    type Model = std::time::Duration;

    open spec fn model(&self) -> std::time::Duration {
        *self
    }

    open spec fn decode(value: Value) -> Option<std::time::Duration> {
        match value {
            Value::I64(m) => Some(std_micros_duration(unsigned_micros(m))),
            Value::Interval(Interval::Microsecond(m)) => Some(
                std_micros_duration(unsigned_micros(m)),
            ),
            _ => None,
        }
    }

    open spec fn rejects(value: Value, error: Error) -> bool {
        scalar_rejects("std::time::Duration", value, error)
    }

    fn from_gluesql(value: Value) -> (r: Result<Self, Error>) {
        match value {
            Value::I64(m) => Ok(std_duration_from_micros(
                #[verifier::truncate]
                (m as u64),
            )),
            Value::Interval(Interval::Microsecond(m)) => Ok(
                std_duration_from_micros(
                    #[verifier::truncate]
                    (m as u64),
                ),
            ),
            _ => Err(Error::InvalidConversion("std::time::Duration", value)),
        }
    }
}

impl FromGlueSql for uuid::Uuid {
    type Model = uuid::Uuid;

    open spec fn model(&self) -> uuid::Uuid {
        *self
    }

    open spec fn decode(value: Value) -> Option<uuid::Uuid> {
        match value {
            Value::Uuid(u) => Some(uuid_of(u)),
            _ => None,
        }
    }

    open spec fn rejects(value: Value, error: Error) -> bool {
        scalar_rejects("Uuid", value, error)
    }

    fn from_gluesql(value: Value) -> (r: Result<Self, Error>) {
        match value {
            Value::Uuid(u) => Ok(uuid_from_number(u)),
            _ => Err(Error::InvalidConversion("Uuid", value)),
        }
    }
}

impl FromGlueSql for Inet {
    type Model = Inet;

    open spec fn model(&self) -> Inet {
        *self
    }

    open spec fn decode(value: Value) -> Option<Inet> {
        match value {
            Value::Inet(a) => Some(a),
            _ => None,
        }
    }

    open spec fn rejects(value: Value, error: Error) -> bool {
        scalar_rejects("IpAddr", value, error)
    }

    fn from_gluesql(value: Value) -> (r: Result<Self, Error>) {
        match value {
            Value::Inet(a) => Ok(a),
            _ => Err(Error::InvalidConversion("IpAddr", value)),
        }
    }
}

/// `T` reads every value of `list`.
pub open spec fn all_decode<T: FromGlueSql>(list: Seq<Value>) -> bool {
    forall|i: int| 0 <= i < list.len() ==> T::decode(#[trigger] list[i]).is_some()
}

/// What `T` reads in the values of `list`, one by one.
pub open spec fn decoded<T: FromGlueSql>(list: Seq<Value>) -> Seq<T::Model> {
    Seq::new(list.len(), |i: int| T::decode(list[i]).unwrap())
}

/// The value at `k` is the first of `list` that `T` does not read.
pub open spec fn first_refused<T: FromGlueSql>(list: Seq<Value>, k: int) -> bool {
    &&& 0 <= k < list.len()
    &&& T::decode(list[k]).is_none()
    &&& forall|j: int| 0 <= j < k ==> T::decode(#[trigger] list[j]).is_some()
}

/// A list is read element by element; the first element that `T` does not
/// read fails the whole list with its own failure.
impl<T: FromGlueSql> FromGlueSql for Vec<T> {
    type Model = Seq<T::Model>;

    open spec fn model(&self) -> Seq<T::Model> {
        Seq::new(self@.len(), |i: int| self@[i].model())
    }

    open spec fn decode(value: Value) -> Option<Seq<T::Model>> {
        match value {
            Value::List(list) => if all_decode::<T>(list@) {
                Some(decoded::<T>(list@))
            } else {
                None
            },
            _ => None,
        }
    }

    open spec fn rejects(value: Value, error: Error) -> bool {
        match value {
            Value::List(list) => exists|k: int|
                first_refused::<T>(list@, k) && T::rejects(list@[k], error),
            _ => scalar_rejects("Vec<T>", value, error),
        }
    }

    #[verifier::loop_isolation(false)]
    fn from_gluesql(value: Value) -> (r: Result<Self, Error>) {
        match value {
            Value::List(list) => {
                let mut result: Vec<T> = Vec::new();
                for v in it: list
                    invariant
                        it.seq() == list@,
                        result@.len() == it.index(),
                        forall|j: int|
                            0 <= j < it.index() ==> T::decode(#[trigger] list@[j]) == Some(
                                result@[j].model(),
                            ),
                {
                    assert(v == list@[it.index() as int]);
                    match T::from_gluesql(v) {
                        Ok(x) => result.push(x),
                        Err(e) => {
                            assert(first_refused::<T>(list@, it.index() as int));
                            assert(T::rejects(list@[it.index() as int], e));
                            return Err(e);
                        },
                    }
                }
                assert(result.model() =~= decoded::<T>(list@));
                Ok(result)
            },
            _ => Err(Error::InvalidConversion("Vec<T>", value)),
        }
    }
}

/// `T` reads the value of every entry of `entries`.
pub open spec fn all_entries_decode<T: FromGlueSql>(entries: Seq<(String, Value)>) -> bool {
    forall|i: int| 0 <= i < entries.len() ==> T::decode((#[trigger] entries[i]).1).is_some()
}

/// The map of what `T` reads in the values of `entries`, each under its
/// key; a later entry replaces an earlier one with the same key.
pub open spec fn decoded_map<T: FromGlueSql>(entries: Seq<(String, Value)>) -> Map<
    Seq<char>,
    T::Model,
>
    decreases entries.len(),
{
    if entries.len() == 0 {
        Map::empty()
    } else {
        decoded_map::<T>(entries.drop_last()).insert(
            entries.last().0@,
            T::decode(entries.last().1).unwrap(),
        )
    }
}

/// The entry at `k` is the first of `entries` whose value `T` does not read.
pub open spec fn first_entry_refused<T: FromGlueSql>(entries: Seq<(String, Value)>, k: int) -> bool {
    &&& 0 <= k < entries.len()
    &&& T::decode(entries[k].1).is_none()
    &&& forall|j: int| 0 <= j < k ==> T::decode((#[trigger] entries[j]).1).is_some()
}

/// A map is read entry by entry, in the order in which the map value holds
/// them; the first value that `T` does not read fails the whole map with
/// its own failure.
impl<T: FromGlueSql> FromGlueSql for TextMap<T> {
    type Model = Map<Seq<char>, T::Model>;

    open spec fn model(&self) -> Map<Seq<char>, T::Model> {
        self@.map_values(|v: T| v.model())
    }

    open spec fn decode(value: Value) -> Option<Map<Seq<char>, T::Model>> {
        match value {
            Value::Mapping(entries) => if all_entries_decode::<T>(entries@) {
                Some(decoded_map::<T>(entries@))
            } else {
                None
            },
            _ => None,
        }
    }

    open spec fn rejects(value: Value, error: Error) -> bool {
        match value {
            Value::Mapping(entries) => exists|k: int|
                first_entry_refused::<T>(entries@, k) && T::rejects(entries@[k].1, error),
            _ => scalar_rejects("HashMap<String, T>", value, error),
        }
    }

    #[verifier::loop_isolation(false)]
    fn from_gluesql(value: Value) -> (r: Result<Self, Error>) {
        match value {
            Value::Mapping(entries) => {
                let mut result: TextMap<T> = TextMap::new();
                assert(result.model() =~= decoded_map::<T>(entries@.take(0)));
                for entry in it: entries
                    invariant
                        it.seq() == entries@,
                        result.wf(),
                        result.model() == decoded_map::<T>(entries@.take(it.index() as int)),
                        forall|j: int|
                            0 <= j < it.index() ==> T::decode((#[trigger] entries@[j]).1).is_some(),
                {
                    assert(entry == entries@[it.index() as int]);
                    let ghost before = result@;
                    let (key, v) = entry;
                    match T::from_gluesql(v) {
                        Ok(x) => {
                            result.insert(key, x);
                            proof {
                                let next = entries@.take(it.index() + 1);
                                assert(next.drop_last() =~= entries@.take(it.index() as int));
                                assert(result.model() =~= before.map_values(
                                    |v: T| v.model(),
                                ).insert(key@, x.model()));
                            }
                        },
                        Err(e) => {
                            assert(first_entry_refused::<T>(entries@, it.index() as int));
                            assert(T::rejects(entries@[it.index() as int].1, e));
                            return Err(e);
                        },
                    }
                }
                assert(entries@.take(entries@.len() as int) =~= entries@);
                Ok(result)
            },
            _ => Err(Error::InvalidConversion("HashMap<String, T>", value)),
        }
    }
}

} // verus!
