//! The tagged values that a row holds.

use vstd::prelude::*;

verus! {

/// A span of time as the engine stores it.
#[derive(Debug, Clone, Copy, PartialEq, Eq, Structural)]
pub enum Interval {
    /// A count of months.
    Month(i32),
    /// A count of microseconds.
    Microsecond(i64),
}

/// A network address: its octets read as one big-endian number.
#[derive(Debug, Clone, Copy, PartialEq, Eq, Structural)]
pub enum Inet {
    /// The four octets of an IPv4 address.
    V4(u32),
    /// The sixteen octets of an IPv6 address.
    V6(u128),
}

/// One value of a row, tagged with its kind.
#[derive(Debug, PartialEq)]
pub enum Value {
    Bool(bool),
    I8(i8),
    I16(i16),
    I32(i32),
    I64(i64),
    I128(i128),
    U8(u8),
    U16(u16),
    U32(u32),
    U64(u64),
    U128(u128),
    /// A single-precision number, as its IEEE 754 bit pattern.
    F32(u32),
    /// A double-precision number, as its IEEE 754 bit pattern.
    F64(u64),
    Decimal(rust_decimal::Decimal),
    Str(String),
    Bytea(Vec<u8>),
    Inet(Inet),
    Date(chrono::NaiveDate),
    Timestamp(chrono::NaiveDateTime),
    Time(chrono::NaiveTime),
    Interval(Interval),
    /// An identifier, as the number that its sixteen bytes spell.
    Uuid(u128),
    /// A map from text keys to values, as its entries in the order in which
    /// the engine walks them: ascending by key.
    Mapping(Vec<(String, Value)>),
    List(Vec<Value>),
    /// A point of the plane, as the bit patterns of its two coordinates.
    Point(u64, u64),
    Null,
}

/// The values of one row, handed out front to back, one at a time.
pub struct RowCursor {
    // What is left, last value first, so that the next one is popped.
    pending: Vec<Value>,
}

impl View for RowCursor {
    type V = Seq<Value>;

    /// The values not yet handed out, next one first.
    closed spec fn view(&self) -> Seq<Value> {
        Seq::new(self.pending@.len(), |i: int| self.pending@[self.pending@.len() - 1 - i])
    }
}

impl RowCursor {
    /// A cursor before the first value of `row`.
    pub fn new(row: Vec<Value>) -> (cursor: RowCursor)
        ensures
            cursor@ == row@,
    {
        let mut row = row;
        let ghost all = row@;
        let mut pending: Vec<Value> = Vec::new();
        while row.len() > 0
            invariant
                row@.len() + pending@.len() == all.len(),
                forall|i: int| 0 <= i < row@.len() ==> row@[i] == all[i],
                forall|i: int|
                    0 <= i < pending@.len() ==> pending@[i] == all[all.len() - 1 - i],
            decreases row@.len(),
        {
            let value = row.pop();
            match value {
                Some(v) => pending.push(v),
                None => {},
            }
        }
        let cursor = RowCursor { pending };
        assert(cursor@ =~= all);
        cursor
    }

    /// Hands out the next value, if one is left.
    pub fn next(&mut self) -> (value: Option<Value>)
        ensures
            match value {
                Some(v) => {
                    &&& old(self)@.len() > 0
                    &&& v == old(self)@[0]
                    &&& final(self)@ == old(self)@.skip(1)
                },
                None => old(self)@.len() == 0 && final(self)@ == old(self)@,
            },
    {
        let value = self.pending.pop();
        assert(value.is_some() ==> self@ =~= old(self)@.skip(1));
        assert(value.is_none() ==> self@ =~= old(self)@);
        value
    }
}

} // verus!
