//! Typed marshalling between application records and rows of tagged values.
//!
//! A record type is described once by a [`DeriveGluesqlRow`]: its fields in
//! declared order, each with its directives. Validation and the three row
//! contracts are derived from that description:
//!
//! - [`FromRowContract`] extracts the fields of a record from a labelled row,
//! - [`ToRowContract`] writes the fields of a record as a row of expressions,
//! - [`ReflectRowContract`] names the columns and writes the statement that
//!   creates the table.
//!
//! Scalar conversions are supplied per host type through [`FromGlueSql`],
//! [`ToGlueSql`] and [`ReflectGlueSql`]. What holds between the three
//! contracts of one record type is proved in [`laws`]; the calls into other
//! crates, whose contracts are taken on trust, stand in [`trusted`].

use vstd::prelude::*;
use gluesql_core::query_builder::ExprNode;

pub use gluesql_core;

pub mod value;
pub mod field;
pub mod from_gluesql;
pub mod from_row;
pub mod laws;
pub mod reflect_gluesql;
pub mod text_map;
pub mod reflect_row;
pub mod to_gluesql;
pub mod to_row;
pub mod trusted;

pub use crate::field::{
    resolve_target, ConfigError, Conversion, DeriveError, DeriveGluesqlRow, GluesqlField, ParseError,
    Requirement,
};
pub use crate::from_gluesql::{FromGlueSql, UtcDateTime};
pub use crate::from_row::{try_derive_from_row, FieldExtraction, FromRowContract};
pub use crate::reflect_gluesql::ReflectGlueSql;
pub use crate::reflect_row::{try_derive_reflect_row, ReflectRowContract};
pub use crate::to_gluesql::{ExprModel, ToGlueSql};
pub use crate::to_row::{try_derive_to_row, FieldProjection, ToRowContract};
pub use crate::text_map::TextMap;
pub use crate::value::{Inet, Interval, RowCursor, Value};

verus! {

/// A failure to marshal one row.
#[derive(Debug, PartialEq)]
pub enum Error {
    /// The tagged value does not hold what the named host type expects.
    InvalidConversion(&'static str, Value),
    /// The row ran out of values before the column at this index.
    InvalidExtract(usize, String),
    /// The label at this index is not the expected column; the last field is
    /// the label found there, empty when the labels end before the index.
    InvalidFieldName(usize, String, String),
}

/// An [`Error`] with its texts as sequences of characters.
pub enum ErrorView {
    InvalidConversion(Seq<char>, Value),
    InvalidExtract(usize, Seq<char>),
    InvalidFieldName(usize, Seq<char>, Seq<char>),
}

impl View for Error {
    type V = ErrorView;

    open spec fn view(&self) -> ErrorView {
        match self {
            Error::InvalidConversion(name, value) => ErrorView::InvalidConversion(name@, *value),
            Error::InvalidExtract(index, column) => ErrorView::InvalidExtract(*index, column@),
            Error::InvalidFieldName(index, column, label) => ErrorView::InvalidFieldName(
                *index,
                column@,
                label@,
            ),
        }
    }
}

/// A record type that has a table: its columns and the statement that
/// creates the table. [`ReflectRowContract`] does the work of an
/// implementation.
pub trait ReflectGlueSqlRow {
    /// The statement that creates `table` for this record type.
    fn get_ddl(table: &str) -> String;

    /// The column names, in declared order.
    fn columns() -> Vec<&'static str>;
}

/// A record type that can be extracted from a labelled row.
/// [`FromRowContract`] does the work of an implementation.
pub trait FromGlueSqlRow: Sized {
    /// Extracts one record from a row.
    fn from_gluesql_row(labels: &[String], row: Vec<Value>) -> Result<Self, Error>;

    /// Extracts one record from each row, as `from_gluesql_row` does. The
    /// first row that fails ends the extraction with its failure, and the
    /// records of the rows before it are dropped.
    fn from_gluesql_rows(labels: &[String], rows: Vec<Vec<Value>>) -> (r: Result<Vec<Self>, Error>)
        ensures
            match r {
                Ok(records) => {
                    &&& records@.len() == rows@.len()
                    &&& forall|i: int|
                        0 <= i < rows@.len() ==> call_ensures(
                            Self::from_gluesql_row,
                            (labels, #[trigger] rows@[i]),
                            Ok::<Self, Error>(records@[i]),
                        )
                },
                Err(e) => exists|k: int|
                    {
                        &&& 0 <= k < rows@.len()
                        &&& forall|j: int|
                            #![trigger rows@[j]]
                            0 <= j < k ==> exists|record: Self| #[trigger]
                                call_ensures(
                                    Self::from_gluesql_row,
                                    (labels, rows@[j]),
                                    Ok::<Self, Error>(record),
                                )
                        &&& call_ensures(
                            Self::from_gluesql_row,
                            (labels, #[trigger] rows@[k]),
                            Err::<Self, Error>(e),
                        )
                    },
            },
    {
        let mut records: Vec<Self> = Vec::new();
        for row in it: rows
            invariant
                it.seq() == rows@,
                records@.len() == it.index(),
                forall|j: int|
                    0 <= j < it.index() ==> call_ensures(
                        Self::from_gluesql_row,
                        (labels, #[trigger] rows@[j]),
                        Ok::<Self, Error>(records@[j]),
                    ),
        {
            assert(row == rows@[it.index() as int]);
            let extract = Self::from_gluesql_row;
            match extract(labels, row) {
                Ok(record) => records.push(record),
                Err(e) => {
                    assert forall|j: int|
                        #![trigger rows@[j]]
                        0 <= j < it.index() implies exists|record: Self| #[trigger]
                        call_ensures(
                            Self::from_gluesql_row,
                            (labels, rows@[j]),
                            Ok::<Self, Error>(record),
                        ) by {
                        assert(call_ensures(
                            Self::from_gluesql_row,
                            (labels, rows@[j]),
                            Ok::<Self, Error>(records@[j]),
                        ));
                    }
                    assert(call_ensures(
                        Self::from_gluesql_row,
                        (labels, rows@[it.index() as int]),
                        Err::<Self, Error>(e),
                    ));
                    return Err(e);
                },
            }
        }
        Ok(records)
    }
}

/// A record that can be written as a row of expressions.
/// [`ToRowContract`] does the work of an implementation.
pub trait ToGlueSqlRow {
    /// Writes the record as a row of expressions, one for each field, in
    /// declared order.
    fn to_gluesql_row(&self) -> Vec<ExprNode<'static>>;
}

} // verus!
