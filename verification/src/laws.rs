//! What holds between the contracts of one record type.

use vstd::prelude::*;
use gluesql_core::query_builder::ExprNode;
use crate::field::{
    derive_refused, no_conversion, no_flatten, ConfigError, DeriveError, DeriveGluesqlRow,
    GluesqlField,
};
use crate::from_gluesql::FromGlueSql;
use crate::from_row::{derived_from_row, field_passes, row_extracted, FromRowContract};
use crate::reflect_gluesql::{with_nullability, ReflectGlueSql};
use crate::reflect_row::{ddl_clauses, derived_reflect_row, ReflectRowContract};
use crate::to_gluesql::{ExprModel, ToGlueSql};
use crate::to_row::row_projected;
use crate::trusted::expr_model;
use crate::value::Value;
use crate::Error;

verus! {

/// The tagged values that an engine makes of the expressions of `row`, where
/// `eval` is what it makes of one expression.
pub open spec fn evaluated(row: Seq<ExprNode<'static>>, eval: spec_fn(ExprModel) -> Value) -> Seq<
    Value,
> {
    Seq::new(row.len(), |i: int| eval(expr_model(row[i])))
}

/// Round trip. Take a record type without flattened and without converted
/// fields, and a record of it whose fields all have the host type `T`. Write
/// the record as a row of expressions, let an engine turn each expression
/// into a tagged value, and extract a record from these values under the
/// record type's own columns. If the engine turns whatever a field is
/// written as into a value that `T` reads as that field, the extraction
/// succeeds, and its record equals the written one field by field.
pub proof fn lemma_round_trip<T: FromGlueSql + ToGlueSql>(
    input: DeriveGluesqlRow,
    extract: FromRowContract,
    reflect: ReflectRowContract,
    record: Seq<T>,
    row: Seq<ExprNode<'static>>,
    eval: spec_fn(ExprModel) -> Value,
    r: Result<Vec<T>, Error>,
)
    requires
        no_flatten(input.fields@),
        no_conversion(input.fields@),
        derived_from_row(input, extract),
        derived_reflect_row(input, reflect),
        record.len() == input.fields@.len(),
        row_projected(record, row),
        forall|i: int, e: ExprModel|
            0 <= i < record.len() && (#[trigger] record[i]).projects(e) ==> T::decode(
                #[trigger] eval(e),
            ) == Some(record[i].model()),
        row_extracted::<T>(extract@.fields, reflect@.columns, evaluated(row, eval), r),
    ensures
        r matches Ok(read) && read@.len() == record.len() && forall|i: int|
            0 <= i < record.len() ==> (#[trigger] read@[i]).model() == record[i].model(),
{
    let values = evaluated(row, eval);
    assert forall|i: int| 0 <= i < record.len() implies #[trigger] field_passes::<T>(
        extract@.fields,
        reflect@.columns,
        values,
        i,
    ) && T::decode(values[i]) == Some(record[i].model()) by {
        assert(extract@.fields[i].index == i);
        assert(extract@.fields[i].column_name == input.fields@[i].column());
        assert(reflect@.columns[i] == input.fields@[i].column());
        assert(record[i].projects(expr_model(row[i])));
        assert(values[i] == eval(expr_model(row[i])));
    }
    match r {
        Ok(read) => {
            assert forall|i: int| 0 <= i < record.len() implies (#[trigger] read@[i]).model()
                == record[i].model() by {
                assert(field_passes::<T>(extract@.fields, reflect@.columns, values, i));
            }
        },
        Err(_) => {},
    }
}

/// The labels that the extract contract of a record type expects are the
/// columns of its reflect contract, in the same order.
pub proof fn lemma_expected_labels_are_columns(
    input: DeriveGluesqlRow,
    extract: FromRowContract,
    reflect: ReflectRowContract,
)
    requires
        derived_from_row(input, extract),
        derived_reflect_row(input, reflect),
    ensures
        extract.columns() == reflect@.columns,
{
    assert(extract.columns() =~= reflect@.columns);
}

/// The columns of a record type are the names of its fields, one for each
/// field and in declared order: the `rename` directive of a field that has
/// one, the identifier of any other.
pub proof fn lemma_columns_in_declared_order(input: DeriveGluesqlRow, reflect: ReflectRowContract)
    requires
        derived_reflect_row(input, reflect),
    ensures
        reflect@.columns.len() == input.fields@.len(),
        forall|i: int|
            0 <= i < input.fields@.len() ==> #[trigger] reflect@.columns[i]
                == match input.fields@[i].rename {
                Some(name) => name,
                None => input.fields@[i].ident,
            },
{
}

/// Each column clause of a table ends in ` NULL`: in ` NOT NULL` where the
/// host type of the column does not admit null, and in the schema type and
/// ` NULL` where it does, as every optional host type does.
pub proof fn lemma_clause_ending<T: ReflectGlueSql>(
    columns: Seq<Seq<char>>,
    column_types: Seq<Seq<char>>,
    i: int,
)
    requires
        0 <= i < columns.len(),
        column_types[i] == with_nullability(T::schema_type()@, T::nullable()),
    ensures
        ddl_clauses(columns, column_types).len() == columns.len(),
        " NULL"@.is_suffix_of(ddl_clauses(columns, column_types)[i]),
        !T::nullable() ==> " NOT NULL"@.is_suffix_of(ddl_clauses(columns, column_types)[i]),
        T::nullable() ==> ddl_clauses(columns, column_types)[i] == columns[i] + " "@
            + T::schema_type()@ + " NULL"@,
        <Option<T> as ReflectGlueSql>::nullable(),
{
    reveal_strlit(" NULL");
    reveal_strlit(" NOT NULL");
    let clause = ddl_clauses(columns, column_types)[i];
    assert(clause.skip(clause.len() - " NULL"@.len()) =~= " NULL"@);
    if T::nullable() {
        assert(clause =~= columns[i] + " "@ + T::schema_type()@ + " NULL"@);
    } else {
        assert(clause.skip(clause.len() - " NOT NULL"@.len()) =~= " NOT NULL"@);
    }
}

/// A field that names both a `from` and a `try_from` conversion is refused,
/// and no contract is generated for a record type that has such a field:
/// whatever generation answers for it is a configuration error.
pub proof fn lemma_conflicting_conversions_refused(input: DeriveGluesqlRow, k: int)
    requires
        0 <= k < input.fields@.len(),
        input.fields@[k].from.is_some(),
        input.fields@[k].try_from.is_some(),
    ensures
        input.fields@[k].validation() == Err::<(), ConfigError>(
            ConfigError::ConflictingConversions,
        ),
        !input.valid(),
        forall|e: DeriveError| #[trigger]
            derive_refused(input.fields@, e) ==> e is Config,
{
    assert(!input.fields@[k].valid());
}

/// A field that is flattened and renamed is refused, and no contract is
/// generated for a record type that has such a field: whatever generation
/// answers for it is a configuration error.
pub proof fn lemma_renamed_flatten_refused(input: DeriveGluesqlRow, k: int)
    requires
        0 <= k < input.fields@.len(),
        input.fields@[k].flatten,
        input.fields@[k].rename.is_some(),
    ensures
        input.fields@[k].validation().is_err(),
        !input.fields@[k].converted() ==> input.fields@[k].validation() == Err::<(), ConfigError>(
            ConfigError::RenamedFlatten,
        ),
        !input.valid(),
        forall|e: DeriveError| #[trigger]
            derive_refused(input.fields@, e) ==> e is Config,
{
    assert(!input.fields@[k].valid());
}

} // verus!
