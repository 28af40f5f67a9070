//! The extract contract of a record type: from a labelled row of tagged
//! values to the values of the record's fields.

use vstd::prelude::*;
use vstd::std_specs::convert::{FromSpec, TryFromSpec};
use crate::field::{
    all_requirements, derive_refused, indexed_from, lemma_requirements_ignore_index,
    lemma_requirements_step, no_conversion, no_flatten, Conversion, DeriveError, DeriveGluesqlRow,
    Direction, GluesqlField, ParseError, Requirement,
};
use crate::from_gluesql::FromGlueSql;
use crate::value::{RowCursor, Value};
use crate::{Error, ErrorView};

verus! {

/// The procedure that pulls one field's value out of a row.
#[derive(Debug, PartialEq, Eq)]
pub struct FieldExtraction {
    /// The identifier of the field.
    pub ident: String,
    /// The position at which the field's label is expected.
    pub index: usize,
    /// The label that is expected there.
    pub column_name: String,
    /// The declared type of the field.
    pub ty: String,
    /// The type that is extracted from the tagged value.
    pub target_ty: String,
    /// How the extracted value reaches the declared type.
    pub conversion: Conversion,
}

/// The label at `index` is `column`.
pub open spec fn label_matches(labels: Seq<String>, index: int, column: Seq<char>) -> bool {
    0 <= index < labels.len() && labels[index]@ == column
}

/// The label at `index`, empty where the labels end before it.
pub open spec fn label_at(labels: Seq<String>, index: int) -> Seq<char> {
    if 0 <= index < labels.len() {
        labels[index]@
    } else {
        Seq::empty()
    }
}

/// `error` is the failure of the check of the label of `field`.
pub open spec fn label_failure(field: FieldExtraction, labels: Seq<String>, error: Error) -> bool {
    error@ == ErrorView::InvalidFieldName(
        field.index,
        field.column_name@,
        label_at(labels, field.index as int),
    )
}

/// `r` is what the extraction of `field` answers when `values` are left in the row.
pub open spec fn extracted<T: FromGlueSql>(
    field: FieldExtraction,
    labels: Seq<String>,
    values: Seq<Value>,
    r: Result<T, Error>,
) -> bool {
    if !label_matches(labels, field.index as int, field.column_name@) {
        r matches Err(e) && label_failure(field, labels, e)
    } else if values.len() == 0 {
        r matches Err(e) && e@ == ErrorView::InvalidExtract(field.index, field.column_name@)
    } else {
        match r {
            Ok(x) => T::decode(values[0]) == Some(x.model()),
            Err(e) => T::decode(values[0]).is_none() && T::rejects(values[0], e),
        }
    }
}

/// What the extraction of `field` leaves of `values`: it takes the first one
/// where the label is the expected one.
pub open spec fn rest_after(field: FieldExtraction, labels: Seq<String>, values: Seq<Value>) -> Seq<
    Value,
> {
    if label_matches(labels, field.index as int, field.column_name@) && values.len() > 0 {
        values.skip(1)
    } else {
        values
    }
}

/// `d` is what `x` converts into, as far as the conversion tells what it does.
pub open spec fn converts_from<R, D: From<R>>(x: R, d: D) -> bool {
    <D as FromSpec<R>>::obeys_from_spec() ==> d == <D as FromSpec<R>>::from_spec(x)
}

/// `d` is what the attempt to convert `x` answers, as far as the conversion
/// tells what it does.
pub open spec fn tries_from<R, D: TryFrom<R>>(x: R, d: Result<D, <D as TryFrom<R>>::Error>) -> bool {
    <D as TryFromSpec<R>>::obeys_try_from_spec() ==> d == <D as TryFromSpec<R>>::try_from_spec(x)
}

impl FieldExtraction {
    /// Pulls the field's value out of a row: checks that the label at the
    /// field's index is the field's column, then takes the next value of the
    /// row and reads it as `T`, the field's target type.
    pub fn extract<T: FromGlueSql>(&self, labels: &[String], row: &mut RowCursor) -> (r: Result<
        T,
        Error,
    >)
        ensures
            extracted::<T>(*self, labels@, old(row)@, r),
            final(row)@ == rest_after(*self, labels@, old(row)@),
    {
        if self.index >= labels.len() {
            return Err(
                Error::InvalidFieldName(self.index, self.column_name.clone(), String::new()),
            );
        }
        if !(labels[self.index] == self.column_name) {
            return Err(
                Error::InvalidFieldName(
                    self.index,
                    self.column_name.clone(),
                    labels[self.index].clone(),
                ),
            );
        }
        match row.next() {
            None => Err(Error::InvalidExtract(self.index, self.column_name.clone())),
            Some(value) => T::from_gluesql(value),
        }
    }

    /// Pulls the field's value out of a row as `extract` does, as the target
    /// type `R`, and converts it into the declared type `D`.
    pub fn extract_from<R: FromGlueSql, D: From<R>>(
        &self,
        labels: &[String],
        row: &mut RowCursor,
    ) -> (r: Result<D, Error>)
        ensures
            final(row)@ == rest_after(*self, labels@, old(row)@),
            match r {
                Ok(d) => exists|x: R| #[trigger]
                    extracted::<R>(*self, labels@, old(row)@, Ok::<R, Error>(x)) && converts_from(
                        x,
                        d,
                    ),
                Err(e) => extracted::<R>(*self, labels@, old(row)@, Err::<R, Error>(e)),
            },
    {
        match self.extract::<R>(labels, row) {
            Ok(x) => Ok(D::from(x)),
            Err(e) => Err(e),
        }
    }

    /// Pulls the field's value out of a row as `extract` does, as the target
    /// type `R`, and tries to convert it into the declared type `D`. Where the
    /// conversion refuses, its refusal is handed out in place of the value.
    pub fn extract_try_from<R: FromGlueSql, D: TryFrom<R>>(
        &self,
        labels: &[String],
        row: &mut RowCursor,
    ) -> (r: Result<Result<D, <D as TryFrom<R>>::Error>, Error>)
        ensures
            final(row)@ == rest_after(*self, labels@, old(row)@),
            match r {
                Ok(converted) => exists|x: R| #[trigger]
                    extracted::<R>(*self, labels@, old(row)@, Ok::<R, Error>(x)) && tries_from(
                        x,
                        converted,
                    ),
                Err(e) => extracted::<R>(*self, labels@, old(row)@, Err::<R, Error>(e)),
            },
    {
        match self.extract::<R>(labels, row) {
            Ok(x) => Ok(D::try_from(x)),
            Err(e) => Err(e),
        }
    }
}

/// Field `i` of `fields` finds its label and a value that `T` reads.
pub open spec fn field_passes<T: FromGlueSql>(
    fields: Seq<FieldExtraction>,
    labels: Seq<String>,
    values: Seq<Value>,
    i: int,
) -> bool {
    &&& label_matches(labels, fields[i].index as int, fields[i].column_name@)
    &&& i < values.len()
    &&& T::decode(values[i]).is_some()
}

/// Every field finds its label and a value that `T` reads.
pub open spec fn row_passes<T: FromGlueSql>(
    fields: Seq<FieldExtraction>,
    labels: Seq<String>,
    values: Seq<Value>,
) -> bool {
    forall|i: int| 0 <= i < fields.len() ==> #[trigger] field_passes::<T>(fields, labels, values, i)
}

/// `rec` holds, field by field, what `T` reads in `values`.
pub open spec fn row_read<T: FromGlueSql>(values: Seq<Value>, rec: Seq<T>) -> bool {
    forall|i: int|
        0 <= i < rec.len() ==> T::decode(values[i]) == Some((#[trigger] rec[i]).model())
}

/// `error` is what field `k` fails with: a label that is not the expected
/// one, else a row that has ended, else a value that `T` refuses.
pub open spec fn field_failure<T: FromGlueSql>(
    fields: Seq<FieldExtraction>,
    labels: Seq<String>,
    values: Seq<Value>,
    k: int,
    error: Error,
) -> bool {
    if !label_matches(labels, fields[k].index as int, fields[k].column_name@) {
        label_failure(fields[k], labels, error)
    } else if k >= values.len() {
        error@ == ErrorView::InvalidExtract(fields[k].index, fields[k].column_name@)
    } else {
        T::decode(values[k]).is_none() && T::rejects(values[k], error)
    }
}

/// Field `k` is the first that fails, and `error` is its failure.
pub open spec fn row_fails_at<T: FromGlueSql>(
    fields: Seq<FieldExtraction>,
    labels: Seq<String>,
    values: Seq<Value>,
    k: int,
    error: Error,
) -> bool {
    &&& 0 <= k < fields.len()
    &&& forall|j: int| 0 <= j < k ==> #[trigger] field_passes::<T>(fields, labels, values, j)
    &&& !field_passes::<T>(fields, labels, values, k)
    &&& field_failure::<T>(fields, labels, values, k, error)
}

/// `r` is what the extraction of a whole row answers: the fields' values in
/// declared order, or the failure of the first field that fails.
pub open spec fn row_extracted<T: FromGlueSql>(
    fields: Seq<FieldExtraction>,
    labels: Seq<String>,
    values: Seq<Value>,
    r: Result<Vec<T>, Error>,
) -> bool {
    match r {
        Ok(rec) => {
            &&& row_passes::<T>(fields, labels, values)
            &&& rec@.len() == fields.len()
            &&& row_read::<T>(values, rec@)
        },
        Err(e) => exists|k: int| row_fails_at::<T>(fields, labels, values, k, e),
    }
}

/// `r` is what the extraction of `rows` answers: one record for each row, or
/// the failure of the first row that fails, and then no record at all.
pub open spec fn rows_extracted<T: FromGlueSql>(
    fields: Seq<FieldExtraction>,
    labels: Seq<String>,
    rows: Seq<Vec<Value>>,
    r: Result<Vec<Vec<T>>, Error>,
) -> bool {
    match r {
        Ok(recs) => {
            &&& recs@.len() == rows.len()
            &&& forall|i: int|
                0 <= i < rows.len() ==> row_extracted::<T>(
                    fields,
                    labels,
                    (#[trigger] rows[i])@,
                    Ok::<Vec<T>, Error>(recs@[i]),
                )
        },
        Err(e) => exists|k: int|
            {
                &&& 0 <= k < rows.len()
                &&& forall|j: int|
                    0 <= j < k ==> row_passes::<T>(fields, labels, (#[trigger] rows[j])@)
                &&& row_extracted::<T>(fields, labels, rows[k]@, Err::<Vec<T>, Error>(e))
            },
    }
}

impl GluesqlField {
    /// The extraction procedure of the field.
    pub open spec fn extraction(&self) -> FieldExtraction {
        FieldExtraction {
            ident: self.ident,
            index: self.index,
            column_name: self.column(),
            ty: self.ty,
            target_ty: self.target(),
            conversion: self.conversion(),
        }
    }

    /// Adds to `predicates` what the extract contract demands of the field's
    /// types. Nothing is added where the field's target type cannot be read.
    pub fn add_predicates_from(&self, predicates: &mut Vec<Requirement>) -> (r: Result<
        (),
        ParseError,
    >)
        ensures
            match r {
                Ok(_) => final(predicates)@ == old(predicates)@ + self.requirements(
                    Direction::Extract,
                ),
                Err(e) => {
                    &&& self.converted()
                    &&& e.expr == self.target()
                    &&& final(predicates)@ == old(predicates)@
                },
            },
            !self.converted() ==> r.is_ok(),
    {
        let target_ty = match self.target_ty() {
            Ok(target_ty) => target_ty,
            Err(e) => {
                return Err(e);
            },
        };
        let ghost before = predicates@;
        if self.flatten {
            predicates.push(Requirement::RecordExtract { ty: target_ty.clone() });
        } else {
            predicates.push(Requirement::ScalarExtract { ty: target_ty.clone() });
        }
        if self.from.is_some() {
            predicates.push(Requirement::ConvertsFrom { ty: self.ty.clone(), source: target_ty });
        } else if self.try_from.is_some() {
            predicates.push(
                Requirement::TryConvertsFrom { ty: self.ty.clone(), source: target_ty.clone() },
            );
            predicates.push(
                Requirement::ErrorConverts { ty: self.ty.clone(), source: target_ty.clone() },
            );
            predicates.push(Requirement::ErrorDebug { ty: self.ty.clone(), source: target_ty });
        }
        assert(predicates@ =~= before + self.requirements(Direction::Extract));
        Ok(())
    }

    /// The procedure that pulls this field out of a row. A flattened field
    /// has none.
    fn generate_from_row(&self) -> (r: Result<FieldExtraction, ParseError>)
        requires
            !self.flatten,
        ensures
            match r {
                Ok(extraction) => extraction == self.extraction(),
                Err(e) => self.converted() && e.expr == self.target(),
            },
            !self.converted() ==> r.is_ok(),
    {
        let target_ty = match self.target_ty() {
            Ok(target_ty) => target_ty,
            Err(e) => {
                return Err(e);
            },
        };
        let conversion = if self.from.is_some() {
            Conversion::From
        } else if self.try_from.is_some() {
            Conversion::TryFrom
        } else {
            Conversion::Direct
        };
        Ok(
            FieldExtraction {
                ident: self.ident.clone(),
                index: self.index,
                column_name: self.column_name(),
                ty: self.ty.clone(),
                target_ty,
                conversion,
            },
        )
    }
}

/// The extract contract of a record type: what generation hands out for a
/// description that validation accepts.
#[derive(Debug)]
pub struct FromRowContract {
    ident: String,
    generics: Vec<String>,
    predicates: Vec<Requirement>,
    fields: Vec<FieldExtraction>,
}

/// What a [`FromRowContract`] holds.
pub struct FromRowContractView {
    /// The identifier of the record type.
    pub ident: String,
    /// The type parameters of the record type.
    pub generics: Seq<String>,
    /// What the contract demands of the fields' types.
    pub predicates: Seq<Requirement>,
    /// The extraction procedures of the fields, in declared order.
    pub fields: Seq<FieldExtraction>,
}

impl View for FromRowContract {
    type V = FromRowContractView;

    closed spec fn view(&self) -> FromRowContractView {
        FromRowContractView {
            ident: self.ident,
            generics: self.generics@,
            predicates: self.predicates@,
            fields: self.fields@,
        }
    }
}

/// The extraction procedures of `fields`, each with its position as index.
pub open spec fn extractions(fields: Seq<GluesqlField>) -> Seq<FieldExtraction> {
    Seq::new(
        fields.len(),
        |i: int| (GluesqlField { index: i as usize, ..fields[i] }).extraction(),
    )
}

/// `contract` is the extract contract of the record type that `input` describes.
pub open spec fn derived_from_row(input: DeriveGluesqlRow, contract: FromRowContract) -> bool {
    &&& contract.wf()
    &&& contract@.ident == input.ident
    &&& contract@.generics == input.generics@
    &&& contract@.predicates == all_requirements(input.fields@, Direction::Extract)
    &&& contract@.fields == extractions(input.fields@)
}

impl FromRowContract {
    #[verifier::type_invariant]
    spec fn indexed(&self) -> bool {
        forall|i: int| 0 <= i < self.fields@.len() ==> (#[trigger] self.fields@[i]).index == i
    }

    /// Every field expects its label at its own position.
    pub open spec fn wf(&self) -> bool {
        forall|i: int| 0 <= i < self@.fields.len() ==> (#[trigger] self@.fields[i]).index == i
    }

    /// The expected labels, in declared order.
    pub open spec fn columns(&self) -> Seq<String> {
        Seq::new(self@.fields.len(), |i: int| self@.fields[i].column_name)
    }

    /// The identifier of the record type.
    pub fn ident(&self) -> (ident: &String)
        ensures
            *ident == self@.ident,
    {
        &self.ident
    }

    /// The type parameters of the record type.
    pub fn generics(&self) -> (generics: &[String])
        ensures
            generics@ == self@.generics,
    {
        self.generics.as_slice()
    }

    /// What the contract demands of the fields' types.
    pub fn predicates(&self) -> (predicates: &[Requirement])
        ensures
            predicates@ == self@.predicates,
    {
        self.predicates.as_slice()
    }

    /// The extraction procedures of the fields, in declared order. Each
    /// expects its label at its own position.
    pub fn fields(&self) -> (fields: &[FieldExtraction])
        ensures
            fields@ == self@.fields,
            self.wf(),
    {
        proof {
            use_type_invariant(self);
        }
        self.fields.as_slice()
    }

    /// Extracts one record from a row. The fields are taken in declared
    /// order, each reading the next value of the row as `T`; the first field
    /// that fails ends the extraction with its failure. Values that the row
    /// holds beyond the last field are ignored.
    #[verifier::loop_isolation(false)]
    pub fn from_gluesql_row<T: FromGlueSql>(&self, labels: &[String], row: Vec<Value>) -> (r:
        Result<Vec<T>, Error>)
        ensures
            row_extracted::<T>(self@.fields, labels@, row@, r),
    {
        let ghost values = row@;
        let mut cursor = RowCursor::new(row);
        let mut record: Vec<T> = Vec::new();
        let n = self.fields.len();
        let mut i: usize = 0;
        while i < n
            invariant
                n == self.fields@.len(),
                0 <= i <= n,
                i <= values.len(),
                cursor@ == values.skip(i as int),
                record@.len() == i,
                row_read::<T>(values, record@),
                forall|j: int|
                    0 <= j < i ==> #[trigger] field_passes::<T>(self.fields@, labels@, values, j),
            decreases n - i,
        {
            match self.fields[i].extract::<T>(labels, &mut cursor) {
                Ok(x) => {
                    assert(values.skip(i as int).skip(1) =~= values.skip(i + 1));
                    record.push(x);
                },
                Err(e) => {
                    assert(row_fails_at::<T>(self@.fields, labels@, values, i as int, e));
                    return Err(e);
                },
            }
            i += 1;
        }
        Ok(record)
    }

    /// Extracts one record from each row. The first row that fails ends the
    /// extraction with its failure, and the records of the rows before it are
    /// dropped.
    pub fn from_gluesql_rows<T: FromGlueSql>(&self, labels: &[String], rows: Vec<Vec<Value>>) -> (r:
        Result<Vec<Vec<T>>, Error>)
        ensures
            rows_extracted::<T>(self@.fields, labels@, rows@, r),
    {
        let mut records: Vec<Vec<T>> = Vec::new();
        for row in it: rows
            invariant
                records@.len() == it.index(),
                it.seq() == rows@,
                forall|j: int|
                    0 <= j < it.index() ==> row_extracted::<T>(
                        self@.fields,
                        labels@,
                        (#[trigger] rows@[j])@,
                        Ok::<Vec<T>, Error>(records@[j]),
                    ),
        {
            assert(row == rows@[it.index() as int]);
            match self.from_gluesql_row::<T>(labels, row) {
                Ok(record) => records.push(record),
                Err(e) => {
                    assert(row_extracted::<T>(
                        self@.fields,
                        labels@,
                        rows@[it.index() as int]@,
                        Err::<Vec<T>, Error>(e),
                    ));
                    return Err(e);
                },
            }
        }
        Ok(records)
    }
}

impl DeriveGluesqlRow {
    /// What the extract contract demands of the fields' types, field by
    /// field in declared order.
    pub fn predicates_from(&self) -> (r: Result<Vec<Requirement>, ParseError>)
        ensures
            match r {
                Ok(predicates) => predicates@ == all_requirements(
                    self.fields@,
                    Direction::Extract,
                ),
                Err(e) => exists|k: int|
                    0 <= k < self.fields@.len() && (#[trigger] self.fields@[k]).converted()
                        && e.expr == self.fields@[k].target(),
            },
            no_conversion(self.fields@) ==> r.is_ok(),
    {
        let mut predicates: Vec<Requirement> = Vec::new();
        let n = self.fields.len();
        let mut i: usize = 0;
        while i < n
            invariant
                n == self.fields@.len(),
                0 <= i <= n,
                predicates@ == all_requirements(self.fields@.take(i as int), Direction::Extract),
            decreases n - i,
        {
            proof {
                lemma_requirements_step(self.fields@, Direction::Extract, i as int);
            }
            match self.fields[i].add_predicates_from(&mut predicates) {
                Ok(_) => {},
                Err(e) => {
                    return Err(e);
                },
            }
            i += 1;
        }
        assert(self.fields@.take(n as int) =~= self.fields@);
        Ok(predicates)
    }

    /// Generates the extract contract: validates the description, gathers
    /// what the contract demands, then the extraction procedure of each field.
    #[verifier::loop_isolation(false)]
    fn generate_from_row(self) -> (r: Result<FromRowContract, DeriveError>)
        requires
            no_flatten(self.fields@),
        ensures
            match r {
                Ok(contract) => self.valid() && derived_from_row(self, contract),
                Err(e) => derive_refused(self.fields@, e),
            },
            self.valid() && no_conversion(self.fields@) ==> r.is_ok(),
    {
        let ghost input = self;
        let mut this = self;
        match this.validate() {
            Ok(_) => {},
            Err(e) => {
                return Err(DeriveError::Config(e));
            },
        }
        proof {
            lemma_requirements_ignore_index(this.fields@, input.fields@, Direction::Extract);
        }
        let predicates = match this.predicates_from() {
            Ok(predicates) => predicates,
            Err(e) => {
                return Err(DeriveError::Parse(e));
            },
        };
        let mut fields: Vec<FieldExtraction> = Vec::new();
        let n = this.fields.len();
        let mut i: usize = 0;
        while i < n
            invariant
                n == this.fields@.len(),
                0 <= i <= n,
                indexed_from(this.fields@, input.fields@),
                input.valid(),
                no_flatten(input.fields@),
                fields@.len() == i,
                forall|j: int| 0 <= j < i ==> #[trigger] fields@[j] == this.fields@[j].extraction(),
            decreases n - i,
        {
            assert(this.fields@[i as int] == (GluesqlField {
                index: i,
                ..input.fields@[i as int]
            }));
            match this.fields[i].generate_from_row() {
                Ok(extraction) => fields.push(extraction),
                Err(e) => {
                    assert(input.fields@[i as int].converted());
                    return Err(DeriveError::Parse(e));
                },
            }
            i += 1;
        }
        assert(fields@ =~= extractions(input.fields@));
        Ok(FromRowContract { ident: this.ident, generics: this.generics, predicates, fields })
    }
}

/// Generates the extract contract of the record type that `input`
/// describes. No contract is generated for a description that validation
/// refuses; one that validation accepts and that names no conversion always
/// has its contract.
pub fn try_derive_from_row(input: DeriveGluesqlRow) -> (r: Result<FromRowContract, DeriveError>)
    requires
        no_flatten(input.fields@),
    ensures
        match r {
            Ok(contract) => input.valid() && derived_from_row(input, contract),
            Err(e) => derive_refused(input.fields@, e),
        },
        !input.valid() ==> r matches Err(DeriveError::Config(_)),
        input.valid() && no_conversion(input.fields@) ==> r.is_ok(),
{
    input.generate_from_row()
}

} // verus!
