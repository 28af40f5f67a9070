//! The project contract of a record type: from the values of the record's
//! fields to a row of expressions.

use vstd::prelude::*;
use gluesql_core::query_builder::ExprNode;
use crate::field::{
    all_requirements, derive_refused, indexed_from, lemma_requirements_ignore_index,
    lemma_requirements_step, no_flatten, DeriveError, DeriveGluesqlRow, Direction, GluesqlField,
    ParseError, Requirement,
};
use crate::to_gluesql::ToGlueSql;
use crate::trusted::expr_model;

verus! {

/// The procedure that writes one field's value as a row expression.
#[derive(Debug, PartialEq, Eq)]
pub struct FieldProjection {
    /// The identifier of the field.
    pub ident: String,
    /// The position of the field's expression in the row.
    pub index: usize,
    /// The declared type of the field, as which its value is written.
    pub ty: String,
}

impl FieldProjection {
    /// Writes the field's value as a row expression.
    pub fn project<T: ToGlueSql>(&self, value: &T) -> (node: ExprNode<'static>)
        requires
            value.projectable(),
        ensures
            value.projects(expr_model(node)),
    {
        value.to_gluesql()
    }
}

/// Every value of `record` has a row expression.
pub open spec fn record_projectable<T: ToGlueSql>(record: Seq<T>) -> bool {
    forall|i: int| 0 <= i < record.len() ==> (#[trigger] record[i]).projectable()
}

/// `row` holds, in the order of the fields, what the values of `record` are
/// written as.
pub open spec fn row_projected<T: ToGlueSql>(record: Seq<T>, row: Seq<ExprNode<'static>>) -> bool {
    &&& row.len() == record.len()
    &&& forall|i: int|
        0 <= i < record.len() ==> (#[trigger] record[i]).projects(expr_model(row[i]))
}

/// The project contract of a record type: what generation hands out for a
/// description that validation accepts.
#[derive(Debug)]
pub struct ToRowContract {
    ident: String,
    generics: Vec<String>,
    predicates: Vec<Requirement>,
    fields: Vec<FieldProjection>,
}

/// What a [`ToRowContract`] holds.
pub struct ToRowContractView {
    /// The identifier of the record type.
    pub ident: String,
    /// The type parameters of the record type.
    pub generics: Seq<String>,
    /// What the contract demands of the fields' types.
    pub predicates: Seq<Requirement>,
    /// The projection procedures of the fields, in declared order.
    pub fields: Seq<FieldProjection>,
}

impl View for ToRowContract {
    type V = ToRowContractView;

    closed spec fn view(&self) -> ToRowContractView {
        ToRowContractView {
            ident: self.ident,
            generics: self.generics@,
            predicates: self.predicates@,
            fields: self.fields@,
        }
    }
}

/// The projection procedures of `fields`, each with its position as index.
pub open spec fn projections(fields: Seq<GluesqlField>) -> Seq<FieldProjection> {
    Seq::new(
        fields.len(),
        |i: int| FieldProjection { ident: fields[i].ident, index: i as usize, ty: fields[i].ty },
    )
}

/// `contract` is the project contract of the record type that `input` describes.
pub open spec fn derived_to_row(input: DeriveGluesqlRow, contract: ToRowContract) -> bool {
    &&& contract@.ident == input.ident
    &&& contract@.generics == input.generics@
    &&& contract@.predicates == all_requirements(input.fields@, Direction::Project)
    &&& contract@.fields == projections(input.fields@)
}

impl ToRowContract {
    /// The identifier of the record type.
    pub fn ident(&self) -> (ident: &String)
        ensures
            *ident == self@.ident,
    {
        &self.ident
    }

    /// The type parameters of the record type.
    pub fn generics(&self) -> (generics: &[String])
        ensures
            generics@ == self@.generics,
    {
        self.generics.as_slice()
    }

    /// What the contract demands of the fields' types.
    pub fn predicates(&self) -> (predicates: &[Requirement])
        ensures
            predicates@ == self@.predicates,
    {
        self.predicates.as_slice()
    }

    /// The projection procedures of the fields, in declared order.
    pub fn fields(&self) -> (fields: &[FieldProjection])
        ensures
            fields@ == self@.fields,
    {
        self.fields.as_slice()
    }

    /// Writes a record as a row of expressions, one for each field, in
    /// declared order. The record holds one value for each field.
    pub fn to_gluesql_row<T: ToGlueSql>(&self, record: &[T]) -> (row: Vec<ExprNode<'static>>)
        requires
            record@.len() == self@.fields.len(),
            record_projectable(record@),
        ensures
            row_projected(record@, row@),
    {
        let mut row: Vec<ExprNode<'static>> = Vec::new();
        let n = self.fields.len();
        let mut i: usize = 0;
        while i < n
            invariant
                n == self.fields@.len(),
                n == record@.len(),
                0 <= i <= n,
                record_projectable(record@),
                row@.len() == i,
                forall|j: int|
                    0 <= j < i ==> (#[trigger] record@[j]).projects(expr_model(row@[j])),
            decreases n - i,
        {
            let node = self.fields[i].project(&record[i]);
            row.push(node);
            i += 1;
        }
        row
    }
}

impl GluesqlField {
    /// Adds to `predicates` what the project contract demands of the field's
    /// types. Nothing is added where a flattened field's target type cannot
    /// be read.
    pub fn add_predicates_to(&self, predicates: &mut Vec<Requirement>) -> (r: Result<
        (),
        ParseError,
    >)
        ensures
            match r {
                Ok(_) => final(predicates)@ == old(predicates)@ + self.requirements(
                    Direction::Project,
                ),
                Err(e) => {
                    &&& self.flatten
                    &&& self.converted()
                    &&& e.expr == self.target()
                    &&& final(predicates)@ == old(predicates)@
                },
            },
            !(self.flatten && self.converted()) ==> r.is_ok(),
    {
        let ghost before = predicates@;
        if self.flatten {
            let target_ty = match self.target_ty() {
                Ok(target_ty) => target_ty,
                Err(e) => {
                    return Err(e);
                },
            };
            predicates.push(Requirement::RecordProject { ty: target_ty });
        } else {
            predicates.push(Requirement::ScalarProject { ty: self.ty.clone() });
        }
        assert(predicates@ =~= before + self.requirements(Direction::Project));
        Ok(())
    }

    /// The procedure that writes this field as a row expression. A
    /// flattened field has none.
    fn generate_to_row(&self) -> (projection: FieldProjection)
        requires
            !self.flatten,
        ensures
            projection == (FieldProjection { ident: self.ident, index: self.index, ty: self.ty }),
    {
        FieldProjection { ident: self.ident.clone(), index: self.index, ty: self.ty.clone() }
    }
}

impl DeriveGluesqlRow {
    /// What the project contract demands of the fields' types, field by
    /// field in declared order.
    pub fn predicates_to(&self) -> (r: Result<Vec<Requirement>, ParseError>)
        ensures
            match r {
                Ok(predicates) => predicates@ == all_requirements(
                    self.fields@,
                    Direction::Project,
                ),
                Err(e) => exists|k: int|
                    0 <= k < self.fields@.len() && (#[trigger] self.fields@[k]).flatten
                        && self.fields@[k].converted() && e.expr == self.fields@[k].target(),
            },
            no_flatten(self.fields@) ==> r.is_ok(),
    {
        let mut predicates: Vec<Requirement> = Vec::new();
        let n = self.fields.len();
        let mut i: usize = 0;
        while i < n
            invariant
                n == self.fields@.len(),
                0 <= i <= n,
                predicates@ == all_requirements(self.fields@.take(i as int), Direction::Project),
            decreases n - i,
        {
            proof {
                lemma_requirements_step(self.fields@, Direction::Project, i as int);
            }
            match self.fields[i].add_predicates_to(&mut predicates) {
                Ok(_) => {},
                Err(e) => {
                    return Err(e);
                },
            }
            i += 1;
        }
        assert(self.fields@.take(n as int) =~= self.fields@);
        Ok(predicates)
    }

    /// Generates the project contract: validates the description, gathers
    /// what the contract demands, then the projection procedure of each field.
    #[verifier::loop_isolation(false)]
    fn generate_to_row(self) -> (r: Result<ToRowContract, DeriveError>)
        requires
            no_flatten(self.fields@),
        ensures
            match r {
                Ok(contract) => self.valid() && derived_to_row(self, contract),
                Err(e) => derive_refused(self.fields@, e),
            },
            self.valid() ==> r.is_ok(),
    {
        let ghost input = self;
        let mut this = self;
        match this.validate() {
            Ok(_) => {},
            Err(e) => {
                return Err(DeriveError::Config(e));
            },
        }
        proof {
            lemma_requirements_ignore_index(this.fields@, input.fields@, Direction::Project);
        }
        let predicates = match this.predicates_to() {
            Ok(predicates) => predicates,
            Err(e) => {
                return Err(DeriveError::Parse(e));
            },
        };
        let mut fields: Vec<FieldProjection> = Vec::new();
        let n = this.fields.len();
        let mut i: usize = 0;
        while i < n
            invariant
                n == this.fields@.len(),
                0 <= i <= n,
                fields@.len() == i,
                forall|j: int|
                    0 <= j < i ==> #[trigger] fields@[j] == (FieldProjection {
                        ident: this.fields@[j].ident,
                        index: this.fields@[j].index,
                        ty: this.fields@[j].ty,
                    }),
            decreases n - i,
        {
            assert(this.fields@[i as int] == (GluesqlField {
                index: i,
                ..input.fields@[i as int]
            }));
            let projection = this.fields[i].generate_to_row();
            fields.push(projection);
            i += 1;
        }
        assert(fields@ =~= projections(input.fields@));
        Ok(ToRowContract { ident: this.ident, generics: this.generics, predicates, fields })
    }
}

/// Generates the project contract of the record type that `input`
/// describes: one for every description that validation accepts, and none
/// for any other.
pub fn try_derive_to_row(input: DeriveGluesqlRow) -> (r: Result<ToRowContract, DeriveError>)
    requires
        no_flatten(input.fields@),
    ensures
        match r {
            Ok(contract) => input.valid() && derived_to_row(input, contract),
            Err(e) => derive_refused(input.fields@, e),
        },
        !input.valid() ==> r matches Err(DeriveError::Config(_)),
        input.valid() ==> r.is_ok(),
{
    input.generate_to_row()
}

} // verus!
