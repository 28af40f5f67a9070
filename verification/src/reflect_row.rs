//! The reflect contract of a record type: its columns and the statement
//! that creates its table.

use vstd::prelude::*;
use vstd::string::StringExecFns;
use crate::field::{
    all_requirements, derive_refused, lemma_requirements_ignore_index, lemma_requirements_step,
    no_conversion, DeriveError, DeriveGluesqlRow, Direction, GluesqlField, ParseError,
    Requirement,
};

verus! {

/// The texts of `strings`, in order.
pub open spec fn texts(strings: Seq<String>) -> Seq<Seq<char>> {
    Seq::new(strings.len(), |i: int| strings[i]@)
}

/// The column clauses of a table, one for each column: the column's name, a
/// space, and the column's type with its nullability.
pub open spec fn ddl_clauses(columns: Seq<Seq<char>>, column_types: Seq<Seq<char>>) -> Seq<
    Seq<char>,
> {
    Seq::new(columns.len(), |i: int| columns[i] + " "@ + column_types[i])
}

/// The texts of `parts` in order, with `separator` between neighbours.
pub open spec fn joined(parts: Seq<Seq<char>>, separator: Seq<char>) -> Seq<char>
    decreases parts.len(),
{
    if parts.len() == 0 {
        Seq::empty()
    } else if parts.len() == 1 {
        parts[0]
    } else {
        joined(parts.drop_last(), separator) + separator + parts.last()
    }
}

/// The statement that creates `table` with the given columns, unless it exists.
pub open spec fn ddl_text(
    table: Seq<char>,
    columns: Seq<Seq<char>>,
    column_types: Seq<Seq<char>>,
) -> Seq<char> {
    "CREATE TABLE IF NOT EXISTS "@ + table + " (\n"@ + joined(
        ddl_clauses(columns, column_types),
        ", \n"@,
    ) + ");"@
}

/// The column names of `fields`, in declared order: for each field its
/// `rename` directive where it has one, else its identifier.
pub open spec fn column_names(fields: Seq<GluesqlField>) -> Seq<String> {
    Seq::new(fields.len(), |i: int| fields[i].column())
}

/// Builds the statement that creates `table` with the given columns.
fn build_ddl(table: &str, columns: &[String], column_types: &[String]) -> (ddl: String)
    requires
        column_types@.len() == columns@.len(),
    ensures
        ddl@ == ddl_text(table@, texts(columns@), texts(column_types@)),
{
    let mut ddl = String::new();
    ddl.append("CREATE TABLE IF NOT EXISTS ");
    ddl.append(table);
    ddl.append(" (\n");
    let ghost head = "CREATE TABLE IF NOT EXISTS "@ + table@ + " (\n"@;
    let ghost clauses = ddl_clauses(texts(columns@), texts(column_types@));
    assert(ddl@ =~= head + joined(clauses.take(0), ", \n"@));
    let n = columns.len();
    let mut i: usize = 0;
    while i < n
        invariant
            n == columns@.len(),
            n == column_types@.len(),
            0 <= i <= n,
            clauses == ddl_clauses(texts(columns@), texts(column_types@)),
            ddl@ == head + joined(clauses.take(i as int), ", \n"@),
        decreases n - i,
    {
        let ghost before = joined(clauses.take(i as int), ", \n"@);
        if i > 0 {
            ddl.append(", \n");
        }
        ddl.append(columns[i].as_str());
        ddl.append(" ");
        ddl.append(column_types[i].as_str());
        proof {
            let next = clauses.take(i + 1);
            assert(next.drop_last() =~= clauses.take(i as int));
            assert(next.last() == columns@[i as int]@ + " "@ + column_types@[i as int]@);
            if i > 0 {
                assert(ddl@ =~= head + (before + ", \n"@ + next.last()));
            } else {
                assert(before =~= Seq::<char>::empty());
                assert(ddl@ =~= head + next.last());
            }
        }
        i += 1;
    }
    assert(clauses.take(n as int) =~= clauses);
    ddl.append(");");
    ddl
}

/// The reflect contract of a record type: what generation hands out for a
/// description that validation accepts.
#[derive(Debug)]
pub struct ReflectRowContract {
    ident: String,
    generics: Vec<String>,
    predicates: Vec<Requirement>,
    columns: Vec<String>,
}

/// What a [`ReflectRowContract`] holds.
pub struct ReflectRowContractView {
    /// The identifier of the record type.
    pub ident: String,
    /// The type parameters of the record type.
    pub generics: Seq<String>,
    /// What the contract demands of the fields' types.
    pub predicates: Seq<Requirement>,
    /// The column names, in declared order.
    pub columns: Seq<String>,
}

impl View for ReflectRowContract {
    type V = ReflectRowContractView;

    closed spec fn view(&self) -> ReflectRowContractView {
        ReflectRowContractView {
            ident: self.ident,
            generics: self.generics@,
            predicates: self.predicates@,
            columns: self.columns@,
        }
    }
}

/// `contract` is the reflect contract of the record type that `input` describes.
pub open spec fn derived_reflect_row(input: DeriveGluesqlRow, contract: ReflectRowContract) -> bool {
    &&& contract@.ident == input.ident
    &&& contract@.generics == input.generics@
    &&& contract@.predicates == all_requirements(input.fields@, Direction::Reflect)
    &&& contract@.columns == column_names(input.fields@)
}

impl ReflectRowContract {
    /// The identifier of the record type.
    pub fn ident(&self) -> (ident: &String)
        ensures
            *ident == self@.ident,
    {
        &self.ident
    }

    /// The type parameters of the record type.
    pub fn generics(&self) -> (generics: &[String])
        ensures
            generics@ == self@.generics,
    {
        self.generics.as_slice()
    }

    /// What the contract demands of the fields' types.
    pub fn predicates(&self) -> (predicates: &[Requirement])
        ensures
            predicates@ == self@.predicates,
    {
        self.predicates.as_slice()
    }

    /// The column names, in declared order.
    pub fn columns(&self) -> (columns: &[String])
        ensures
            columns@ == self@.columns,
    {
        self.columns.as_slice()
    }

    /// The statement that creates `table` for the record type. `column_types`
    /// holds, for each field in declared order, the schema type of the
    /// field's type with its nullability.
    pub fn get_ddl(&self, table: &str, column_types: &[String]) -> (ddl: String)
        requires
            column_types@.len() == self@.columns.len(),
        ensures
            ddl@ == ddl_text(table@, texts(self@.columns), texts(column_types@)),
    {
        build_ddl(table, self.columns.as_slice(), column_types)
    }
}

impl GluesqlField {
    /// Adds to `predicates` what the reflect contract demands of the field's
    /// types. Nothing is added where the field's target type cannot be read.
    pub fn add_predicates_reflect(&self, predicates: &mut Vec<Requirement>) -> (r: Result<
        (),
        ParseError,
    >)
        ensures
            match r {
                Ok(_) => final(predicates)@ == old(predicates)@ + self.requirements(
                    Direction::Reflect,
                ),
                Err(e) => {
                    &&& self.converted()
                    &&& e.expr == self.target()
                    &&& final(predicates)@ == old(predicates)@
                },
            },
            !self.converted() ==> r.is_ok(),
    {
        let target_ty = match self.target_ty() {
            Ok(target_ty) => target_ty,
            Err(e) => {
                return Err(e);
            },
        };
        let ghost before = predicates@;
        if self.flatten {
            predicates.push(Requirement::RecordReflect { ty: target_ty });
        } else {
            predicates.push(Requirement::ScalarReflect { ty: target_ty });
        }
        assert(predicates@ =~= before + self.requirements(Direction::Reflect));
        Ok(())
    }
}

impl DeriveGluesqlRow {
    /// The statement that creates `table` for the described record type.
    /// `column_types` holds, for each field in declared order, the schema
    /// type of the field's type with its nullability.
    pub fn get_ddl(&self, table: &str, column_types: &[String]) -> (ddl: String)
        requires
            column_types@.len() == self.fields@.len(),
        ensures
            ddl@ == ddl_text(table@, texts(column_names(self.fields@)), texts(column_types@)),
    {
        let columns = self.get_columns();
        build_ddl(table, columns.as_slice(), column_types)
    }

    /// The column names of the described record type, in declared order.
    pub fn get_columns(&self) -> (columns: Vec<String>)
        ensures
            columns@ == column_names(self.fields@),
    {
        let mut columns: Vec<String> = Vec::new();
        let n = self.fields.len();
        let mut i: usize = 0;
        while i < n
            invariant
                n == self.fields@.len(),
                0 <= i <= n,
                columns@.len() == i,
                forall|j: int| 0 <= j < i ==> #[trigger] columns@[j] == self.fields@[j].column(),
            decreases n - i,
        {
            columns.push(self.fields[i].column_name());
            i += 1;
        }
        assert(columns@ =~= column_names(self.fields@));
        columns
    }

    /// What the reflect contract demands of the fields' types, field by
    /// field in declared order.
    pub fn predicates_reflect(&self) -> (r: Result<Vec<Requirement>, ParseError>)
        ensures
            match r {
                Ok(predicates) => predicates@ == all_requirements(
                    self.fields@,
                    Direction::Reflect,
                ),
                Err(e) => exists|k: int|
                    0 <= k < self.fields@.len() && (#[trigger] self.fields@[k]).converted()
                        && e.expr == self.fields@[k].target(),
            },
            no_conversion(self.fields@) ==> r.is_ok(),
    {
        let mut predicates: Vec<Requirement> = Vec::new();
        let n = self.fields.len();
        let mut i: usize = 0;
        while i < n
            invariant
                n == self.fields@.len(),
                0 <= i <= n,
                predicates@ == all_requirements(self.fields@.take(i as int), Direction::Reflect),
            decreases n - i,
        {
            proof {
                lemma_requirements_step(self.fields@, Direction::Reflect, i as int);
            }
            match self.fields[i].add_predicates_reflect(&mut predicates) {
                Ok(_) => {},
                Err(e) => {
                    return Err(e);
                },
            }
            i += 1;
        }
        assert(self.fields@.take(n as int) =~= self.fields@);
        Ok(predicates)
    }

    /// Generates the reflect contract: validates the description, gathers
    /// what the contract demands, then the column names.
    fn generate_reflect_row(self) -> (r: Result<ReflectRowContract, DeriveError>)
        ensures
            match r {
                Ok(contract) => self.valid() && derived_reflect_row(self, contract),
                Err(e) => derive_refused(self.fields@, e),
            },
            self.valid() && no_conversion(self.fields@) ==> r.is_ok(),
    {
        let ghost input = self;
        let mut this = self;
        match this.validate() {
            Ok(_) => {},
            Err(e) => {
                return Err(DeriveError::Config(e));
            },
        }
        proof {
            lemma_requirements_ignore_index(this.fields@, input.fields@, Direction::Reflect);
            assert(column_names(this.fields@) =~= column_names(input.fields@));
        }
        let predicates = match this.predicates_reflect() {
            Ok(predicates) => predicates,
            Err(e) => {
                proof {
                    let k = choose|k: int|
                        0 <= k < this.fields@.len() && (#[trigger] this.fields@[k]).converted()
                            && e.expr == this.fields@[k].target();
                    assert(input.fields@[k].converted());
                }
                return Err(DeriveError::Parse(e));
            },
        };
        let columns = this.get_columns();
        Ok(ReflectRowContract { ident: this.ident, generics: this.generics, predicates, columns })
    }
}

/// Generates the reflect contract of the record type that `input`
/// describes. No contract is generated for a description that validation
/// refuses; one that validation accepts and that names no conversion always
/// has its contract.
pub fn try_derive_reflect_row(input: DeriveGluesqlRow) -> (r: Result<
    ReflectRowContract,
    DeriveError,
>)
    ensures
        match r {
            Ok(contract) => input.valid() && derived_reflect_row(input, contract),
            Err(e) => derive_refused(input.fields@, e),
        },
        !input.valid() ==> r matches Err(DeriveError::Config(_)),
        input.valid() && no_conversion(input.fields@) ==> r.is_ok(),
{
    input.generate_reflect_row()
}

} // verus!
