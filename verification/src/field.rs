//! The description of a record type and of its fields.

use vstd::prelude::*;
use crate::trusted::lex_type_expr;

verus! {

/// Two directives of one field that exclude each other.
#[derive(Debug, Clone, Copy, PartialEq, Eq, Structural)]
pub enum ConfigError {
    /// The field names both a `from` and a `try_from` conversion.
    ConflictingConversions,
    /// The field is flattened and renamed: a flattened field has no column.
    RenamedFlatten,
}

impl ConfigError {
    /// The conflicting pair of directives, in words.
    pub open spec fn description(&self) -> Seq<char> {
        match self {
            ConfigError::ConflictingConversions =>
                "can't combine `#[from_row(from = \"..\")]` with `#[from_row(try_from = \"..\")]`"@,
            ConfigError::RenamedFlatten =>
                "can't combine `#[from_row(flatten)]` with `#[from_row(rename = \"..\")]`"@,
        }
    }

    /// The conflicting pair of directives, in words.
    pub fn message(&self) -> (s: &'static str)
        ensures
            s@ == self.description(),
    {
        match self {
            ConfigError::ConflictingConversions =>
                "can't combine `#[from_row(from = \"..\")]` with `#[from_row(try_from = \"..\")]`",
            ConfigError::RenamedFlatten =>
                "can't combine `#[from_row(flatten)]` with `#[from_row(rename = \"..\")]`",
        }
    }
}

/// A conversion directive whose type expression cannot be read as tokens.
#[derive(Debug, PartialEq, Eq)]
pub struct ParseError {
    /// The type expression as the directive gave it.
    pub expr: String,
}

/// Why no contract was generated for a record type.
#[derive(Debug, PartialEq, Eq)]
pub enum DeriveError {
    /// A field's directives exclude each other.
    Config(ConfigError),
    /// The type expression of a conversion cannot be read.
    Parse(ParseError),
}

/// One capability that a generated contract demands of a type. The types
/// are held as the text of their expressions.
#[derive(Debug, PartialEq, Eq)]
pub enum Requirement {
    /// `ty` is a record type with an extract contract of its own.
    RecordExtract { ty: String },
    /// `ty` can be read out of a tagged value.
    ScalarExtract { ty: String },
    /// `ty` converts from `source` without failure.
    ConvertsFrom { ty: String, source: String },
    /// `ty` converts from `source`, and may refuse.
    TryConvertsFrom { ty: String, source: String },
    /// The refusal of converting `source` into `ty` converts into [`crate::Error`].
    ErrorConverts { ty: String, source: String },
    /// The refusal of converting `source` into `ty` can be printed for diagnosis.
    ErrorDebug { ty: String, source: String },
    /// `ty` is a record type with a project contract of its own.
    RecordProject { ty: String },
    /// `ty` can be written as a row expression.
    ScalarProject { ty: String },
    /// `ty` is a record type with a reflect contract of its own.
    RecordReflect { ty: String },
    /// `ty` has a schema type.
    ScalarReflect { ty: String },
}

/// The three contracts that are generated for a record type.
#[derive(Debug, Clone, Copy, PartialEq, Eq, Structural)]
pub enum Direction {
    /// From a row to the record.
    Extract,
    /// From the record to a row of expressions.
    Project,
    /// From the record type to its schema.
    Reflect,
}

/// How an extracted value reaches a field's declared type.
#[derive(Debug, Clone, Copy, PartialEq, Eq, Structural)]
pub enum Conversion {
    /// The value is extracted as the declared type.
    Direct,
    /// The value is extracted as the target type and converted without failure.
    From,
    /// The value is extracted as the target type and converted, which may fail.
    TryFrom,
}

/// Settles a field's target type once its type expression has been read as
/// tokens: the expression itself where it reads, else the refusal.
pub fn resolve_target(
    expr: &String,
    lexed: Result<proc_macro2::TokenStream, proc_macro2::LexError>,
) -> (r: Result<String, ParseError>)
    ensures
        r == match lexed {
            Ok(_) => Ok::<String, ParseError>(*expr),
            Err(_) => Err::<String, ParseError>((ParseError { expr: *expr })),
        },
{
    match lexed {
        Ok(_) => Ok(expr.clone()),
        Err(_) => Err(ParseError { expr: expr.clone() }),
    }
}

/// One declared field of a record type, with its directives.
#[derive(Debug)]
pub struct GluesqlField {
    /// The position of the field among the declared fields. Validation of the
    /// record assigns it; a value given before that is overwritten.
    pub index: usize,
    /// The identifier of the field.
    pub ident: String,
    /// The declared type of the field.
    pub ty: String,
    /// Whether the field stands for a whole nested record instead of one column.
    pub flatten: bool,
    /// The type to extract before a fallible conversion into `ty`.
    pub try_from: Option<String>,
    /// The type to extract before an infallible conversion into `ty`.
    pub from: Option<String>,
    /// The column name, where it differs from the identifier.
    pub rename: Option<String>,
}

impl GluesqlField {
    /// What validation answers for this field.
    pub open spec fn validation(&self) -> Result<(), ConfigError> {
        if self.from.is_some() && self.try_from.is_some() {
            Err(ConfigError::ConflictingConversions)
        } else if self.rename.is_some() && self.flatten {
            Err(ConfigError::RenamedFlatten)
        } else {
            Ok(())
        }
    }

    /// The field's directives do not exclude each other.
    pub open spec fn valid(&self) -> bool {
        self.validation().is_ok()
    }

    /// The name of the column that the field is matched against.
    pub open spec fn column(&self) -> String {
        match self.rename {
            Some(name) => name,
            None => self.ident,
        }
    }

    /// Whether the field names a conversion.
    pub open spec fn converted(&self) -> bool {
        self.from.is_some() || self.try_from.is_some()
    }

    /// How an extracted value reaches the declared type.
    pub open spec fn conversion(&self) -> Conversion {
        if self.from.is_some() {
            Conversion::From
        } else if self.try_from.is_some() {
            Conversion::TryFrom
        } else {
            Conversion::Direct
        }
    }

    /// The type that is extracted for the field: that of its conversion, or
    /// the declared type where it names none.
    pub open spec fn target(&self) -> String {
        match (self.from, self.try_from) {
            (Some(from), _) => from,
            (None, Some(try_from)) => try_from,
            (None, None) => self.ty,
        }
    }

    /// What the contract of `direction` demands of the field's types.
    ///
    /// A flattened field needs its target type to be a record with the same
    /// contract. Any other field needs the scalar capability: of its target
    /// type to extract and to reflect, of its declared type to project. To
    /// extract through a conversion, the declared type must convert from the
    /// target type; where that conversion may fail, its refusal must convert
    /// into this library's error and be printable.
    pub open spec fn requirements(&self, direction: Direction) -> Seq<Requirement> {
        match direction {
            Direction::Extract => {
                let head = if self.flatten {
                    Requirement::RecordExtract { ty: self.target() }
                } else {
                    Requirement::ScalarExtract { ty: self.target() }
                };
                if self.from.is_some() {
                    seq![head, Requirement::ConvertsFrom { ty: self.ty, source: self.target() }]
                } else if self.try_from.is_some() {
                    seq![
                        head,
                        Requirement::TryConvertsFrom { ty: self.ty, source: self.target() },
                        Requirement::ErrorConverts { ty: self.ty, source: self.target() },
                        Requirement::ErrorDebug { ty: self.ty, source: self.target() },
                    ]
                } else {
                    seq![head]
                }
            },
            Direction::Project => if self.flatten {
                seq![Requirement::RecordProject { ty: self.target() }]
            } else {
                seq![Requirement::ScalarProject { ty: self.ty }]
            },
            Direction::Reflect => if self.flatten {
                seq![Requirement::RecordReflect { ty: self.target() }]
            } else {
                seq![Requirement::ScalarReflect { ty: self.target() }]
            },
        }
    }

    /// Checks that the field's directives do not exclude each other.
    pub fn validate(&self) -> (r: Result<(), ConfigError>)
        ensures
            r == self.validation(),
    {
        if self.from.is_some() && self.try_from.is_some() {
            return Err(ConfigError::ConflictingConversions);
        }
        if self.rename.is_some() && self.flatten {
            return Err(ConfigError::RenamedFlatten);
        }
        Ok(())
    }

    /// The type that is extracted for the field. A conversion's type
    /// expression must read as tokens; a field without conversion always has
    /// its target.
    pub fn target_ty(&self) -> (r: Result<String, ParseError>)
        ensures
            match r {
                Ok(target) => target == self.target(),
                Err(e) => self.converted() && e.expr == self.target(),
            },
            !self.converted() ==> r.is_ok(),
    {
        if let Some(from) = &self.from {
            resolve_target(from, lex_type_expr(from.as_str()))
        } else if let Some(try_from) = &self.try_from {
            resolve_target(try_from, lex_type_expr(try_from.as_str()))
        } else {
            Ok(self.ty.clone())
        }
    }

    /// The name of the column that the field is matched against: the `rename`
    /// directive where there is one, else the identifier.
    pub fn column_name(&self) -> (name: String)
        ensures
            name == self.column(),
    {
        match &self.rename {
            Some(name) => name.clone(),
            None => self.ident.clone(),
        }
    }
}

/// The description of a record type: what a derive sees of it.
#[derive(Debug)]
pub struct DeriveGluesqlRow {
    /// The identifier of the record type.
    pub ident: String,
    /// The type parameters of the record type, in declared order.
    pub generics: Vec<String>,
    /// The fields in declared order, which is the order of the columns.
    pub fields: Vec<GluesqlField>,
}

/// What the contract of `direction` demands for `fields`: the demands of
/// each field, in declared order.
pub open spec fn all_requirements(fields: Seq<GluesqlField>, direction: Direction) -> Seq<
    Requirement,
>
    decreases fields.len(),
{
    if fields.len() == 0 {
        Seq::empty()
    } else {
        all_requirements(fields.drop_last(), direction) + fields.last().requirements(direction)
    }
}

/// No field of `fields` names a conversion.
pub open spec fn no_conversion(fields: Seq<GluesqlField>) -> bool {
    forall|i: int| 0 <= i < fields.len() ==> !(#[trigger] fields[i]).converted()
}

/// No field of `fields` is flattened.
pub open spec fn no_flatten(fields: Seq<GluesqlField>) -> bool {
    forall|i: int| 0 <= i < fields.len() ==> !(#[trigger] fields[i]).flatten
}

/// `k` is the first field of `fields` that validation refuses.
pub open spec fn first_invalid(fields: Seq<GluesqlField>, k: int) -> bool {
    &&& 0 <= k < fields.len()
    &&& !fields[k].valid()
    &&& forall|j: int| 0 <= j < k ==> (#[trigger] fields[j]).valid()
}

/// `after` is `before` with every field's index set to its position.
pub open spec fn indexed_from(after: Seq<GluesqlField>, before: Seq<GluesqlField>) -> bool {
    &&& after.len() == before.len()
    &&& forall|i: int|
        0 <= i < after.len() ==> #[trigger] after[i] == (GluesqlField {
            index: i as usize,
            ..before[i]
        })
}

/// Why generation refuses `fields`: `error` is the refusal of the first
/// field that validation refuses, or, where validation accepts them all, the
/// type expression of a conversion that could not be read.
pub open spec fn derive_refused(fields: Seq<GluesqlField>, error: DeriveError) -> bool {
    match error {
        DeriveError::Config(config) => exists|k: int|
            first_invalid(fields, k) && fields[k].validation() == Err::<(), ConfigError>(config),
        DeriveError::Parse(parse) => {
            &&& forall|i: int| 0 <= i < fields.len() ==> (#[trigger] fields[i]).valid()
            &&& exists|k: int|
                0 <= k < fields.len() && (#[trigger] fields[k]).converted() && parse.expr
                    == fields[k].target()
        },
    }
}

/// What is demanded for a list of fields does not depend on their indices.
pub proof fn lemma_requirements_ignore_index(
    after: Seq<GluesqlField>,
    before: Seq<GluesqlField>,
    direction: Direction,
)
    requires
        indexed_from(after, before),
    ensures
        all_requirements(after, direction) == all_requirements(before, direction),
    decreases after.len(),
{
    if after.len() > 0 {
        lemma_requirements_ignore_index(after.drop_last(), before.drop_last(), direction);
        assert(after.last() == (GluesqlField {
            index: (after.len() - 1) as usize,
            ..before.last()
        }));
    }
}

/// What is demanded for the first `n + 1` fields is what is demanded for the
/// first `n`, then what is demanded for the field after them.
pub proof fn lemma_requirements_step(fields: Seq<GluesqlField>, direction: Direction, n: int)
    requires
        0 <= n < fields.len(),
    ensures
        all_requirements(fields.take(n + 1), direction) == all_requirements(
            fields.take(n),
            direction,
        ) + fields[n].requirements(direction),
{
    assert(fields.take(n + 1).drop_last() =~= fields.take(n));
}

impl DeriveGluesqlRow {
    /// Every field carries its position as index.
    pub open spec fn indexed(&self) -> bool {
        forall|i: int| 0 <= i < self.fields@.len() ==> (#[trigger] self.fields@[i]).index == i
    }

    /// Every field passes validation.
    pub open spec fn valid(&self) -> bool {
        forall|i: int| 0 <= i < self.fields@.len() ==> (#[trigger] self.fields@[i]).valid()
    }

    /// Assigns each field its position as index, then validates the fields in
    /// declared order and answers with the first refusal.
    pub fn validate(&mut self) -> (r: Result<(), ConfigError>)
        ensures
            final(self).ident == old(self).ident,
            final(self).generics == old(self).generics,
            indexed_from(final(self).fields@, old(self).fields@),
            final(self).indexed(),
            r.is_ok() <==> final(self).valid(),
            r.is_ok() <==> old(self).valid(),
            match r {
                Ok(_) => true,
                Err(e) => exists|k: int|
                    first_invalid(old(self).fields@, k) && old(self).fields@[k].validation()
                        == Err::<(), ConfigError>(e),
            },
    {
        let n = self.fields.len();
        let mut i: usize = 0;
        while i < n
            invariant
                n == self.fields@.len(),
                n == old(self).fields@.len(),
                0 <= i <= n,
                self.ident == old(self).ident,
                self.generics == old(self).generics,
                forall|j: int|
                    0 <= j < i ==> #[trigger] self.fields@[j] == (GluesqlField {
                        index: j as usize,
                        ..old(self).fields@[j]
                    }),
                forall|j: int| i <= j < n ==> #[trigger] self.fields@[j] == old(self).fields@[j],
            decreases n - i,
        {
            self.fields[i].index = i;
            i += 1;
        }
        let mut k: usize = 0;
        while k < n
            invariant
                n == self.fields@.len(),
                0 <= k <= n,
                self.ident == old(self).ident,
                self.generics == old(self).generics,
                indexed_from(self.fields@, old(self).fields@),
                forall|j: int| 0 <= j < k ==> (#[trigger] old(self).fields@[j]).valid(),
            decreases n - k,
        {
            match self.fields[k].validate() {
                Ok(_) => {},
                Err(e) => {
                    assert(first_invalid(old(self).fields@, k as int));
                    return Err(e);
                },
            }
            k += 1;
        }
        Ok(())
    }

    /// The fields in declared order.
    pub fn fields(&self) -> (fields: &[GluesqlField])
        ensures
            fields@ == self.fields@,
    {
        self.fields.as_slice()
    }
}

} // verus!
