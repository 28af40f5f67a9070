use gluesql_core::data::Value as EngineValue;
use gluesql_core::plan::{QueryPlan, StatementPlan, ValuesPlan};
use gluesql_core::query_builder::{Build, ExprNode};
use gluesql_derive::field::{Direction, Requirement};
use gluesql_derive::{
    resolve_target, try_derive_from_row, try_derive_reflect_row, try_derive_to_row, ConfigError,
    Conversion, DeriveError, DeriveGluesqlRow, Error, FromGlueSql, GluesqlField, ParseError,
    ToGlueSql, UtcDateTime, Value,
};

fn field(ident: &str, ty: &str) -> GluesqlField {
    GluesqlField {
        index: 0,
        ident: ident.to_string(),
        ty: ty.to_string(),
        flatten: false,
        try_from: None,
        from: None,
        rename: None,
    }
}

fn record(fields: Vec<GluesqlField>) -> DeriveGluesqlRow {
    DeriveGluesqlRow { ident: "Foo".to_string(), generics: vec!["T".to_string()], fields }
}

/// What the engine makes of the expressions of a row that stands alone.
fn engine_values(row: Vec<ExprNode<'static>>) -> Vec<EngineValue> {
    if row.is_empty() {
        return vec![];
    }
    let plan = gluesql_core::query_builder::values(vec![row]).build().unwrap();
    match plan {
        StatementPlan::Query(QueryPlan::Values(ValuesPlan(rows))) => rows[0]
            .iter()
            .map(|expr| {
                let evaluated = gluesql_core::executor::evaluate_stateless(None, expr).unwrap();
                EngineValue::try_from(evaluated).unwrap()
            })
            .collect(),
        other => panic!("not a row of values: {:?}", other),
    }
}

fn tagged(value: EngineValue) -> Value {
    match value {
        EngineValue::Bool(b) => Value::Bool(b),
        EngineValue::I64(i) => Value::I64(i),
        EngineValue::Str(s) => Value::Str(s),
        EngineValue::Null => Value::Null,
        EngineValue::Date(d) => Value::Date(d),
        EngineValue::Timestamp(t) => Value::Timestamp(t),
        other => panic!("no tagged value for {:?}", other),
    }
}

fn round_trip<T: FromGlueSql + ToGlueSql + PartialEq + std::fmt::Debug>(values: Vec<T>) {
    let fields = || (0..values.len()).map(|i| field(&format!("f{}", i), "T")).collect::<Vec<_>>();
    let project = try_derive_to_row(record(fields())).unwrap();
    let reflect = try_derive_reflect_row(record(fields())).unwrap();
    let extract = try_derive_from_row(record(fields())).unwrap();
    let row: Vec<Value> =
        engine_values(project.to_gluesql_row(&values)).into_iter().map(tagged).collect();
    let read = extract.from_gluesql_row::<T>(reflect.columns(), row).unwrap();
    assert_eq!(read, values);
}

#[test]
fn round_trip_through_the_engine() {
    round_trip::<i64>(vec![1, -2, i64::MAX, i64::MIN]);
    round_trip::<bool>(vec![true, false]);
    round_trip::<String>(vec!["hello".to_string(), String::new(), "it's".to_string()]);
    round_trip::<Option<i64>>(vec![Some(5), None]);
    round_trip::<Option<String>>(vec![None, Some("x".to_string())]);
    round_trip::<i64>(vec![]);
}

fn instant() -> chrono::NaiveDateTime {
    chrono::NaiveDate::from_ymd_opt(2024, 2, 29).unwrap().and_hms_micro_opt(23, 59, 58, 123_456).unwrap()
}

#[test]
fn test_datetime() {
    round_trip(vec![UtcDateTime(instant())]);
}

#[test]
fn test_time() {
    round_trip(vec![instant()]);
}

#[test]
fn test_duration() {
    round_trip(vec![chrono::Duration::seconds(1)]);
}

#[test]
fn test_std_duration() {
    round_trip(vec![std::time::Duration::from_secs(1)]);
}

#[test]
fn dates_round_trip_through_the_engine() {
    round_trip(vec![chrono::NaiveDate::from_ymd_opt(1999, 12, 31).unwrap()]);
    round_trip(vec![Some(instant()), None]);
}

#[test]
fn validation_assigns_indices_in_declared_order() {
    let mut input = record(vec![field("a", "i64"), field("b", "i64"), field("c", "i64")]);
    input.fields[0].index = 7;
    assert_eq!(input.validate(), Ok(()));
    let indices: Vec<usize> = input.fields().iter().map(|f| f.index).collect();
    assert_eq!(indices, vec![0, 1, 2]);
}

#[test]
fn from_with_try_from_is_refused() {
    let mut both = field("a", "Foo");
    both.from = Some("i64".to_string());
    both.try_from = Some("i32".to_string());
    assert_eq!(both.validate(), Err(ConfigError::ConflictingConversions));
    assert_eq!(
        ConfigError::ConflictingConversions.message(),
        "can't combine `#[from_row(from = \"..\")]` with `#[from_row(try_from = \"..\")]`"
    );
    let fields = || vec![field("x", "i64"), GluesqlField { ..field_copy(&both) }];
    assert_eq!(
        try_derive_from_row(record(fields())).err(),
        Some(DeriveError::Config(ConfigError::ConflictingConversions))
    );
    assert_eq!(
        try_derive_to_row(record(fields())).err(),
        Some(DeriveError::Config(ConfigError::ConflictingConversions))
    );
    assert_eq!(
        try_derive_reflect_row(record(fields())).err(),
        Some(DeriveError::Config(ConfigError::ConflictingConversions))
    );
}

fn field_copy(f: &GluesqlField) -> GluesqlField {
    GluesqlField {
        index: f.index,
        ident: f.ident.clone(),
        ty: f.ty.clone(),
        flatten: f.flatten,
        try_from: f.try_from.clone(),
        from: f.from.clone(),
        rename: f.rename.clone(),
    }
}

#[test]
fn flatten_with_rename_is_refused() {
    let mut nested = field("inner", "Inner");
    nested.flatten = true;
    nested.rename = Some("other".to_string());
    assert_eq!(nested.validate(), Err(ConfigError::RenamedFlatten));
    assert_eq!(
        ConfigError::RenamedFlatten.message(),
        "can't combine `#[from_row(flatten)]` with `#[from_row(rename = \"..\")]`"
    );
    assert_eq!(
        try_derive_reflect_row(record(vec![nested])).err(),
        Some(DeriveError::Config(ConfigError::RenamedFlatten))
    );
}

#[test]
fn first_refused_field_decides() {
    let mut nested = field("inner", "Inner");
    nested.flatten = true;
    nested.rename = Some("other".to_string());
    let mut both = field("a", "Foo");
    both.from = Some("i64".to_string());
    both.try_from = Some("i32".to_string());
    let mut input = record(vec![field("ok", "i64"), nested, both]);
    assert_eq!(input.validate(), Err(ConfigError::RenamedFlatten));
    let indices: Vec<usize> = input.fields().iter().map(|f| f.index).collect();
    assert_eq!(indices, vec![0, 1, 2]);
}

#[test]
fn column_name_and_target_type() {
    let mut f = field("a", "Wrapper");
    assert_eq!(f.column_name(), "a");
    assert_eq!(f.target_ty(), Ok("Wrapper".to_string()));
    f.rename = Some("alpha".to_string());
    assert_eq!(f.column_name(), "alpha");
    f.try_from = Some("i32".to_string());
    assert_eq!(f.target_ty(), Ok("i32".to_string()));
    f.from = Some("Option<i64>".to_string());
    assert_eq!(f.target_ty(), Ok("Option<i64>".to_string()));
}

#[test]
fn unreadable_conversion_type_is_a_parse_error() {
    let mut f = field("a", "Wrapper");
    f.from = Some("(i64".to_string());
    assert_eq!(f.target_ty(), Err(ParseError { expr: "(i64".to_string() }));
    assert_eq!(
        try_derive_from_row(record(vec![field_copy(&f)])).err(),
        Some(DeriveError::Parse(ParseError { expr: "(i64".to_string() }))
    );
    assert_eq!(
        try_derive_reflect_row(record(vec![field_copy(&f)])).err(),
        Some(DeriveError::Parse(ParseError { expr: "(i64".to_string() }))
    );
    // The declared value is projected directly: the conversion is not consulted.
    assert!(try_derive_to_row(record(vec![f])).is_ok());
}

#[test]
fn target_type_follows_the_reading() {
    let expr = "Vec<u8>".to_string();
    let read = "Vec<u8>".parse::<proc_macro2::TokenStream>();
    assert_eq!(resolve_target(&expr, read), Ok("Vec<u8>".to_string()));
    let expr = "Vec<u8>)".to_string();
    let read = "Vec<u8>)".parse::<proc_macro2::TokenStream>();
    assert_eq!(resolve_target(&expr, read), Err(ParseError { expr: "Vec<u8>)".to_string() }));
}

fn ty(name: &str) -> String {
    name.to_string()
}

#[test]
fn requirements_of_the_extract_contract() {
    let plain = field("a", "i64");
    let mut from = field("b", "Wrapper");
    from.from = Some("i32".to_string());
    let mut try_from = field("c", "Small");
    try_from.try_from = Some("u64".to_string());
    let mut nested = field("d", "Inner");
    nested.flatten = true;
    let input = record(vec![plain, from, try_from, nested]);
    assert_eq!(
        input.predicates_from(),
        Ok(vec![
            Requirement::ScalarExtract { ty: ty("i64") },
            Requirement::ScalarExtract { ty: ty("i32") },
            Requirement::ConvertsFrom { ty: ty("Wrapper"), source: ty("i32") },
            Requirement::ScalarExtract { ty: ty("u64") },
            Requirement::TryConvertsFrom { ty: ty("Small"), source: ty("u64") },
            Requirement::ErrorConverts { ty: ty("Small"), source: ty("u64") },
            Requirement::ErrorDebug { ty: ty("Small"), source: ty("u64") },
            Requirement::RecordExtract { ty: ty("Inner") },
        ])
    );
}

#[test]
fn requirements_of_the_project_and_reflect_contracts() {
    let plain = field("a", "i64");
    let mut from = field("b", "Wrapper");
    from.from = Some("i32".to_string());
    let mut nested = field("d", "Inner");
    nested.flatten = true;
    let input = record(vec![plain, from, nested]);
    assert_eq!(
        input.predicates_to(),
        Ok(vec![
            Requirement::ScalarProject { ty: ty("i64") },
            Requirement::ScalarProject { ty: ty("Wrapper") },
            Requirement::RecordProject { ty: ty("Inner") },
        ])
    );
    assert_eq!(
        input.predicates_reflect(),
        Ok(vec![
            Requirement::ScalarReflect { ty: ty("i64") },
            Requirement::ScalarReflect { ty: ty("i32") },
            Requirement::RecordReflect { ty: ty("Inner") },
        ])
    );
    let mut gathered = vec![Requirement::ScalarProject { ty: ty("first") }];
    assert_eq!(input.fields()[1].add_predicates_to(&mut gathered), Ok(()));
    assert_eq!(input.fields()[1].add_predicates_reflect(&mut gathered), Ok(()));
    assert_eq!(input.fields()[1].add_predicates_from(&mut gathered), Ok(()));
    assert_eq!(
        gathered,
        vec![
            Requirement::ScalarProject { ty: ty("first") },
            Requirement::ScalarProject { ty: ty("Wrapper") },
            Requirement::ScalarReflect { ty: ty("i32") },
            Requirement::ScalarExtract { ty: ty("i32") },
            Requirement::ConvertsFrom { ty: ty("Wrapper"), source: ty("i32") },
        ]
    );
    assert_eq!(Direction::Extract, Direction::Extract);
}

#[test]
fn generated_contracts_hold_the_description() {
    let mut renamed = field("b", "Wrapper");
    renamed.rename = Some("beta".to_string());
    renamed.try_from = Some("i32".to_string());
    let fields = || vec![field("a", "i64"), field_copy(&renamed)];
    let extract = try_derive_from_row(record(fields())).unwrap();
    assert_eq!(extract.ident(), "Foo");
    assert_eq!(extract.generics(), vec!["T".to_string()]);
    assert_eq!(extract.predicates().len(), 5);
    let second = &extract.fields()[1];
    assert_eq!(second.ident, "b");
    assert_eq!(second.index, 1);
    assert_eq!(second.column_name, "beta");
    assert_eq!(second.ty, "Wrapper");
    assert_eq!(second.target_ty, "i32");
    assert_eq!(second.conversion, Conversion::TryFrom);
    assert_eq!(extract.fields()[0].conversion, Conversion::Direct);

    let project = try_derive_to_row(record(fields())).unwrap();
    assert_eq!(project.ident(), "Foo");
    assert_eq!(project.generics(), vec!["T".to_string()]);
    assert_eq!(project.predicates().len(), 2);
    assert_eq!(project.fields()[1].ident, "b");
    assert_eq!(project.fields()[1].ty, "Wrapper");

    let reflect = try_derive_reflect_row(record(fields())).unwrap();
    assert_eq!(reflect.ident(), "Foo");
    assert_eq!(reflect.generics(), vec!["T".to_string()]);
    assert_eq!(reflect.predicates().len(), 2);
    assert_eq!(reflect.columns(), vec!["a", "beta"]);
}

#[test]
fn conversion_failure_passes_through_the_row() {
    let extract = try_derive_from_row(record(vec![field("a", "i64"), field("b", "i64")])).unwrap();
    let labels = vec!["a".to_string(), "wrong".to_string()];
    // The first field fails on its value before the second label is looked at.
    let r = extract.from_gluesql_row::<i64>(&labels, vec![Value::Null, Value::I64(1)]);
    assert_eq!(r, Err(Error::InvalidConversion("i64", Value::Null)));
}
