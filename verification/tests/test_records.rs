use gluesql_core::query_builder::{ExprNode, NumericNode};
use gluesql_derive::{
    try_derive_from_row, try_derive_reflect_row, try_derive_to_row, DeriveGluesqlRow, Error,
    ExprModel, FromGlueSql, FromGlueSqlRow, GluesqlField, ReflectGlueSql, ReflectGlueSqlRow,
    RowCursor, ToGlueSql, ToGlueSqlRow, Value,
};

fn field(ident: &str, ty: &str) -> GluesqlField {
    GluesqlField {
        index: 0,
        ident: ident.to_string(),
        ty: ty.to_string(),
        flatten: false,
        try_from: None,
        from: None,
        rename: None,
    }
}

/// A record type with its three contracts written out by hand.
#[derive(Debug, PartialEq)]
struct User {
    id: u64,
    name: Option<String>,
}

fn user() -> DeriveGluesqlRow {
    let mut name = field("name", "Option<String>");
    name.rename = Some("username".to_string());
    DeriveGluesqlRow {
        ident: "User".to_string(),
        generics: vec![],
        fields: vec![field("id", "u64"), name],
    }
}

impl FromGlueSqlRow for User {
    fn from_gluesql_row(labels: &[String], row: Vec<Value>) -> Result<Self, Error> {
        let contract = try_derive_from_row(user()).unwrap();
        let fields = contract.fields();
        let mut row = RowCursor::new(row);
        Ok(User {
            id: fields[0].extract(labels, &mut row)?,
            name: fields[1].extract(labels, &mut row)?,
        })
    }
}

impl ToGlueSqlRow for User {
    fn to_gluesql_row(&self) -> Vec<ExprNode<'static>> {
        let contract = try_derive_to_row(user()).unwrap();
        let fields = contract.fields();
        vec![fields[0].project(&self.id), fields[1].project(&self.name)]
    }
}

impl ReflectGlueSqlRow for User {
    fn get_ddl(table: &str) -> String {
        let contract = try_derive_reflect_row(user()).unwrap();
        contract.get_ddl(
            table,
            &[
                u64::reflect_gluesql_type_with_nullability(),
                <Option<String>>::reflect_gluesql_type_with_nullability(),
            ],
        )
    }

    fn columns() -> Vec<&'static str> {
        vec!["id", "username"]
    }
}

fn labels() -> Vec<String> {
    vec!["id".to_string(), "username".to_string()]
}

#[test]
fn record_is_extracted_from_its_row() {
    let row = vec![Value::U64(7), Value::Str("ann".to_string())];
    assert_eq!(
        User::from_gluesql_row(&labels(), row),
        Ok(User { id: 7, name: Some("ann".to_string()) })
    );
    let row = vec![Value::U64(8), Value::Null];
    assert_eq!(User::from_gluesql_row(&labels(), row), Ok(User { id: 8, name: None }));
}

#[test]
fn rows_extract_to_records_in_order() {
    let rows = vec![
        vec![Value::U64(1), Value::Null],
        vec![Value::U64(2), Value::Str("bob".to_string())],
    ];
    assert_eq!(
        User::from_gluesql_rows(&labels(), rows),
        Ok(vec![User { id: 1, name: None }, User { id: 2, name: Some("bob".to_string()) }])
    );
    assert_eq!(User::from_gluesql_rows(&labels(), vec![]), Ok(vec![]));
}

#[test]
fn malformed_second_row_fails_the_batch() {
    let rows = vec![
        vec![Value::U64(1), Value::Null],
        vec![Value::U64(2)],
        vec![Value::U64(3), Value::Null],
    ];
    assert_eq!(
        User::from_gluesql_rows(&labels(), rows),
        Err(Error::InvalidExtract(1, "username".to_string()))
    );
    let rows = vec![vec![Value::U64(1), Value::Null], vec![Value::I64(2), Value::Null]];
    assert_eq!(
        User::from_gluesql_rows(&labels(), rows),
        Err(Error::InvalidConversion("u64", Value::I64(2)))
    );
}

#[test]
fn identifier_is_no_label_for_a_renamed_column() {
    let row = vec![Value::U64(7), Value::Null];
    assert_eq!(
        User::from_gluesql_row(&["id".to_string(), "name".to_string()], row),
        Err(Error::InvalidFieldName(1, "username".to_string(), "name".to_string()))
    );
}

#[test]
fn record_is_written_in_declared_order() {
    let row = User { id: 7, name: None }.to_gluesql_row();
    assert_eq!(row.len(), 2);
    assert!(matches!(&row[0], ExprNode::Numeric(NumericNode::U64(7))));
    let row = User { id: 7, name: Some("ann".to_string()) }.to_gluesql_row();
    assert!(matches!(&row[1], ExprNode::QuotedString(s) if s == "ann"));
}

#[test]
fn record_has_its_table() {
    assert_eq!(User::columns(), vec!["id", "username"]);
    assert_eq!(
        User::get_ddl("users"),
        "CREATE TABLE IF NOT EXISTS users (\nid UINT64 NOT NULL, \nusername TEXT NULL);"
    );
}

/// A host type of the caller's own.
#[derive(Debug, PartialEq)]
enum Level {
    Low,
    High,
}

impl FromGlueSql for Level {
    type Model = bool;

    fn model(&self) -> bool {
        matches!(self, Level::High)
    }

    fn decode(value: Value) -> Option<bool> {
        match value {
            Value::Bool(b) => Some(b),
            _ => None,
        }
    }

    fn rejects(value: Value, error: Error) -> bool {
        error == Error::InvalidConversion("Level", value)
    }

    fn from_gluesql(value: Value) -> Result<Self, Error> {
        match value {
            Value::Bool(false) => Ok(Level::Low),
            Value::Bool(true) => Ok(Level::High),
            _ => Err(Error::InvalidConversion("Level", value)),
        }
    }
}

impl ToGlueSql for Level {
    fn projectable(&self) -> bool {
        true
    }

    fn projects(&self, expr: ExprModel) -> bool {
        self.model().projects(expr)
    }

    fn to_gluesql(&self) -> ExprNode<'static> {
        matches!(self, Level::High).to_gluesql()
    }
}

impl ReflectGlueSql for Level {
    fn schema_type() -> &'static str {
        "BOOLEAN"
    }

    fn nullable() -> bool {
        false
    }

    fn reflect_gluesql_type() -> String {
        "BOOLEAN".to_string()
    }

    fn reflect_gluesql_type_with_nullability() -> String {
        "BOOLEAN NOT NULL".to_string()
    }
}

#[test]
fn host_type_of_the_caller() {
    assert_eq!(<Vec<Level>>::from_gluesql(Value::List(vec![Value::Bool(true)])), Ok(vec![Level::High]));
    assert_eq!(
        <Option<Level>>::from_gluesql(Value::I8(1)),
        Err(Error::InvalidConversion("Level", Value::I8(1)))
    );
    let contract = try_derive_from_row(DeriveGluesqlRow {
        ident: "Levels".to_string(),
        generics: vec![],
        fields: vec![field("a", "Level"), field("b", "Level")],
    })
    .unwrap();
    let names = vec!["a".to_string(), "b".to_string()];
    assert_eq!(
        contract.from_gluesql_row::<Level>(&names, vec![Value::Bool(false), Value::Bool(true)]),
        Ok(vec![Level::Low, Level::High])
    );
    assert!(matches!(Level::Low.to_gluesql(), ExprNode::Expr(_)));
    assert_eq!(<Option<Level>>::reflect_gluesql_type_with_nullability(), "BOOLEAN NULL");
}

#[derive(Debug, PartialEq)]
struct Celsius(i64);

impl From<i64> for Celsius {
    fn from(degrees: i64) -> Self {
        Celsius(degrees)
    }
}

#[derive(Debug, PartialEq)]
struct Percent(u8);

impl TryFrom<i64> for Percent {
    type Error = String;

    fn try_from(value: i64) -> Result<Self, String> {
        if (0..=100).contains(&value) {
            Ok(Percent(value as u8))
        } else {
            Err(format!("{} is no percentage", value))
        }
    }
}

#[test]
fn conversions_reach_the_declared_type() {
    let mut warmth = field("warmth", "Celsius");
    warmth.from = Some("i64".to_string());
    let mut share = field("share", "Percent");
    share.try_from = Some("i64".to_string());
    let contract = try_derive_from_row(DeriveGluesqlRow {
        ident: "Reading".to_string(),
        generics: vec![],
        fields: vec![warmth, share],
    })
    .unwrap();
    let fields = contract.fields();
    let names = vec!["warmth".to_string(), "share".to_string()];

    let mut row = RowCursor::new(vec![Value::I64(-5), Value::I64(40), Value::I64(150)]);
    assert_eq!(fields[0].extract_from::<i64, Celsius>(&names, &mut row), Ok(Celsius(-5)));
    assert_eq!(fields[1].extract_try_from::<i64, Percent>(&names, &mut row), Ok(Ok(Percent(40))));
    assert_eq!(
        fields[1].extract_try_from::<i64, Percent>(&names, &mut row),
        Ok(Err("150 is no percentage".to_string()))
    );
    assert_eq!(
        fields[1].extract_try_from::<i64, Percent>(&names, &mut row),
        Err(Error::InvalidExtract(1, "share".to_string()))
    );

    let mut row = RowCursor::new(vec![Value::Bool(true)]);
    assert_eq!(
        fields[0].extract_from::<i64, Celsius>(&names, &mut row),
        Err(Error::InvalidConversion("i64", Value::Bool(true)))
    );
    assert_eq!(row.next(), None);
}

#[test]
fn cursor_hands_out_values_in_order() {
    let mut row = RowCursor::new(vec![Value::I64(1), Value::Null, Value::Bool(false)]);
    assert_eq!(row.next(), Some(Value::I64(1)));
    assert_eq!(row.next(), Some(Value::Null));
    assert_eq!(row.next(), Some(Value::Bool(false)));
    assert_eq!(row.next(), None);
    assert_eq!(row.next(), None);
}

#[test]
fn failed_label_takes_no_value() {
    let contract = try_derive_from_row(DeriveGluesqlRow {
        ident: "One".to_string(),
        generics: vec![],
        fields: vec![field("a", "i64")],
    })
    .unwrap();
    let mut row = RowCursor::new(vec![Value::I64(1)]);
    let names = vec!["b".to_string()];
    assert_eq!(
        contract.fields()[0].extract::<i64>(&names, &mut row),
        Err(Error::InvalidFieldName(0, "a".to_string(), "b".to_string()))
    );
    assert_eq!(row.next(), Some(Value::I64(1)));
}
