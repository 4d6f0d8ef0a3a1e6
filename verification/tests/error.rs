use gluesql::{Column, ColumnSpecification, Error, Literal, Real, Row, RowError, SqlType, ValueError};
use nom_sql::SqlQuery;

fn sql_type(sql_type: nom_sql::SqlType) -> SqlType {
    match sql_type {
        nom_sql::SqlType::Bool => SqlType::Bool,
        nom_sql::SqlType::Char(len) => SqlType::Char(len),
        nom_sql::SqlType::Varchar(len) => SqlType::Varchar(len),
        nom_sql::SqlType::Int(len) => SqlType::Int(len),
        nom_sql::SqlType::UnsignedInt(len) => SqlType::UnsignedInt(len),
        nom_sql::SqlType::Bigint(len) => SqlType::Bigint(len),
        nom_sql::SqlType::UnsignedBigint(len) => SqlType::UnsignedBigint(len),
        nom_sql::SqlType::Tinyint(len) => SqlType::Tinyint(len),
        nom_sql::SqlType::UnsignedTinyint(len) => SqlType::UnsignedTinyint(len),
        nom_sql::SqlType::Blob => SqlType::Blob,
        nom_sql::SqlType::Longblob => SqlType::Longblob,
        nom_sql::SqlType::Mediumblob => SqlType::Mediumblob,
        nom_sql::SqlType::Tinyblob => SqlType::Tinyblob,
        nom_sql::SqlType::Double => SqlType::Double,
        nom_sql::SqlType::Float => SqlType::Float,
        nom_sql::SqlType::Real => SqlType::Real,
        nom_sql::SqlType::Tinytext => SqlType::Tinytext,
        nom_sql::SqlType::Mediumtext => SqlType::Mediumtext,
        nom_sql::SqlType::Longtext => SqlType::Longtext,
        nom_sql::SqlType::Text => SqlType::Text,
        nom_sql::SqlType::Date => SqlType::Date,
        nom_sql::SqlType::DateTime(len) => SqlType::DateTime(len),
        nom_sql::SqlType::Timestamp => SqlType::Timestamp,
        nom_sql::SqlType::Binary(len) => SqlType::Binary(len),
        nom_sql::SqlType::Varbinary(len) => SqlType::Varbinary(len),
        nom_sql::SqlType::Enum(_) => SqlType::Enum,
        nom_sql::SqlType::Decimal(precision, scale) => SqlType::Decimal(precision, scale),
    }
}

fn literal(literal: nom_sql::Literal) -> Literal {
    match literal {
        nom_sql::Literal::Null => Literal::Null,
        nom_sql::Literal::Integer(v) => Literal::Integer(v),
        nom_sql::Literal::UnsignedInteger(v) => Literal::UnsignedInteger(v),
        nom_sql::Literal::FixedPoint(v) => {
            Literal::FixedPoint(Real { integral: v.integral, fractional: v.fractional })
        }
        nom_sql::Literal::String(v) => Literal::String(v),
        nom_sql::Literal::Blob(v) => Literal::Blob(v),
        nom_sql::Literal::CurrentTime => Literal::CurrentTime,
        nom_sql::Literal::CurrentDate => Literal::CurrentDate,
        nom_sql::Literal::CurrentTimestamp => Literal::CurrentTimestamp,
        nom_sql::Literal::Placeholder => Literal::Placeholder,
    }
}

fn schema_of(sql: &str) -> Vec<ColumnSpecification> {
    match nom_sql::parse_query(sql) {
        Ok(SqlQuery::CreateTable(statement)) => statement
            .fields
            .into_iter()
            .map(|field| ColumnSpecification {
                column: Column { name: field.column.name },
                sql_type: sql_type(field.sql_type),
            })
            .collect(),
        other => panic!("not a table definition: {:?}", other),
    }
}

fn insert(schema: &[ColumnSpecification], sql: &str) -> Result<Row, Error> {
    match nom_sql::parse_query(sql) {
        Ok(SqlQuery::Insert(statement)) => {
            let fields: Option<Vec<Column>> = statement
                .fields
                .map(|fields| fields.into_iter().map(|c| Column { name: c.name }).collect());
            let data: Vec<Vec<Literal>> = statement
                .data
                .into_iter()
                .map(|row| row.into_iter().map(literal).collect())
                .collect();
            Row::new(schema.to_vec(), &fields, &data)
        }
        other => panic!("not an insertion: {:?}", other),
    }
}

#[test]
fn error() {
    let table_a = schema_of("CREATE TABLE TableA (id INTEGER);");
    assert!(insert(&table_a, "INSERT INTO TableA (id) VALUES (1);").is_ok());

    let test_cases = vec![
        (
            RowError::LackOfRequiredColumn("id".to_owned()).into(),
            "INSERT INTO TableA () VALUES ();",
        ),
        (
            RowError::LackOfRequiredValue("id".to_owned()).into(),
            "INSERT INTO TableA VALUES ();",
        ),
    ];

    test_cases
        .into_iter()
        .for_each(|(error, sql): (Error, &str)| assert_eq!(insert(&table_a, sql), Err(error)));

    let table_b = schema_of("CREATE TABLE TableB (id BOOL);");
    assert_eq!(
        insert(&table_b, "INSERT INTO TableB (id) VALUES (0);"),
        Err(ValueError::SqlTypeNotSupported.into())
    );
}

#[test]
fn parsed_insertion_builds_the_row() {
    let schema = schema_of("CREATE TABLE People (id INTEGER, name TEXT);");
    let row = insert(&schema, "INSERT INTO People (name, id) VALUES (\"ann\", 3);").unwrap();
    assert_eq!(row.get_value(0), Some(&gluesql::Value::I64(3)));
    assert_eq!(row.get_value(1), Some(&gluesql::Value::String("ann".to_owned())));
    assert_eq!(row.get_value(2), None);
}
