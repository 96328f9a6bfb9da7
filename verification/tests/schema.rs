//! Schema descriptions: declaration-time validation, connection-string
//! recognition, and reading CREATE TABLE definitions.

use sky_orm::entity::{Entity, EntityError};
use sky_orm::sqlparse::db::DbType;
use sky_orm::sqlparse::query::{parse_tables, SchemaParseError};
use sky_orm::sqlparse::schema::{RawColumnOption, SqlColumn, SqlSchema};

#[test]
fn column_rules_read_the_option_list_in_order() {
    let column = SqlColumn::from_parts(
        "c".to_string(),
        "INTEGER".to_string(),
        vec![
            RawColumnOption::NotNull,
            RawColumnOption::Null,
            RawColumnOption::Unique,
        ],
    );
    assert!(!column.nullable);
    assert!(column.unique && !column.primary_key);
    assert!(column.foreign_key.is_none());

    let fk_col = SqlColumn::from_parts(
        "c".to_string(),
        "INTEGER".to_string(),
        vec![
            RawColumnOption::ForeignKey {
                target_tables: Vec::new(),
                target_columns: vec!["x".to_string()],
            },
            RawColumnOption::ForeignKey {
                target_tables: vec!["s".to_string(), "t".to_string()],
                target_columns: vec!["id".to_string()],
            },
        ],
    );
    let fk = fk_col.foreign_key.expect("the second option qualifies");
    assert_eq!(fk.target_table, "t");
    assert_eq!(fk.target_column, "id");
    assert!(fk_col.nullable);
}

#[test]
fn test_create_table() {
    let query = "CREATE TABLE `test`(
          `id` INTEGER NOT NULL PRIMARY KEY,
          `name` TEXT NOT NULL,
          `something_nullable` TEXT
        )";

    let tables = parse_tables(query).expect("Failed to parse query");

    let parsed = tables.first().expect("Failed to get first table");

    assert_eq!(parsed.name, "test");
    assert!(
        parsed
            .columns
            .iter()
            .any(|e| e.name.eq("id") && !e.nullable)
    );
    assert!(
        parsed
            .columns
            .iter()
            .any(|e| e.name.eq("name") && !e.nullable)
    );
    assert!(
        parsed
            .columns
            .iter()
            .any(|e| e.name.eq("something_nullable") && e.nullable)
    );
}

#[test]
fn primary_key_and_unique_flags_are_read_off_the_options() {
    let query = "CREATE TABLE t(
          id INTEGER NOT NULL PRIMARY KEY,
          code TEXT UNIQUE,
          label TEXT
        )";
    let tables = parse_tables(query).expect("query should parse");
    let table = tables.first().expect("one table expected");
    assert_eq!(table.primary_key.as_deref(), Some("id"));

    let id = table.find_column("id").expect("id column expected");
    assert!(id.primary_key && id.unique && !id.nullable);

    let code = table.find_column("code").expect("code column expected");
    assert!(!code.primary_key && code.unique && code.nullable);

    let label = table.find_column("label").expect("label column expected");
    assert!(!label.primary_key && !label.unique && label.nullable);
    assert!(table.find_column("absent").is_none());
}

#[test]
fn foreign_keys_record_target_table_and_column() {
    let query = "CREATE TABLE child(
          id INTEGER PRIMARY KEY,
          parent_id INTEGER REFERENCES parent (id)
        )";
    let tables = parse_tables(query).expect("query should parse");
    let table = tables.first().expect("one table expected");
    let column = table.find_column("parent_id").expect("column expected");
    let fk = column.foreign_key.as_ref().expect("foreign key expected");
    assert_eq!(fk.target_table, "parent");
    assert_eq!(fk.target_column, "id");
}

#[test]
fn statements_other_than_create_table_are_passed_over() {
    let query = "SELECT 1; CREATE TABLE only_one(id INTEGER PRIMARY KEY)";
    let tables = parse_tables(query).expect("query should parse");
    assert_eq!(tables.len(), 1);
    assert_eq!(tables[0].name, "only_one");
}

#[test]
fn unparsable_sql_is_a_schema_parse_error() {
    let result = parse_tables("CREATE TABLE (((");
    assert!(matches!(
        result,
        Err(SchemaParseError::Syntax(_)) | Err(SchemaParseError::Tokenizer(_))
    ));
}

#[test]
fn tables_come_back_in_statement_order() {
    let query = "CREATE TABLE b(id INTEGER PRIMARY KEY); CREATE TABLE a(id INTEGER PRIMARY KEY)";
    let tables = parse_tables(query).expect("query should parse");
    assert_eq!(tables.len(), 2);
    assert_eq!(tables[0].name, "b");
    assert_eq!(tables[1].name, "a");
}

#[test]
fn find_table_picks_the_first_by_name() {
    let query = "CREATE TABLE a(id INTEGER PRIMARY KEY); CREATE TABLE b(id INTEGER PRIMARY KEY)";
    let tables = parse_tables(query).expect("query should parse");
    let schema = SqlSchema { tables };
    assert_eq!(schema.find_table("b").expect("table b expected").name, "b");
    assert!(schema.find_table("c").is_none());
}

#[test]
fn connection_strings_are_recognized_by_prefix() {
    assert!(matches!(
        DbType::from_connection_string("postgres://localhost/db"),
        Some(DbType::Postgres)
    ));
    assert!(matches!(
        DbType::from_connection_string("postgresql://localhost/db"),
        Some(DbType::Postgres)
    ));
    assert!(matches!(
        DbType::from_connection_string("SQLite::memory:"),
        Some(DbType::Sqlite)
    ));
    assert!(matches!(
        DbType::from_connection_string("MySQL://localhost"),
        Some(DbType::MySql)
    ));
    assert!(DbType::from_connection_string("oracle://localhost").is_none());
    assert!(DbType::from_connection_string("").is_none());
}

#[test]
fn entity_validation_rejects_duplicates_then_missing_primary_key() {
    let duplicate = Entity::new(
        "t".to_string(),
        vec!["id".to_string(), "name".to_string(), "id".to_string()],
        "id".to_string(),
    );
    match duplicate {
        Err(EntityError::DuplicateColumn(c)) => assert_eq!(c, "id"),
        _ => panic!("a repeated column name must be rejected"),
    }

    let missing = Entity::new(
        "t".to_string(),
        vec!["a".to_string(), "b".to_string()],
        "id".to_string(),
    );
    assert!(matches!(missing, Err(EntityError::MissingPrimaryKey)));

    let ok = Entity::new(
        "t".to_string(),
        vec!["id".to_string(), "name".to_string()],
        "id".to_string(),
    );
    assert!(ok.is_ok());
}
