//! Row hydration and the change-tracking active form.

use sky_orm::entity::model::{into_active, ActiveModelValue};
use sky_orm::entity::Entity;
use sky_orm::query::parse::{all_from_rows, one_from_rows, parse_record, QueryError, Row, RowField};
use sky_orm::query::Value;

fn entity() -> Entity {
    Entity::new(
        "entity".to_string(),
        vec!["id".to_string(), "name".to_string()],
        "id".to_string(),
    )
    .expect("entity descriptor should be valid")
}

fn field(name: &str, value: Value) -> RowField {
    RowField { name: name.to_string(), value }
}

#[test]
fn parse_record_looks_fields_up_by_name_not_position() {
    let row = Row {
        fields: vec![
            field("name", Value::Text("August".to_string())),
            field("id", Value::Int(1)),
        ],
    };
    let record = parse_record(&entity(), &row).expect("row should parse");
    assert_eq!(record.len(), 2);
    assert!(record[0].eq_value(&Value::Int(1)));
    assert!(record[1].eq_value(&Value::Text("August".to_string())));
}

#[test]
fn parse_record_reports_the_missing_column() {
    let row = Row { fields: vec![field("id", Value::Int(1))] };
    let result = parse_record(&entity(), &row);
    match result {
        Err(QueryError::ColumnNotFound(c)) => assert_eq!(c, "name"),
        _ => panic!("a missing column must abort the row"),
    }
}

#[test]
fn parse_record_reports_the_first_of_several_missing_columns() {
    let row = Row { fields: vec![field("unrelated", Value::Int(9))] };
    let result = parse_record(&entity(), &row);
    match result {
        Err(QueryError::ColumnNotFound(c)) => assert_eq!(c, "id"),
        _ => panic!("a missing column must abort the row"),
    }
}

#[test]
fn all_from_rows_returns_empty_for_no_rows() {
    let rows: Vec<Row> = Vec::new();
    let records = all_from_rows(&entity(), &rows).expect("no rows is a normal outcome");
    assert_eq!(records.len(), 0);
}

#[test]
fn all_from_rows_aborts_on_the_first_bad_row() {
    let good = Row {
        fields: vec![field("id", Value::Int(1)), field("name", Value::Null)],
    };
    let missing_name = Row { fields: vec![field("id", Value::Int(2))] };
    let missing_id = Row { fields: vec![field("name", Value::Null)] };
    let rows = vec![good, missing_name, missing_id];
    let result = all_from_rows(&entity(), &rows);
    match result {
        Err(QueryError::ColumnNotFound(c)) => assert_eq!(c, "name"),
        _ => panic!("the first bad row's first missing column must be reported"),
    }
}

#[test]
fn one_from_rows_distinguishes_row_not_found() {
    let rows: Vec<Row> = Vec::new();
    assert!(matches!(
        one_from_rows(&entity(), &rows),
        Err(QueryError::RowNotFound)
    ));
    let rows = vec![Row {
        fields: vec![field("id", Value::Int(1)), field("name", Value::Null)],
    }];
    let record = one_from_rows(&entity(), &rows).expect("one row should parse");
    assert!(record[0].eq_value(&Value::Int(1)));
}

#[test]
fn freshly_parsed_record_converts_to_all_unchanged() {
    let values = vec![Value::Int(1), Value::Text("August".to_string()), Value::Null];
    let active = into_active(values.clone());
    assert_eq!(active.len(), values.len());
    for (slot, original) in active.iter().zip(values.iter()) {
        match slot {
            ActiveModelValue::Unchanged(v) => assert!(v.eq_value(original)),
            _ => panic!("every field of a fresh record must be Unchanged"),
        }
    }
}

#[test]
fn active_value_lifecycle_follows_set_clear_mark() {
    let mut slot: ActiveModelValue<Value> = ActiveModelValue::Unchanged(Value::Int(1));
    assert!(slot.get().is_some());

    slot.set(Value::Int(2));
    assert!(matches!(&slot, ActiveModelValue::Assigned(v) if v.eq_value(&Value::Int(2))));
    assert!(slot.get().unwrap().eq_value(&Value::Int(2)));

    slot.mark_unchanged();
    assert!(matches!(&slot, ActiveModelValue::Unchanged(v) if v.eq_value(&Value::Int(2))));

    slot.mark_unchanged();
    assert!(matches!(&slot, ActiveModelValue::Unchanged(_)));

    slot.clear();
    assert!(matches!(slot, ActiveModelValue::NotSet));
    assert!(slot.get().is_none());

    slot.mark_unchanged();
    assert!(matches!(slot, ActiveModelValue::NotSet));
}
