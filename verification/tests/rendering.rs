//! Rendering of condition expressions and the select builder.

use sky_orm::entity::column::ColumnName;
use sky_orm::entity::Entity;
use sky_orm::query::{BinaryExprOperand, QueryExpr, QueryVariable, Value};

fn entity() -> Entity {
    Entity::new(
        "entity".to_string(),
        vec!["id".to_string(), "name".to_string(), "other_entity_id".to_string()],
        "id".to_string(),
    )
    .expect("entity descriptor should be valid")
}

fn other_entity() -> Entity {
    Entity::new(
        "other_entity".to_string(),
        vec![
            "id".to_string(),
            "amount_killed".to_string(),
            "other_amount_killed".to_string(),
        ],
        "id".to_string(),
    )
    .expect("entity descriptor should be valid")
}

fn column(table: &str, name: &str) -> ColumnName {
    ColumnName::new_with_table_or_alias(table.to_string(), name.to_string())
}

fn render(condition: QueryExpr) -> (String, Vec<Value>) {
    entity().find().filter(condition).build().into_parts()
}

fn where_clause(sql: &str) -> &str {
    let at = sql.find(" WHERE ").expect("rendered SQL should have a WHERE clause");
    &sql[at + " WHERE ".len()..]
}

#[test]
fn eq_renders_placeholder_and_binds_value() {
    let (sql, params) = render(column("entity", "name").eq(Value::Text("August".to_string())));
    assert_eq!(where_clause(&sql), "(\"entity\".\"name\" = ?)");
    assert_eq!(params.len(), 1);
    assert!(params[0].eq_value(&Value::Text("August".to_string())));
}

#[test]
fn comparison_operators_render_their_sql_spelling() {
    let cases = [
        (column("t", "c").not_eq(Value::Int(1)), "(\"t\".\"c\" != ?)"),
        (column("t", "c").gt(Value::Int(1)), "(\"t\".\"c\" > ?)"),
        (column("t", "c").lt(Value::Int(1)), "(\"t\".\"c\" < ?)"),
        (column("t", "c").geq(Value::Int(1)), "(\"t\".\"c\" >= ?)"),
        (column("t", "c").leq(Value::Int(1)), "(\"t\".\"c\" <= ?)"),
    ];
    for (condition, expected) in cases {
        let (sql, params) = render(condition);
        assert_eq!(where_clause(&sql), expected);
        assert_eq!(params.len(), 1);
    }
}

#[test]
fn like_and_ilike_append_the_pattern_as_text() {
    let (sql, params) = render(column("t", "c").like("a%".to_string()));
    assert_eq!(where_clause(&sql), "(\"t\".\"c\" LIKE a%)");
    assert_eq!(params.len(), 0);
    let (sql, params) = render(column("t", "c").ilike("a%".to_string()));
    assert_eq!(where_clause(&sql), "(\"t\".\"c\" ILIKE a%)");
    assert_eq!(params.len(), 0);
}

#[test]
fn null_checks_render_after_the_column() {
    let (sql, params) = render(column("t", "c").is_null());
    assert_eq!(where_clause(&sql), "(\"t\".\"c\" IS NULL)");
    assert_eq!(params.len(), 0);
    let (sql, _) = render(column("t", "c").is_not_null());
    assert_eq!(where_clause(&sql), "(\"t\".\"c\" IS NOT NULL)");
}

#[test]
fn in_list_binds_one_placeholder_per_element_in_input_order() {
    let values = vec![Value::Int(3), Value::Int(1), Value::Int(2)];
    let (sql, params) = render(column("t", "c").is_in(values));
    assert_eq!(where_clause(&sql), "(\"t\".\"c\" IN (?, ?, ?))");
    assert!(params[0].eq_value(&Value::Int(3)));
    assert!(params[1].eq_value(&Value::Int(1)));
    assert!(params[2].eq_value(&Value::Int(2)));
}

#[test]
fn not_in_list_renders_not_in() {
    let (sql, params) = render(column("t", "c").is_not_in(vec![Value::Int(0), Value::Int(1)]));
    assert_eq!(where_clause(&sql), "(\"t\".\"c\" NOT IN (?, ?))");
    assert_eq!(params.len(), 2);
}

#[test]
fn empty_in_list_renders_empty_parentheses() {
    let (sql, params) = render(column("t", "c").is_in(Vec::new()));
    assert_eq!(where_clause(&sql), "(\"t\".\"c\" IN ())");
    assert_eq!(params.len(), 0);
}

#[test]
fn between_binds_left_before_right() {
    let (sql, params) = render(column("t", "c").between(
        Value::Text("August".to_string()),
        Value::Text("Gustav".to_string()),
    ));
    assert_eq!(where_clause(&sql), "(\"t\".\"c\" BETWEEN ? AND ?)");
    assert_eq!(params.len(), 2);
    assert!(params[0].eq_value(&Value::Text("August".to_string())));
    assert!(params[1].eq_value(&Value::Text("Gustav".to_string())));
}

#[test]
fn not_between_renders_not_between() {
    let (sql, _) = render(column("t", "c").not_between(Value::Int(1), Value::Int(2)));
    assert_eq!(where_clause(&sql), "(\"t\".\"c\" NOT BETWEEN ? AND ?)");
}

#[test]
fn and_or_and_brackets_compose_without_implicit_bracketing() {
    let condition = column("t", "a")
        .lt(Value::Int(69))
        .or(column("t", "b").gt(Value::Int(51)))
        .brackets()
        .and(column("t", "c").eq(Value::Int(0)));
    let (sql, params) = render(condition);
    assert_eq!(
        where_clause(&sql),
        "((\"t\".\"a\" < ? OR \"t\".\"b\" > ?) AND \"t\".\"c\" = ?)"
    );
    assert_eq!(params.len(), 3);
}

#[test]
fn full_column_names_render_quoted_and_qualified() {
    let e = entity();
    let name = e.full_column_name(&"name".to_string());
    assert_eq!(name.sql_string(), "\"entity\".\"name\"");
    assert_eq!(name.column_name(), "name");
    assert_eq!(name.table_or_alias(), Some(&"entity".to_string()));

    let bare = ColumnName::new_bare("name".to_string());
    assert_eq!(bare.sql_string(), "\"name\"");
    assert!(bare.table_or_alias().is_none());

    assert_eq!(e.column_index(&"other_entity_id".to_string()), Some(2));
    assert_eq!(e.column_index(&"absent".to_string()), None);
}

#[test]
fn single_filter_renders_bracketed_without_and() {
    let q = entity().find().filter(column("entity", "name").is_null());
    assert_eq!(
        q.query(),
        "SELECT \"entity\".\"id\", \"entity\".\"name\", \"entity\".\"other_entity_id\" \
         FROM entity WHERE (\"entity\".\"name\" IS NULL)"
    );
}

#[test]
fn filters_fold_into_and_chain_in_insertion_order() {
    let q = entity()
        .find()
        .filter(column("entity", "name").eq(Value::Text("a".to_string())))
        .filter(column("entity", "id").gt(Value::Int(1)))
        .filter(column("entity", "other_entity_id").is_not_null());
    let (sql, params) = q.build().into_parts();
    assert_eq!(
        where_clause(&sql),
        "(\"entity\".\"name\" = ?) AND (\"entity\".\"id\" > ?) AND (\"entity\".\"other_entity_id\" IS NOT NULL)"
    );
    assert_eq!(params.len(), 2);
    assert!(params[0].eq_value(&Value::Text("a".to_string())));
    assert!(params[1].eq_value(&Value::Int(1)));
}

#[test]
fn select_without_conditions_has_no_where_clause() {
    let q = entity().find();
    assert_eq!(
        q.query(),
        "SELECT \"entity\".\"id\", \"entity\".\"name\", \"entity\".\"other_entity_id\" FROM entity"
    );
}

#[test]
fn query_is_repeatable_and_stable() {
    let q = entity().find().filter(column("entity", "id").eq(Value::Int(7)));
    let first = q.query();
    let second = q.query();
    assert_eq!(first, second);
}

#[test]
fn example_query_renders_with_values_in_order() {
    let between = QueryExpr::Binary {
        operand: BinaryExprOperand::Between,
        left: Box::new(QueryExpr::Fragment("name".to_string())),
        right: Box::new(QueryExpr::Binary {
            operand: BinaryExprOperand::And,
            left: Box::new(QueryExpr::Variable(QueryVariable::new(Value::Text(
                "August".to_string(),
            )))),
            right: Box::new(QueryExpr::Variable(QueryVariable::new(Value::Text(
                "Gustav".to_string(),
            )))),
        }),
    };
    let q = entity().find().filter(between).where_inverse_relation(
        column("other_entity", "amount_killed").gt(Value::Int(5)),
        &other_entity(),
        &"other_entity_id".to_string(),
    );
    let (sql, params) = q.build().into_parts();
    assert_eq!(
        sql,
        "SELECT \"entity\".\"id\", \"entity\".\"name\", \"entity\".\"other_entity_id\" \
         FROM entity, other_entity \
         WHERE (name BETWEEN ? AND ?) AND (\"other_entity\".\"amount_killed\" > ? \
         AND \"entity\".\"other_entity_id\" = \"other_entity\".\"id\")"
    );
    assert_eq!(params.len(), 3);
    assert!(params[0].eq_value(&Value::Text("August".to_string())));
    assert!(params[1].eq_value(&Value::Text("Gustav".to_string())));
    assert!(params[2].eq_value(&Value::Int(5)));
}

#[test]
fn where_relation_adds_one_equality_and_one_from_table() {
    let q = other_entity().find().where_relation(
        column("entity", "name").eq(Value::Text("August Heinrich".to_string())),
        &entity(),
        &"other_entity_id".to_string(),
    );
    let (sql, params) = q.build().into_parts();
    assert_eq!(
        sql,
        "SELECT \"other_entity\".\"id\", \"other_entity\".\"amount_killed\", \
         \"other_entity\".\"other_amount_killed\" FROM other_entity, entity \
         WHERE (\"entity\".\"name\" = ? \
         AND \"entity\".\"other_entity_id\" = \"other_entity\".\"id\")"
    );
    assert_eq!(params.len(), 1);
}

#[test]
fn repeated_relation_table_appears_once_in_from_list() {
    let q = entity()
        .find()
        .where_inverse_relation(
            column("other_entity", "amount_killed").gt(Value::Int(5)),
            &other_entity(),
            &"other_entity_id".to_string(),
        )
        .where_inverse_relation(
            column("other_entity", "other_amount_killed").lt(Value::Int(9)),
            &other_entity(),
            &"other_entity_id".to_string(),
        );
    let sql = q.query();
    assert!(sql.contains("FROM entity, other_entity WHERE"));
    assert_eq!(sql.matches("FROM entity, other_entity").count(), 1);
}
