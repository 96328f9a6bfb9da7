//! Batched relation loading: one query per batch, positional matching.

use sky_orm::entity::relation::{
    inverse_batch_query, inverse_cardinality, inverse_single_query, match_all_per_parent,
    match_one_per_parent, relation_batch_query, relation_from_column, relation_single_query,
    Cardinality, InverseCardinality,
};
use sky_orm::entity::Entity;
use sky_orm::query::Value;
use sky_orm::sqlparse::query::parse_tables;

fn target() -> Entity {
    Entity::new(
        "other_entity".to_string(),
        vec!["id".to_string(), "amount_killed".to_string()],
        "id".to_string(),
    )
    .expect("entity descriptor should be valid")
}

#[test]
fn batch_load_issues_one_query_over_distinct_keys() {
    let keys = vec![
        Value::Int(1),
        Value::Int(2),
        Value::Int(2),
        Value::Int(1),
        Value::Int(3),
    ];
    let q = relation_batch_query(&target(), &keys);
    let (sql, params) = q.build().into_parts();
    assert_eq!(
        sql,
        "SELECT \"other_entity\".\"id\", \"other_entity\".\"amount_killed\" \
         FROM other_entity WHERE (\"other_entity\".\"id\" IN (?, ?, ?))"
    );
    assert_eq!(params.len(), 3);
    assert!(params[0].eq_value(&Value::Int(1)));
    assert!(params[1].eq_value(&Value::Int(2)));
    assert!(params[2].eq_value(&Value::Int(3)));
}

#[test]
fn batch_load_query_does_not_grow_with_duplicated_parents() {
    let few = vec![Value::Int(1), Value::Int(2)];
    let many = vec![
        Value::Int(1),
        Value::Int(2),
        Value::Int(1),
        Value::Int(2),
        Value::Int(1),
    ];
    assert_eq!(
        relation_batch_query(&target(), &few).query(),
        relation_batch_query(&target(), &many).query()
    );
}

#[test]
fn inverse_batch_load_filters_the_foreign_key_column() {
    let keys = vec![Value::Int(7), Value::Int(7)];
    let q = inverse_batch_query(&target(), &"entity_id".to_string(), &keys);
    let (sql, params) = q.build().into_parts();
    assert_eq!(
        sql,
        "SELECT \"other_entity\".\"id\", \"other_entity\".\"amount_killed\" \
         FROM other_entity WHERE (\"other_entity\".\"entity_id\" IN (?))"
    );
    assert_eq!(params.len(), 1);
}

#[test]
fn single_load_uses_an_equality_condition() {
    let q = relation_single_query(&target(), &Value::Int(5));
    let (sql, params) = q.build().into_parts();
    assert_eq!(
        sql,
        "SELECT \"other_entity\".\"id\", \"other_entity\".\"amount_killed\" \
         FROM other_entity WHERE (\"other_entity\".\"id\" = ?)"
    );
    assert_eq!(params.len(), 1);
    assert!(params[0].eq_value(&Value::Int(5)));

    let q = inverse_single_query(&target(), &"entity_id".to_string(), &Value::Int(5));
    assert_eq!(
        q.query(),
        "SELECT \"other_entity\".\"id\", \"other_entity\".\"amount_killed\" \
         FROM other_entity WHERE (\"other_entity\".\"entity_id\" = ?)"
    );
}

#[test]
fn three_parents_match_positionally_with_absent_as_none() {
    let parents = vec![Value::Int(1), Value::Int(2), Value::Int(4)];
    let children = vec![Value::Int(4), Value::Int(1), Value::Int(1)];
    let matched = match_one_per_parent(&parents, &children);
    assert_eq!(matched, vec![Some(1), None, Some(0)]);
}

#[test]
fn one_to_many_matching_collects_all_children_in_order() {
    let parents = vec![Value::Int(1), Value::Int(2), Value::Int(3)];
    let children = vec![
        Value::Int(2),
        Value::Int(1),
        Value::Int(2),
        Value::Int(2),
    ];
    let matched = match_all_per_parent(&parents, &children);
    assert_eq!(matched.len(), 3);
    assert_eq!(matched[0], vec![1]);
    assert_eq!(matched[1], vec![0, 2, 3]);
    assert_eq!(matched[2], Vec::<usize>::new());
}

#[test]
fn matching_text_keys_compares_contents() {
    let parents = vec![Value::Text("a".to_string()), Value::Text("b".to_string())];
    let children = vec![Value::Text("b".to_string())];
    let matched = match_one_per_parent(&parents, &children);
    assert_eq!(matched, vec![None, Some(0)]);
}

#[test]
fn foreign_key_uniqueness_selects_the_cardinality() {
    let query = "CREATE TABLE child(
          id INTEGER PRIMARY KEY,
          spouse_id INTEGER UNIQUE REFERENCES parent (id),
          parent_id INTEGER REFERENCES parent (id)
        )";
    let tables = parse_tables(query).expect("query should parse");
    let table = tables.first().expect("one table expected");

    let spouse = table.find_column("spouse_id").expect("column expected");
    assert_eq!(relation_from_column(spouse), Some(Cardinality::OneToOne));

    let parent = table.find_column("parent_id").expect("column expected");
    assert_eq!(relation_from_column(parent), Some(Cardinality::ManyToOne));

    let id = table.find_column("id").expect("column expected");
    assert_eq!(relation_from_column(id), None);
}

#[test]
fn inverse_cardinality_follows_the_owning_declaration() {
    assert_eq!(
        inverse_cardinality(Cardinality::OneToOne),
        InverseCardinality::OneToOne
    );
    assert_eq!(
        inverse_cardinality(Cardinality::ManyToOne),
        InverseCardinality::OneToMany
    );
}
