//! Relation declarations and the batched relation loader.
//!
//! A relation is declared once, on the owning entity (the one whose table
//! holds the foreign key). The non-owning view is derived from it: the
//! inverse of one-to-one is one-to-one; the inverse of many-to-one is
//! one-to-many. Given a batch of already-loaded parent records, the loader
//! builds exactly one query — an `IN` condition over the distinct parent
//! keys — regardless of the batch size, and matches the results back to
//! each parent by key equality.

use vstd::prelude::*;

use crate::entity::column::{qualified_name, ColumnName};
use crate::entity::Entity;
use crate::query::select::{dedup_first, Select};
use crate::query::{placeholders, QueryExpr, Value, ValueView};

verus! {

/// Seals the relation cardinality traits against outside implementations.
pub trait Sealed {

}

/// The owning side of a relation declaration: how many related records are
/// expected on the other side. The non-owning view of each owning
/// cardinality is given by [`inverse_cardinality`].
pub trait Relation: Sealed {

}

/// The non-owning side of a relation declaration, derived from the owning
/// side by [`inverse_cardinality`].
pub trait InverseRelation: Sealed {

}

/// A one-to-one relation.
#[derive(Default, Clone, Copy)]
pub struct OneToOne;

/// A many-to-one relation (owning side).
#[derive(Default, Clone, Copy)]
pub struct ManyToOne;

/// A one-to-many relation (non-owning side).
#[derive(Default, Clone, Copy)]
pub struct OneToMany;

impl Sealed for OneToOne {

}

impl Sealed for ManyToOne {

}

impl Sealed for OneToMany {

}

impl Relation for OneToOne {

}

impl InverseRelation for OneToOne {

}

impl Relation for ManyToOne {

}

impl InverseRelation for OneToMany {

}

/// The cardinality tag of an owning-side relation declaration.
#[derive(Clone, Copy, PartialEq, Eq, Structural, Debug)]
pub enum Cardinality {
    /// Each owning record references at most one distinct related record.
    OneToOne,
    /// Many owning records may reference the same related record.
    ManyToOne,
}

/// The cardinality tag the non-owning side sees.
#[derive(Clone, Copy, PartialEq, Eq, Structural, Debug)]
pub enum InverseCardinality {
    /// The inverse of a one-to-one relation.
    OneToOne,
    /// The inverse of a many-to-one relation.
    OneToMany,
}

/// Derive the non-owning view of a declared relation: one-to-one stays
/// one-to-one; many-to-one inverts to one-to-many.
pub fn inverse_cardinality(cardinality: Cardinality) -> (r: InverseCardinality)
    ensures
        cardinality == Cardinality::OneToOne ==> r == InverseCardinality::OneToOne,
        cardinality == Cardinality::ManyToOne ==> r == InverseCardinality::OneToMany,
{
    match cardinality {
        Cardinality::OneToOne => InverseCardinality::OneToOne,
        Cardinality::ManyToOne => InverseCardinality::OneToMany,
    }
}

/// The relation that a column of a schema description declares on its owning
/// entity: a column without a foreign key declares none; the uniqueness of
/// the referencing column selects one-to-one over many-to-one.
pub fn relation_from_column(column: &crate::sqlparse::schema::SqlColumn) -> (r: Option<
    Cardinality,
>)
    ensures
        column.foreign_key is Some ==> r == Some(
            if column.unique {
                Cardinality::OneToOne
            } else {
                Cardinality::ManyToOne
            },
        ),
        column.foreign_key is None ==> r is None,
{
    match &column.foreign_key {
        Some(_) => {
            if column.unique {
                Some(Cardinality::OneToOne)
            } else {
                Some(Cardinality::ManyToOne)
            }
        },
        None => None,
    }
}

/// Keep the first occurrence of every key, in first-occurrence order.
fn dedup_values(keys: &Vec<Value>) -> (r: Vec<Value>)
    ensures
        r.deep_view() == dedup_first(keys.deep_view()),
{
    let ghost kvs: Seq<ValueView> = keys.deep_view();
    let mut out: Vec<Value> = Vec::new();
    let mut i: usize = 0;
    while i < keys.len()
        invariant
            i <= keys.len(),
            kvs == keys.deep_view(),
            out.deep_view() == dedup_first(kvs.take(i as int)),
        decreases keys.len() - i,
    {
        let mut found = false;
        let mut k: usize = 0;
        while k < i
            invariant
                k <= i < keys.len(),
                kvs == keys.deep_view(),
                found <==> exists|a: int| 0 <= a < k && kvs[a] == kvs[i as int],
            decreases i - k,
        {
            proof {
                assert(kvs[k as int] == keys@[k as int]@);
                assert(kvs[i as int] == keys@[i as int]@);
            }
            if keys[k].eq_value(&keys[i]) {
                found = true;
            }
            k = k + 1;
        }
        proof {
            assert(forall|a: int| 0 <= a < i ==> kvs.take(i as int)[a] == kvs[a]);
            if found {
                let a = choose|a: int| 0 <= a < i && kvs[a] == kvs[i as int];
                assert(kvs.take(i as int)[a] == kvs[i as int]);
                assert(kvs.take(i as int).contains(kvs[i as int]));
            } else {
                assert(!kvs.take(i as int).contains(kvs[i as int]));
            }
        }
        let ghost out_before: Seq<ValueView> = out.deep_view();
        if !found {
            out.push(keys[i].clone());
            proof {
                assert(out.deep_view() =~= out_before.push(kvs[i as int]));
            }
        }
        i = i + 1;
        proof {
            assert(kvs.take(i as int).drop_last() =~= kvs.take(i as int - 1));
            assert(kvs.take(i as int).last() == kvs[i as int - 1]);
            assert(out.deep_view() =~= dedup_first(kvs.take(i as int)));
        }
    }
    proof {
        assert(kvs.take(kvs.len() as int) =~= kvs);
    }
    out
}

/// Build an `IN` filter of `column` over the given values.
fn in_filter(select: Select, column: ColumnName, values: Vec<Value>) -> (r: Select)
    ensures
        r.entity_table() == select.entity_table(),
        r.entity_columns() == select.entity_columns(),
        r.entity_pk() == select.entity_pk(),
        r.additional_tables() == select.additional_tables(),
        r.conditions().len() == select.conditions().len() + 1,
        r.conditions().drop_last() == select.conditions(),
        r.conditions().last().sql_view() == column.sql_view() + " IN ("@ + placeholders(
            values@.len() as int,
        ) + ")"@,
        r.conditions().last().params_view() == values.deep_view(),
        r.params_view() == select.params_view() + values.deep_view(),
{
    let ghost col_spec = column;
    let ghost values_spec: Seq<Value> = values@;
    let condition = column.is_in(values);
    proof {
        reveal_strlit(" ");
        reveal_strlit("IN");
        reveal_strlit("(");
        reveal_strlit(" IN (");
        assert(" "@ + "IN"@ + " "@ + "("@ =~= " IN ("@);
        assert(condition.sql_view() =~= col_spec.sql_view() + " IN ("@ + placeholders(
            values_spec.len() as int,
        ) + ")"@);
        assert(values_spec.map_values(|v: Value| v@) =~= Seq::new(
            values_spec.len(),
            |i: int| values_spec[i]@,
        ));
        assert(condition.params_view() =~= Seq::new(values_spec.len(), |i: int| values_spec[i]@));
    }
    let r = select.filter(condition);
    proof {
        assert(r.conditions().drop_last() =~= select.conditions());
        assert(crate::query::select::where_chain_params(r.conditions())
            == crate::query::select::where_chain_params(select.conditions())
            + condition.params_view());
        assert(r.params_view() =~= select.params_view() + values.deep_view());
    }
    r
}

/// Build the one query that resolves a relation for a whole batch of parent
/// records: `target`'s rows whose primary key occurs among the parents'
/// foreign-key values. One query is issued regardless of how many parents
/// there are, over the distinct keys only, in first-occurrence order.
pub fn relation_batch_query(target: &Entity, keys: &Vec<Value>) -> (r: Select)
    ensures
        r.entity_table() == target.table_view(),
        r.entity_columns() == target.columns_view(),
        r.additional_tables() == Seq::<Seq<char>>::empty(),
        r.conditions().len() == 1,
        r.conditions()[0].sql_view() == qualified_name(target.table_view(), target.pk_view())
            + " IN ("@ + placeholders(dedup_first(keys.deep_view()).len() as int) + ")"@,
        r.conditions()[0].params_view() == dedup_first(keys.deep_view()),
        r.params_view() == dedup_first(keys.deep_view()),
{
    let column = ColumnName::new_with_table_or_alias(
        target.table_name.clone(),
        target.primary_key.clone(),
    );
    let distinct = dedup_values(keys);
    let r = in_filter(target.find(), column, distinct);
    proof {
        assert(r.conditions()[0] == r.conditions().last());
        assert(Seq::<ValueView>::empty() + dedup_first(keys.deep_view()) =~= dedup_first(
            keys.deep_view(),
        ));
        assert(crate::query::select::where_chain_params(Seq::<crate::query::QueryExpr>::empty())
            == Seq::<ValueView>::empty());
    }
    r
}

/// Build the one query that resolves an inverse relation for a whole batch:
/// `target`'s rows whose foreign-key column holds one of the parents'
/// primary-key values. One query is issued regardless of how many parents
/// there are, over the distinct keys only, in first-occurrence order.
pub fn inverse_batch_query(target: &Entity, fk_column: &String, keys: &Vec<Value>) -> (r: Select)
    ensures
        r.entity_table() == target.table_view(),
        r.entity_columns() == target.columns_view(),
        r.additional_tables() == Seq::<Seq<char>>::empty(),
        r.conditions().len() == 1,
        r.conditions()[0].sql_view() == qualified_name(target.table_view(), fk_column@)
            + " IN ("@ + placeholders(dedup_first(keys.deep_view()).len() as int) + ")"@,
        r.conditions()[0].params_view() == dedup_first(keys.deep_view()),
        r.params_view() == dedup_first(keys.deep_view()),
{
    let column = ColumnName::new_with_table_or_alias(target.table_name.clone(), fk_column.clone());
    let distinct = dedup_values(keys);
    let r = in_filter(target.find(), column, distinct);
    proof {
        assert(r.conditions()[0] == r.conditions().last());
        assert(Seq::<ValueView>::empty() + dedup_first(keys.deep_view()) =~= dedup_first(
            keys.deep_view(),
        ));
        assert(crate::query::select::where_chain_params(Seq::<crate::query::QueryExpr>::empty())
            == Seq::<ValueView>::empty());
    }
    r
}

/// Build the query that resolves a relation for exactly one record, using an
/// equality condition instead of a set condition.
pub fn relation_single_query(target: &Entity, key: &Value) -> (r: Select)
    ensures
        r.entity_table() == target.table_view(),
        r.entity_columns() == target.columns_view(),
        r.additional_tables() == Seq::<Seq<char>>::empty(),
        r.conditions().len() == 1,
        r.conditions()[0].sql_view() == qualified_name(target.table_view(), target.pk_view())
            + " = ?"@,
        r.conditions()[0].params_view() == seq![key@],
        r.params_view() == seq![key@],
{
    let column = ColumnName::new_with_table_or_alias(
        target.table_name.clone(),
        target.primary_key.clone(),
    );
    eq_filter(target.find(), column, key.clone())
}

/// Build the query that resolves an inverse relation for exactly one record,
/// using an equality condition on the foreign-key column.
pub fn inverse_single_query(target: &Entity, fk_column: &String, key: &Value) -> (r: Select)
    ensures
        r.entity_table() == target.table_view(),
        r.entity_columns() == target.columns_view(),
        r.additional_tables() == Seq::<Seq<char>>::empty(),
        r.conditions().len() == 1,
        r.conditions()[0].sql_view() == qualified_name(target.table_view(), fk_column@) + " = ?"@,
        r.conditions()[0].params_view() == seq![key@],
        r.params_view() == seq![key@],
{
    let column = ColumnName::new_with_table_or_alias(target.table_name.clone(), fk_column.clone());
    eq_filter(target.find(), column, key.clone())
}

/// Build an equality filter of `column` against one bound value, on a fresh
/// select.
fn eq_filter(select: Select, column: ColumnName, key: Value) -> (r: Select)
    requires
        select.conditions() == Seq::<crate::query::QueryExpr>::empty(),
    ensures
        r.entity_table() == select.entity_table(),
        r.entity_columns() == select.entity_columns(),
        r.entity_pk() == select.entity_pk(),
        r.additional_tables() == select.additional_tables(),
        r.conditions().len() == 1,
        r.conditions()[0].sql_view() == column.sql_view() + " = ?"@,
        r.conditions()[0].params_view() == seq![key@],
        r.params_view() == seq![key@],
{
    let ghost col_spec = column;
    let ghost key_spec = key;
    let condition = column.eq(key);
    proof {
        reveal_strlit(" ");
        reveal_strlit("=");
        reveal_strlit("?");
        reveal_strlit(" = ?");
        assert(" "@ + "="@ + " "@ + "?"@ =~= " = ?"@);
        assert(QueryExpr::Column(col_spec).sql_view() == col_spec.sql_view());
        assert(QueryExpr::Column(col_spec).params_view() == Seq::<ValueView>::empty());
        assert(QueryExpr::Variable(crate::query::QueryVariable { value: key_spec }).sql_view()
            == "?"@);
        assert(QueryExpr::Variable(crate::query::QueryVariable { value: key_spec }).params_view()
            == seq![key_spec@]);
        assert(condition.sql_view() =~= col_spec.sql_view() + " = ?"@);
        assert(condition.params_view() =~= seq![key_spec@]);
    }
    let r = select.filter(condition);
    proof {
        assert(r.conditions()[0] == r.conditions().last());
        assert(r.conditions().drop_last() =~= select.conditions());
        assert(crate::query::select::where_chain_params(Seq::<QueryExpr>::empty()) == Seq::<
            ValueView,
        >::empty());
        assert(r.params_view() =~= seq![key_spec@]);
    }
    r
}

/// For each parent key, the index of the first matching child key, if any:
/// results align positionally with the parents, and a parent with no match
/// receives `None` rather than an error. This is the matching step of
/// one-to-one and many-to-one relation loading, where each parent receives
/// at most one child.
pub fn match_one_per_parent(parent_keys: &Vec<Value>, child_keys: &Vec<Value>) -> (r: Vec<
    Option<usize>,
>)
    ensures
        r@.len() == parent_keys@.len(),
        forall|i: int|
            0 <= i < r@.len() ==> matches_first(
                parent_keys.deep_view()[i],
                child_keys.deep_view(),
                #[trigger] r@[i],
            ),
{
    let ghost pks: Seq<ValueView> = parent_keys.deep_view();
    let ghost cks: Seq<ValueView> = child_keys.deep_view();
    let mut out: Vec<Option<usize>> = Vec::new();
    let mut i: usize = 0;
    while i < parent_keys.len()
        invariant
            i <= parent_keys.len(),
            pks == parent_keys.deep_view(),
            cks == child_keys.deep_view(),
            out@.len() == i,
            forall|a: int| 0 <= a < i ==> matches_first(pks[a], cks, #[trigger] out@[a]),
        decreases parent_keys.len() - i,
    {
        let mut found: Option<usize> = None;
        let mut j: usize = 0;
        while j < child_keys.len()
            invariant
                j <= child_keys.len(),
                i < parent_keys.len(),
                pks == parent_keys.deep_view(),
                cks == child_keys.deep_view(),
                found matches Some(m) ==> matches_first(pks[i as int], cks, Some(m)),
                found is None ==> forall|l: int| 0 <= l < j ==> cks[l] != pks[i as int],
            decreases child_keys.len() - j,
        {
            proof {
                assert(cks[j as int] == child_keys@[j as int]@);
                assert(pks[i as int] == parent_keys@[i as int]@);
            }
            if found.is_none() && child_keys[j].eq_value(&parent_keys[i]) {
                found = Some(j);
            }
            j = j + 1;
        }
        out.push(found);
        i = i + 1;
    }
    out
}

/// For each parent key, the indices of all matching child keys, in child
/// order: results align positionally with the parents, and a parent with no
/// match receives an empty list rather than an error. This is the matching
/// step of one-to-many relation loading, where each parent receives the
/// ordered list of all its children.
pub fn match_all_per_parent(parent_keys: &Vec<Value>, child_keys: &Vec<Value>) -> (r: Vec<
    Vec<usize>,
>)
    ensures
        r@.len() == parent_keys@.len(),
        forall|i: int|
            0 <= i < r@.len() ==> matches_all(
                parent_keys.deep_view()[i],
                child_keys.deep_view(),
                #[trigger] r@[i]@,
            ),
{
    let ghost pks: Seq<ValueView> = parent_keys.deep_view();
    let ghost cks: Seq<ValueView> = child_keys.deep_view();
    let mut out: Vec<Vec<usize>> = Vec::new();
    let mut i: usize = 0;
    while i < parent_keys.len()
        invariant
            i <= parent_keys.len(),
            pks == parent_keys.deep_view(),
            cks == child_keys.deep_view(),
            out@.len() == i,
            forall|a: int| 0 <= a < i ==> matches_all(pks[a], cks, #[trigger] out@[a]@),
        decreases parent_keys.len() - i,
    {
        let mut matches: Vec<usize> = Vec::new();
        let mut j: usize = 0;
        while j < child_keys.len()
            invariant
                j <= child_keys.len(),
                i < parent_keys.len(),
                pks == parent_keys.deep_view(),
                cks == child_keys.deep_view(),
                forall|n: int|
                    0 <= n < matches@.len() ==> #[trigger] matches@[n] < j && cks[matches@[n] as int]
                        == pks[i as int],
                forall|n1: int, n2: int|
                    0 <= n1 < n2 < matches@.len() ==> matches@[n1] < matches@[n2],
                forall|l: int|
                    0 <= l < j && cks[l] == pks[i as int] ==> exists|n: int|
                        0 <= n < matches@.len() && #[trigger] matches@[n] == l,
            decreases child_keys.len() - j,
        {
            proof {
                assert(cks[j as int] == child_keys@[j as int]@);
                assert(pks[i as int] == parent_keys@[i as int]@);
            }
            let ghost matches_before: Seq<usize> = matches@;
            if child_keys[j].eq_value(&parent_keys[i]) {
                matches.push(j);
            }
            j = j + 1;
            proof {
                assert forall|l: int|
                    0 <= l < j && cks[l] == pks[i as int] implies exists|n: int|
                    0 <= n < matches@.len() && #[trigger] matches@[n] == l by {
                    if l < j - 1 {
                        let n0 = choose|n: int|
                            0 <= n < matches_before.len() && #[trigger] matches_before[n] == l;
                        assert(matches@[n0] == l);
                    } else {
                        assert(matches@[matches@.len() - 1] == l);
                    }
                }
            }
        }
        out.push(matches);
        i = i + 1;
    }
    out
}

/// `found` is the position of the first child key equal to `key`, or `None`
/// when no child key matches.
pub open spec fn matches_first(
    key: ValueView,
    children: Seq<ValueView>,
    found: Option<usize>,
) -> bool {
    match found {
        Some(j) => j < children.len() && children[j as int] == key && (forall|l: int|
            0 <= l < j ==> children[l] != key),
        None => forall|l: int| 0 <= l < children.len() ==> children[l] != key,
    }
}

/// `indices` is exactly the list of positions in `children` whose key equals
/// `key`, in increasing order.
pub open spec fn matches_all(key: ValueView, children: Seq<ValueView>, indices: Seq<usize>) -> bool {
    &&& forall|n: int|
        0 <= n < indices.len() ==> #[trigger] indices[n] < children.len() && children[indices[n] as int]
            == key
    &&& forall|n1: int, n2: int| 0 <= n1 < n2 < indices.len() ==> indices[n1] < indices[n2]
    &&& forall|l: int|
        0 <= l < children.len() && children[l] == key ==> exists|n: int|
            0 <= n < indices.len() && #[trigger] indices[n] == l
}

} // verus!
