//! The select builder: accumulates conditions and pseudo-join table
//! references for one entity and renders them into a single SQL statement
//! with correctly ordered bound parameters.

use vstd::prelude::*;

use crate::entity::column::{qualified_name, ColumnName};
use crate::entity::{string_eq, Entity};
use crate::query::{BinaryExprOperand, QueryExpr, StatementBuffer, ValueView};

verus! {

/// Keep the first occurrence of every element, in first-occurrence order.
pub open spec fn dedup_first<A>(s: Seq<A>) -> Seq<A>
    decreases s.len(),
{
    if s.len() == 0 {
        Seq::<A>::empty()
    } else if s.drop_last().contains(s.last()) {
        dedup_first(s.drop_last())
    } else {
        dedup_first(s.drop_last()).push(s.last())
    }
}

/// The rendered `SELECT` column list: every column fully qualified by the
/// entity's table, comma-separated, in declaration order.
pub open spec fn column_list_sql(table: Seq<char>, columns: Seq<Seq<char>>) -> Seq<char>
    decreases columns.len(),
{
    if columns.len() == 0 {
        Seq::<char>::empty()
    } else if columns.len() == 1 {
        qualified_name(table, columns[0])
    } else {
        column_list_sql(table, columns.drop_last()) + ", "@ + qualified_name(
            table,
            columns.last(),
        )
    }
}

/// The rendered tail of the `FROM` list: each additional table prefixed by a
/// comma, in the given order.
pub open spec fn from_tables_sql(tables: Seq<Seq<char>>) -> Seq<char>
    decreases tables.len(),
{
    if tables.len() == 0 {
        Seq::<char>::empty()
    } else {
        from_tables_sql(tables.drop_last()) + ", "@ + tables.last()
    }
}

/// The rendered `WHERE` chain: every condition individually bracketed, folded
/// left-to-right with `AND`, in insertion order.
pub open spec fn where_chain_sql(conditions: Seq<QueryExpr>) -> Seq<char>
    decreases conditions.len(),
{
    if conditions.len() == 0 {
        Seq::<char>::empty()
    } else if conditions.len() == 1 {
        "("@ + conditions[0].sql_view() + ")"@
    } else {
        where_chain_sql(conditions.drop_last()) + " AND "@ + "("@ + conditions.last().sql_view()
            + ")"@
    }
}

/// The values bound by a `WHERE` chain: each condition's bound values, in
/// insertion order.
pub open spec fn where_chain_params(conditions: Seq<QueryExpr>) -> Seq<ValueView>
    decreases conditions.len(),
{
    if conditions.len() == 0 {
        Seq::<ValueView>::empty()
    } else {
        where_chain_params(conditions.drop_last()) + conditions.last().params_view()
    }
}

/// A select statement under construction for one entity: an ordered list of
/// condition nodes plus a list of additional (pseudo-joined) table names,
/// which may contain duplicates; duplicates are removed at render time, first
/// occurrence order preserved. The builder is reusable: rendering does not
/// consume it and may be repeated.
pub struct Select {
    entity: Entity,
    conditions: Vec<QueryExpr>,
    additional_tables: Vec<String>,
}

impl Select {
    /// The table this select reads from.
    pub closed spec fn entity_table(&self) -> Seq<char> {
        self.entity.table_view()
    }

    /// The columns this select emits, in order.
    pub closed spec fn entity_columns(&self) -> Seq<Seq<char>> {
        self.entity.columns_view()
    }

    /// The primary-key column of the entity this select reads from.
    pub closed spec fn entity_pk(&self) -> Seq<char> {
        self.entity.pk_view()
    }

    /// The accumulated conditions, in insertion order.
    pub closed spec fn conditions(&self) -> Seq<QueryExpr> {
        self.conditions@
    }

    /// The accumulated additional table names, in insertion order, duplicates
    /// included.
    pub closed spec fn additional_tables(&self) -> Seq<Seq<char>> {
        self.additional_tables.deep_view()
    }

    /// The SQL text this select renders to.
    pub open spec fn sql_view(&self) -> Seq<char> {
        "SELECT "@ + column_list_sql(self.entity_table(), self.entity_columns()) + " FROM "@
            + self.entity_table() + from_tables_sql(dedup_first(self.additional_tables())) + (
        if self.conditions().len() == 0 {
            Seq::<char>::empty()
        } else {
            " WHERE "@ + where_chain_sql(self.conditions())
        })
    }

    /// The values this select binds, in placeholder order.
    pub open spec fn params_view(&self) -> Seq<ValueView> {
        where_chain_params(self.conditions())
    }

    /// A fresh builder for the given entity, with no conditions and no
    /// additional tables.
    pub fn new(entity: Entity) -> (r: Select)
        ensures
            r.entity_table() == entity.table_view(),
            r.entity_columns() == entity.columns_view(),
            r.entity_pk() == entity.pk_view(),
            r.conditions() == Seq::<QueryExpr>::empty(),
            r.additional_tables() == Seq::<Seq<char>>::empty(),
    {
        let r = Select { entity, conditions: Vec::new(), additional_tables: Vec::new() };
        proof {
            assert(r.additional_tables() =~= Seq::<Seq<char>>::empty());
        }
        r
    }

    /// Append a `WHERE` condition; at render time every appended condition is
    /// wrapped in `()` brackets and the conditions are glued with `AND`.
    pub fn filter(self, condition: QueryExpr) -> (r: Select)
        ensures
            r.entity_table() == self.entity_table(),
            r.entity_columns() == self.entity_columns(),
            r.entity_pk() == self.entity_pk(),
            r.conditions() == self.conditions().push(condition),
            r.additional_tables() == self.additional_tables(),
    {
        let mut s = self;
        s.conditions.push(condition);
        s
    }

    /// Append a `WHERE` condition over a related entity's columns, where the
    /// foreign key is on `other` (the owning side) and references this
    /// entity's primary key. Appends exactly one condition — the caller's
    /// condition `AND` the implicit equality
    /// `"other"."fk_column" = "this"."primary_key"` — and registers exactly
    /// one additional `FROM` table.
    pub fn where_relation(self, condition: QueryExpr, other: &Entity, fk_column: &String) -> (r:
        Select)
        ensures
            r.entity_table() == self.entity_table(),
            r.entity_columns() == self.entity_columns(),
            r.entity_pk() == self.entity_pk(),
            r.conditions().len() == self.conditions().len() + 1,
            r.conditions().drop_last() == self.conditions(),
            r.conditions().last().sql_view() == condition.sql_view() + " AND "@ + qualified_name(
                other.table_view(),
                fk_column@,
            ) + " = "@ + qualified_name(self.entity_table(), self.entity_pk()),
            r.conditions().last().params_view() == condition.params_view(),
            r.additional_tables() == self.additional_tables().push(other.table_view()),
    {
        let fk = ColumnName::new_with_table_or_alias(other.table_name.clone(), fk_column.clone());
        let pk = ColumnName::new_with_table_or_alias(
            self.entity.table_name.clone(),
            self.entity.primary_key.clone(),
        );
        self.push_relation_condition(condition, fk, pk, other.table_name.clone())
    }

    /// Append a `WHERE` condition over an inversely related entity's columns,
    /// where the foreign key is on *this* entity and references `other`'s
    /// primary key. Appends exactly one condition — the caller's condition
    /// `AND` the implicit equality
    /// `"this"."fk_column" = "other"."primary_key"` — and registers exactly
    /// one additional `FROM` table.
    pub fn where_inverse_relation(self, condition: QueryExpr, other: &Entity, fk_column: &String)
        -> (r: Select)
        ensures
            r.entity_table() == self.entity_table(),
            r.entity_columns() == self.entity_columns(),
            r.entity_pk() == self.entity_pk(),
            r.conditions().len() == self.conditions().len() + 1,
            r.conditions().drop_last() == self.conditions(),
            r.conditions().last().sql_view() == condition.sql_view() + " AND "@ + qualified_name(
                self.entity_table(),
                fk_column@,
            ) + " = "@ + qualified_name(other.table_view(), other.pk_view()),
            r.conditions().last().params_view() == condition.params_view(),
            r.additional_tables() == self.additional_tables().push(other.table_view()),
    {
        let fk = ColumnName::new_with_table_or_alias(
            self.entity.table_name.clone(),
            fk_column.clone(),
        );
        let pk = ColumnName::new_with_table_or_alias(
            other.table_name.clone(),
            other.primary_key.clone(),
        );
        self.push_relation_condition(condition, fk, pk, other.table_name.clone())
    }

    /// Append the combined condition `condition AND fk = pk` and register
    /// `table` as an additional `FROM` entry.
    fn push_relation_condition(
        self,
        condition: QueryExpr,
        fk: ColumnName,
        pk: ColumnName,
        table: String,
    ) -> (r: Select)
        ensures
            r.entity_table() == self.entity_table(),
            r.entity_columns() == self.entity_columns(),
            r.entity_pk() == self.entity_pk(),
            r.conditions().len() == self.conditions().len() + 1,
            r.conditions().drop_last() == self.conditions(),
            r.conditions().last().sql_view() == condition.sql_view() + " AND "@ + fk.sql_view()
                + " = "@ + pk.sql_view(),
            r.conditions().last().params_view() == condition.params_view(),
            r.additional_tables() == self.additional_tables().push(table@),
    {
        let ghost self0 = self;
        let ghost cond_spec = condition;
        let ghost fk_spec = fk;
        let ghost pk_spec = pk;
        let ghost table_spec: Seq<char> = table@;
        let equality = QueryExpr::Binary {
            operand: BinaryExprOperand::Equals,
            left: Box::new(QueryExpr::Column(fk)),
            right: Box::new(QueryExpr::Column(pk)),
        };
        let combined = condition.and(equality);
        proof {
            reveal_strlit(" ");
            reveal_strlit("=");
            reveal_strlit(" = ");
            reveal_strlit("AND");
            reveal_strlit(" AND ");
            assert(" "@ + "AND"@ + " "@ =~= " AND "@);
            assert(" "@ + "="@ + " "@ =~= " = "@);
            assert(QueryExpr::Column(fk_spec).sql_view() == fk_spec.sql_view());
            assert(QueryExpr::Column(pk_spec).sql_view() == pk_spec.sql_view());
            assert(QueryExpr::Column(fk_spec).params_view() == Seq::<ValueView>::empty());
            assert(QueryExpr::Column(pk_spec).params_view() == Seq::<ValueView>::empty());
            assert(equality.sql_view() =~= fk_spec.sql_view() + " = "@ + pk_spec.sql_view());
            assert(equality.params_view() =~= Seq::<ValueView>::empty());
            assert(combined.sql_view() =~= cond_spec.sql_view() + " AND "@ + fk_spec.sql_view()
                + " = "@ + pk_spec.sql_view());
            assert(combined.params_view() =~= cond_spec.params_view());
        }
        let mut s = self;
        s.conditions.push(combined);
        s.additional_tables.push(table);
        proof {
            assert(s.conditions@.drop_last() =~= self0.conditions());
            assert(s.additional_tables.deep_view() =~= self0.additional_tables.deep_view().push(
                table_spec,
            ));
        }
        s
    }

    /// Render this select into a fresh statement buffer.
    pub fn build(&self) -> (r: StatementBuffer)
        ensures
            r.sql() == self.sql_view(),
            r.params() == self.params_view(),
    {
        let mut builder = StatementBuffer::new();
        self.push_to(&mut builder);
        proof {
            assert(builder.sql() =~= self.sql_view());
            assert(builder.params() =~= self.params_view());
        }
        builder
    }

    /// The raw SQL text of this statement, with backend-neutral `?`
    /// placeholders. Safe to call repeatedly: the builder is not consumed.
    pub fn query(&self) -> (r: String)
        ensures
            r@ == self.sql_view(),
    {
        self.build().into_sql()
    }

    /// Append the rendered statement to a buffer: `SELECT` and the qualified
    /// column list in declaration order, `FROM` and the entity's table
    /// followed by each distinct additional table in first-occurrence order,
    /// then — if any conditions exist — `WHERE` and the conditions folded
    /// left-to-right into an `AND` chain, each condition individually
    /// bracketed, in insertion order.
    pub fn push_to(&self, builder: &mut StatementBuffer)
        ensures
            final(builder).sql() == old(builder).sql() + self.sql_view(),
            final(builder).params() == old(builder).params() + self.params_view(),
    {
        builder.push("SELECT ");
        let ghost table: Seq<char> = self.entity_table();
        let ghost cols: Seq<Seq<char>> = self.entity_columns();
        let mut i: usize = 0;
        while i < self.entity.column_names.len()
            invariant
                i <= self.entity.column_names.len(),
                cols == self.entity.columns_view(),
                table == self.entity.table_view(),
                builder.sql() == old(builder).sql() + "SELECT "@ + column_list_sql(
                    table,
                    cols.take(i as int),
                ),
                builder.params() == old(builder).params(),
            decreases self.entity.column_names.len() - i,
        {
            if i > 0 {
                builder.push(", ");
            }
            builder.push("\"");
            builder.push(self.entity.table_name.as_str());
            builder.push("\"");
            builder.push(".");
            builder.push("\"");
            builder.push(self.entity.column_names[i].as_str());
            builder.push("\"");
            i = i + 1;
            proof {
                assert(cols.take(i as int).drop_last() =~= cols.take(i as int - 1));
                assert(builder.sql() =~= old(builder).sql() + "SELECT "@ + column_list_sql(
                    table,
                    cols.take(i as int),
                ));
            }
        }
        proof {
            assert(cols.take(cols.len() as int) =~= cols);
        }
        builder.push(" FROM ");
        builder.push(self.entity.table_name.as_str());
        let distinct = dedup_tables(&self.additional_tables);
        let ghost base: Seq<char> = old(builder).sql() + "SELECT "@ + column_list_sql(table, cols)
            + " FROM "@ + table;
        let ghost dtabs: Seq<Seq<char>> = distinct.deep_view();
        let mut t: usize = 0;
        while t < distinct.len()
            invariant
                t <= distinct.len(),
                dtabs == distinct.deep_view(),
                builder.sql() == base + from_tables_sql(dtabs.take(t as int)),
                builder.params() == old(builder).params(),
            decreases distinct.len() - t,
        {
            builder.push(", ");
            builder.push(distinct[t].as_str());
            t = t + 1;
            proof {
                assert(dtabs.take(t as int).drop_last() =~= dtabs.take(t as int - 1));
                assert(builder.sql() =~= base + from_tables_sql(dtabs.take(t as int)));
            }
        }
        proof {
            assert(dtabs.take(dtabs.len() as int) =~= dtabs);
        }
        if self.conditions.len() > 0 {
            builder.push(" WHERE ");
            let ghost conds: Seq<QueryExpr> = self.conditions@;
            let ghost base2: Seq<char> = base + from_tables_sql(dedup_first(
                self.additional_tables(),
            )) + " WHERE "@;
            let mut c: usize = 0;
            while c < self.conditions.len()
                invariant
                    c <= self.conditions.len(),
                    conds == self.conditions@,
                    builder.sql() == base2 + where_chain_sql(conds.take(c as int)),
                    builder.params() == old(builder).params() + where_chain_params(
                        conds.take(c as int),
                    ),
                decreases self.conditions.len() - c,
            {
                if c > 0 {
                    builder.push(" AND ");
                }
                builder.push("(");
                self.conditions[c].push_to(builder);
                builder.push(")");
                c = c + 1;
                proof {
                    assert(conds.take(c as int).drop_last() =~= conds.take(c as int - 1));
                    assert(builder.sql() =~= base2 + where_chain_sql(conds.take(c as int)));
                    assert(builder.params() =~= old(builder).params() + where_chain_params(
                        conds.take(c as int),
                    ));
                }
            }
            proof {
                assert(conds.take(conds.len() as int) =~= conds);
                assert(builder.sql() =~= old(builder).sql() + self.sql_view());
                assert(builder.params() =~= old(builder).params() + self.params_view());
            }
        } else {
            proof {
                assert(where_chain_params(self.conditions()) =~= Seq::<ValueView>::empty());
                assert(builder.sql() =~= old(builder).sql() + self.sql_view());
                assert(builder.params() =~= old(builder).params() + self.params_view());
            }
        }
    }
}

/// A single filter renders as just its bracketed condition, with no `AND`,
/// and binds exactly its own values.
pub proof fn lemma_single_filter_renders_bracketed(conditions: Seq<QueryExpr>)
    requires
        conditions.len() == 1,
    ensures
        where_chain_sql(conditions) == "("@ + conditions[0].sql_view() + ")"@,
        where_chain_params(conditions) == conditions[0].params_view(),
{
    assert(where_chain_params(conditions.drop_last()) == Seq::<ValueView>::empty());
    assert(conditions.last() == conditions[0]);
    assert(Seq::<ValueView>::empty() + conditions[0].params_view() =~= conditions[
        0
    ].params_view());
}

/// For two or more filters the chain folds left-to-right with `AND`, each
/// condition individually bracketed, in insertion order.
pub proof fn lemma_and_fold_extends_left_to_right(conditions: Seq<QueryExpr>)
    requires
        conditions.len() >= 2,
    ensures
        where_chain_sql(conditions) == where_chain_sql(conditions.drop_last()) + " AND "@ + "("@
            + conditions.last().sql_view() + ")"@,
        where_chain_params(conditions) == where_chain_params(conditions.drop_last())
            + conditions.last().params_view(),
{
}

/// All bound values of a rendered `WHERE` chain appear in left-to-right,
/// insertion order: the chain binds exactly the concatenation of each
/// condition's bound values, condition by condition.
pub proof fn lemma_where_chain_params_in_insertion_order(conditions: Seq<QueryExpr>)
    ensures
        where_chain_params(conditions) == conditions.map_values(
            |c: QueryExpr| c.params_view(),
        ).flatten_alt(),
    decreases conditions.len(),
{
    let mapped = conditions.map_values(|c: QueryExpr| c.params_view());
    if conditions.len() == 0 {
        assert(mapped =~= Seq::<Seq<ValueView>>::empty());
        assert(mapped.flatten_alt() == Seq::<ValueView>::empty());
        assert(where_chain_params(conditions) == Seq::<ValueView>::empty());
    } else {
        lemma_where_chain_params_in_insertion_order(conditions.drop_last());
        assert(mapped.drop_last() =~= conditions.drop_last().map_values(
            |c: QueryExpr| c.params_view(),
        ));
        assert(mapped.last() == conditions.last().params_view());
        assert(mapped.flatten_alt() == mapped.drop_last().flatten_alt() + mapped.last());
    }
}

/// The rendered `FROM` list carries each registered table name exactly once,
/// however often it was registered: deduplication keeps the first occurrence
/// of every name and drops the rest.
pub proof fn lemma_from_list_holds_each_table_once<A>(s: Seq<A>)
    ensures
        dedup_first(s).no_duplicates(),
        forall|x: A| #[trigger] dedup_first(s).contains(x) <==> s.contains(x),
    decreases s.len(),
{
    broadcast use vstd::seq_lib::group_seq_properties;

    if s.len() == 0 {
        assert(dedup_first(s) =~= Seq::<A>::empty());
        assert forall|x: A| #[trigger] dedup_first(s).contains(x) <==> s.contains(x) by {
            assert(!s.contains(x));
            assert(!dedup_first(s).contains(x));
        }
    } else {
        let prefix = s.drop_last();
        let last = s.last();
        lemma_from_list_holds_each_table_once(prefix);
        assert(prefix.push(last) =~= s);
        assert forall|x: A| #[trigger] s.contains(x) implies prefix.contains(x) || x == last by {
            let i = choose|i: int| 0 <= i < s.len() && s[i] == x;
            if i < s.len() - 1 {
                assert(prefix[i] == x);
            }
        }
        if prefix.contains(last) {
            assert(dedup_first(s) == dedup_first(prefix));
            assert forall|x: A| #[trigger] dedup_first(s).contains(x) <==> s.contains(x) by {
                if x == last {
                    assert(s.contains(x));
                    assert(dedup_first(prefix).contains(x));
                }
            }
        } else {
            assert(dedup_first(s) == dedup_first(prefix).push(last));
            assert forall|x: A| #[trigger] dedup_first(s).contains(x) <==> s.contains(x) by {
                assert(dedup_first(prefix).push(last).contains(x) <==> (dedup_first(
                    prefix,
                ).contains(x) || x == last));
            }
            assert(!dedup_first(prefix).contains(last));
            assert forall|i: int, j: int|
                0 <= i < j < dedup_first(s).len() implies dedup_first(s)[i] != dedup_first(
                s,
            )[j] by {
                if j < dedup_first(s).len() - 1 {
                    assert(dedup_first(prefix)[i] == dedup_first(s)[i]);
                    assert(dedup_first(prefix)[j] == dedup_first(s)[j]);
                } else {
                    assert(dedup_first(s)[j] == last);
                    assert(dedup_first(prefix)[i] == dedup_first(s)[i]);
                    assert(dedup_first(prefix).contains(dedup_first(prefix)[i]));
                }
            }
        }
    }
}

/// Keep the first occurrence of every table name, in first-occurrence order.
fn dedup_tables(tables: &Vec<String>) -> (r: Vec<String>)
    ensures
        r.deep_view() == dedup_first(tables.deep_view()),
{
    let ghost tabs: Seq<Seq<char>> = tables.deep_view();
    let mut out: Vec<String> = Vec::new();
    let mut i: usize = 0;
    while i < tables.len()
        invariant
            i <= tables.len(),
            tabs == tables.deep_view(),
            out.deep_view() == dedup_first(tabs.take(i as int)),
        decreases tables.len() - i,
    {
        let mut found = false;
        let mut k: usize = 0;
        while k < i
            invariant
                k <= i < tables.len(),
                tabs == tables.deep_view(),
                found <==> exists|a: int| 0 <= a < k && tabs[a] == tabs[i as int],
            decreases i - k,
        {
            proof {
                assert(tabs[k as int] == tables@[k as int]@);
                assert(tabs[i as int] == tables@[i as int]@);
            }
            if string_eq(&tables[k], &tables[i]) {
                found = true;
            }
            k = k + 1;
        }
        proof {
            assert(forall|a: int| 0 <= a < i ==> tabs.take(i as int)[a] == tabs[a]);
            if found {
                let a = choose|a: int| 0 <= a < i && tabs[a] == tabs[i as int];
                assert(tabs.take(i as int)[a] == tabs[i as int]);
                assert(tabs.take(i as int).contains(tabs[i as int]));
            } else {
                assert(!tabs.take(i as int).contains(tabs[i as int]));
            }
        }
        let ghost out_before: Seq<Seq<char>> = out.deep_view();
        if !found {
            out.push(tables[i].clone());
            proof {
                assert(out.deep_view() =~= out_before.push(tabs[i as int]));
            }
        }
        i = i + 1;
        proof {
            assert(tabs.take(i as int).drop_last() =~= tabs.take(i as int - 1));
            assert(tabs.take(i as int).last() == tabs[i as int - 1]);
            assert(out.deep_view() =~= dedup_first(tabs.take(i as int)));
        }
    }
    proof {
        assert(tabs.take(tabs.len() as int) =~= tabs);
    }
    out
}

} // verus!
