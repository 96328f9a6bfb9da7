//! Entity descriptors: the binding of one table to its ordered column list
//! and its primary-key column.

pub mod column;
pub mod model;
pub mod relation;

use vstd::prelude::*;

use crate::query::select::Select;

verus! {

/// A declaration-time fault in an entity descriptor. These are fatal at
/// generation time and never recoverable at runtime.
#[derive(Debug)]
pub enum EntityError {
    /// Two columns carry the same name; holds the repeated name.
    DuplicateColumn(String),
    /// The designated primary-key column is not part of the column list.
    MissingPrimaryKey,
}

/// Whether a sequence holds two equal elements at different positions.
pub open spec fn has_duplicate<A>(s: Seq<A>) -> bool {
    exists|i: int, j: int| 0 <= i < j < s.len() && s[i] == s[j]
}

/// An entity: identifies one table and holds its name, its ordered
/// column-name list (the render order for `SELECT`), and the designated
/// primary-key column. Immutable after generation.
pub struct Entity {
    /// The name of this entity's table in the database.
    pub table_name: String,
    /// The names of the table's columns, in declaration order.
    pub column_names: Vec<String>,
    /// The name of the primary-key column.
    pub primary_key: String,
}

impl Entity {
    /// The table name, as a sequence of characters.
    pub open spec fn table_view(&self) -> Seq<char> {
        self.table_name@
    }

    /// The column names, each as a sequence of characters.
    pub open spec fn columns_view(&self) -> Seq<Seq<char>> {
        self.column_names.deep_view()
    }

    /// The primary-key column name, as a sequence of characters.
    pub open spec fn pk_view(&self) -> Seq<char> {
        self.primary_key@
    }

    /// A well-formed entity names each column once and designates one of its
    /// own columns as the primary key.
    pub open spec fn well_formed(&self) -> bool {
        &&& !has_duplicate(self.columns_view())
        &&& self.columns_view().contains(self.pk_view())
    }

    /// Validate and build an entity descriptor. Exactly the descriptors with
    /// distinct column names and a primary key drawn from those columns are
    /// accepted; a repeated column name is reported over a missing primary
    /// key.
    pub fn new(table_name: String, column_names: Vec<String>, primary_key: String) -> (r: Result<
        Entity,
        EntityError,
    >)
        ensures
            r is Ok <==> (!has_duplicate(column_names.deep_view())
                && column_names.deep_view().contains(primary_key@)),
            r matches Ok(e) ==> e == (Entity { table_name, column_names, primary_key }),
            r matches Err(EntityError::DuplicateColumn(c)) ==> exists|i: int, j: int|
                0 <= i < j < column_names.deep_view().len() && column_names.deep_view()[i]
                    == column_names.deep_view()[j] && column_names.deep_view()[j] == c@,
            r matches Err(EntityError::MissingPrimaryKey) ==> !column_names.deep_view().contains(
                primary_key@,
            ),
    {
        let ghost cols: Seq<Seq<char>> = column_names.deep_view();
        let mut j: usize = 1;
        while j < column_names.len()
            invariant
                1 <= j,
                cols == column_names.deep_view(),
                forall|a: int, b: int| 0 <= a < b < j && b < cols.len() ==> cols[a] != cols[b],
            decreases column_names.len() - j,
        {
            let mut i: usize = 0;
            while i < j
                invariant
                    i <= j < column_names.len(),
                    cols == column_names.deep_view(),
                    forall|a: int| 0 <= a < i ==> cols[a] != cols[j as int],
                decreases j - i,
            {
                proof {
                    assert(cols[i as int] == column_names@[i as int]@);
                    assert(cols[j as int] == column_names@[j as int]@);
                }
                if string_eq(&column_names[i], &column_names[j]) {
                    let dup = column_names[j].clone();
                    proof {
                        assert(cols[i as int] == cols[j as int] && cols[j as int] == dup@);
                        assert(exists|a: int, b: int|
                            0 <= a < b < cols.len() && cols[a] == cols[b] && cols[b] == dup@);
                    }
                    return Err(EntityError::DuplicateColumn(dup));
                }
                i = i + 1;
            }
            j = j + 1;
        }
        assert(!has_duplicate(cols));
        let mut k: usize = 0;
        let mut pk_found = false;
        while k < column_names.len()
            invariant
                k <= column_names.len(),
                cols == column_names.deep_view(),
                pk_found == exists|a: int| 0 <= a < k && cols[a] == primary_key@,
            decreases column_names.len() - k,
        {
            proof {
                assert(cols[k as int] == column_names@[k as int]@);
            }
            if string_eq(&column_names[k], &primary_key) {
                pk_found = true;
            }
            k = k + 1;
        }
        if !pk_found {
            assert(!cols.contains(primary_key@));
            return Err(EntityError::MissingPrimaryKey);
        }
        assert(cols.contains(primary_key@));
        Ok(Entity { table_name, column_names, primary_key })
    }

    /// The fully qualified name of one of this entity's columns:
    /// `"table_name"."column_name"`.
    pub fn full_column_name(&self, column_name: &String) -> (r:
        crate::entity::column::ColumnName)
        ensures
            r.table_view() == Some(self.table_view()),
            r.column_view() == column_name@,
    {
        crate::entity::column::ColumnName::new_with_table_or_alias(
            self.table_name.clone(),
            column_name.clone(),
        )
    }

    /// The position of the first column with the given name, if any: the
    /// index a parsed record holds that column's value at.
    pub fn column_index(&self, name: &String) -> (r: Option<usize>)
        ensures
            match r {
                Some(i) => i < self.columns_view().len() && self.columns_view()[i as int] == name@
                    && forall|k: int| 0 <= k < i ==> self.columns_view()[k] != name@,
                None => forall|k: int|
                    0 <= k < self.columns_view().len() ==> self.columns_view()[k] != name@,
            },
    {
        let ghost cols: Seq<Seq<char>> = self.columns_view();
        let mut i: usize = 0;
        while i < self.column_names.len()
            invariant
                i <= self.column_names.len(),
                cols == self.columns_view(),
                forall|k: int| 0 <= k < i ==> cols[k] != name@,
            decreases self.column_names.len() - i,
        {
            proof {
                assert(cols[i as int] == self.column_names@[i as int]@);
            }
            if string_eq(&self.column_names[i], name) {
                return Some(i);
            }
            i = i + 1;
        }
        None
    }

    /// Obtain a select builder for this entity, with no conditions and no
    /// additional tables.
    pub fn find(&self) -> (r: Select)
        ensures
            r.entity_table() == self.table_view(),
            r.entity_columns() == self.columns_view(),
            r.entity_pk() == self.pk_view(),
            r.conditions() == Seq::<crate::query::QueryExpr>::empty(),
            r.additional_tables() == Seq::<Seq<char>>::empty(),
    {
        Select::new(self.clone())
    }
}

impl Clone for Entity {
    fn clone(&self) -> (r: Entity)
        ensures
            r.table_view() == self.table_view(),
            r.columns_view() == self.columns_view(),
            r.pk_view() == self.pk_view(),
    {
        let r = Entity {
            table_name: self.table_name.clone(),
            column_names: clone_string_vec(&self.column_names),
            primary_key: self.primary_key.clone(),
        };
        proof {
            assert(r.columns_view() =~= self.columns_view());
        }
        r
    }
}

/// String equality by contents.
pub(crate) fn string_eq(a: &String, b: &String) -> (r: bool)
    ensures
        r == (a@ == b@),
{
    *a == *b
}

/// Clone a vector of strings element by element.
pub(crate) fn clone_string_vec(v: &Vec<String>) -> (r: Vec<String>)
    ensures
        r@ == v@,
{
    let mut out: Vec<String> = Vec::new();
    let mut i: usize = 0;
    while i < v.len()
        invariant
            i <= v.len(),
            out@ == v@.take(i as int),
        decreases v.len() - i,
    {
        out.push(v[i].clone());
        i = i + 1;
        proof {
            assert(out@ =~= v@.take(i as int));
        }
    }
    proof {
        assert(v@.take(v@.len() as int) =~= v@);
    }
    out
}

} // verus!
