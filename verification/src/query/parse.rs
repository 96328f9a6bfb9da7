//! Row hydration: looking fields up by database column name and turning
//! returned rows into records.

use vstd::prelude::*;

use crate::entity::Entity;
use crate::query::Value;

verus! {

/// A fault while executing or decoding a query.
#[derive(Debug)]
pub enum QueryError {
    /// A single-row lookup matched no row: a distinguished, expected outcome
    /// rather than an exceptional one.
    RowNotFound,
    /// A row lacked a column the entity declares; holds the column name.
    /// Aborts parsing the whole call.
    ColumnNotFound(String),
}

/// One returned field: a database column name and its decoded value.
pub struct RowField {
    /// The database column name.
    pub name: String,
    /// The decoded value.
    pub value: Value,
}

/// One returned row: its fields in whatever order the backend produced them.
/// Lookup is by column name, not position, so renamed or reordered columns
/// do not break hydration.
pub struct Row {
    /// The returned fields.
    pub fields: Vec<RowField>,
}

/// The value of the first field with the given name, if any.
pub open spec fn row_lookup(fields: Seq<RowField>, name: Seq<char>) -> Option<
    crate::query::ValueView,
>
    decreases fields.len(),
{
    if fields.len() == 0 {
        None
    } else if fields.first().name@ == name {
        Some(fields.first().value@)
    } else {
        row_lookup(fields.drop_first(), name)
    }
}

impl Row {
    /// The fields of this row, as a sequence.
    pub open spec fn fields_view(&self) -> Seq<RowField> {
        self.fields@
    }

    /// Look a field up by its database column name; the first field with
    /// that name wins.
    pub fn get(&self, name: &String) -> (r: Option<&Value>)
        ensures
            match r {
                Some(v) => row_lookup(self.fields_view(), name@) == Some(v@),
                None => row_lookup(self.fields_view(), name@) is None,
            },
    {
        let ghost fields: Seq<RowField> = self.fields@;
        proof {
            assert(fields.skip(0) =~= fields);
        }
        let mut i: usize = 0;
        while i < self.fields.len()
            invariant
                i <= self.fields.len(),
                fields == self.fields@,
                row_lookup(fields, name@) == row_lookup(fields.skip(i as int), name@),
            decreases self.fields.len() - i,
        {
            proof {
                assert(fields.skip(i as int).first() == fields[i as int]);
                assert(fields.skip(i as int).drop_first() =~= fields.skip(i as int + 1));
            }
            if crate::entity::string_eq(&self.fields[i].name, name) {
                return Some(&self.fields[i].value);
            }
            i = i + 1;
        }
        proof {
            assert(fields.skip(fields.len() as int) =~= Seq::<RowField>::empty());
        }
        None
    }
}

/// Whether a row carries every column the entity declares.
pub open spec fn row_covers(fields: Seq<RowField>, columns: Seq<Seq<char>>) -> bool {
    forall|i: int| 0 <= i < columns.len() ==> row_lookup(fields, columns[i]) is Some
}

/// Whether `c` is the first of the declared columns that the row lacks:
/// some declared column named `c` is absent from the row, and every
/// declared column before it is present.
pub open spec fn first_missing_column(
    fields: Seq<RowField>,
    columns: Seq<Seq<char>>,
    c: Seq<char>,
) -> bool {
    exists|i: int|
        0 <= i < columns.len() && #[trigger] columns[i] == c && row_lookup(fields, c) is None && (
        forall|k: int| 0 <= k < i ==> row_lookup(fields, #[trigger] columns[k]) is Some)
}

/// The record a covering row parses to: for each declared column, in
/// declaration order, the value of the row's first field of that name.
pub open spec fn parsed_record(fields: Seq<RowField>, columns: Seq<Seq<char>>) -> Seq<
    crate::query::ValueView,
> {
    Seq::new(
        columns.len(),
        |i: int|
            match row_lookup(fields, columns[i]) {
                Some(v) => v,
                None => crate::query::ValueView::Null,
            },
    )
}

/// Parse one row into a record: each field is looked up by its database
/// column name, in the entity's declaration order. A missing column aborts
/// the row, naming the first declared column the row lacks; nothing else
/// fails.
pub fn parse_record(entity: &Entity, row: &Row) -> (r: Result<Vec<Value>, QueryError>)
    ensures
        r is Ok <==> row_covers(row.fields_view(), entity.columns_view()),
        r matches Ok(values) ==> values.deep_view() == parsed_record(
            row.fields_view(),
            entity.columns_view(),
        ),
        r matches Err(QueryError::ColumnNotFound(c)) ==> first_missing_column(
            row.fields_view(),
            entity.columns_view(),
            c@,
        ),
        !(r matches Err(QueryError::RowNotFound)),
{
    let ghost columns: Seq<Seq<char>> = entity.columns_view();
    let mut out: Vec<Value> = Vec::new();
    proof {
        assert(out.deep_view() =~= parsed_record(row.fields_view(), columns).take(0));
    }
    let mut i: usize = 0;
    while i < entity.column_names.len()
        invariant
            i <= entity.column_names.len(),
            columns == entity.columns_view(),
            out.deep_view() == parsed_record(row.fields_view(), columns).take(i as int),
            forall|k: int| 0 <= k < i ==> row_lookup(row.fields_view(), columns[k]) is Some,
        decreases entity.column_names.len() - i,
    {
        proof {
            assert(columns[i as int] == entity.column_names@[i as int]@);
        }
        match row.get(&entity.column_names[i]) {
            Some(value) => {
                let ghost out_before: Seq<crate::query::ValueView> = out.deep_view();
                let cloned = value.clone();
                out.push(cloned);
                i = i + 1;
                proof {
                    assert(row_lookup(row.fields_view(), columns[i as int - 1]) == Some(value@));
                    assert(parsed_record(row.fields_view(), columns)[i as int - 1] == value@);
                    assert(out@.last() == value);
                    assert(out.deep_view() =~= out_before.push(value@));
                    assert(out.deep_view() =~= parsed_record(row.fields_view(), columns).take(
                        i as int,
                    ));
                }
            },
            None => {
                let missing = entity.column_names[i].clone();
                proof {
                    assert(columns[i as int] == missing@);
                    assert(first_missing_column(row.fields_view(), columns, missing@));
                }
                return Err(QueryError::ColumnNotFound(missing));
            },
        }
    }
    proof {
        assert(out.deep_view() =~= parsed_record(row.fields_view(), columns));
    }
    Ok(out)
}

/// Parse every returned row into a record, in order. The first row that
/// fails to parse aborts the whole call, naming the first declared column
/// that row lacks; no rows at all is a normal outcome with an empty result.
pub fn all_from_rows(entity: &Entity, rows: &Vec<Row>) -> (r: Result<Vec<Vec<Value>>, QueryError>)
    ensures
        r is Ok <==> forall|i: int|
            0 <= i < rows@.len() ==> row_covers(rows@[i].fields_view(), entity.columns_view()),
        r matches Ok(records) ==> records@.len() == rows@.len() && forall|i: int|
            0 <= i < rows@.len() ==> #[trigger] records@[i].deep_view() == parsed_record(
                rows@[i].fields_view(),
                entity.columns_view(),
            ),
        r matches Err(QueryError::ColumnNotFound(c)) ==> exists|i: int|
            0 <= i < rows@.len() && first_missing_column(
                #[trigger] rows@[i].fields_view(),
                entity.columns_view(),
                c@,
            ) && (forall|k: int|
                0 <= k < i ==> row_covers(rows@[k].fields_view(), entity.columns_view())),
        !(r matches Err(QueryError::RowNotFound)),
{
    let mut out: Vec<Vec<Value>> = Vec::new();
    let mut i: usize = 0;
    while i < rows.len()
        invariant
            i <= rows.len(),
            out@.len() == i,
            forall|k: int|
                0 <= k < i ==> row_covers(rows@[k].fields_view(), entity.columns_view()),
            forall|k: int|
                0 <= k < i ==> #[trigger] out@[k].deep_view() == parsed_record(
                    rows@[k].fields_view(),
                    entity.columns_view(),
                ),
        decreases rows.len() - i,
    {
        match parse_record(entity, &rows[i]) {
            Ok(record) => {
                out.push(record);
                i = i + 1;
            },
            Err(e) => {
                return Err(e);
            },
        }
    }
    Ok(out)
}

/// Parse a single-row result: no row at all is the distinguished
/// [`QueryError::RowNotFound`] outcome; otherwise the first row is parsed
/// and any further rows are ignored.
pub fn one_from_rows(entity: &Entity, rows: &Vec<Row>) -> (r: Result<Vec<Value>, QueryError>)
    ensures
        rows@.len() == 0 <==> r matches Err(QueryError::RowNotFound),
        rows@.len() > 0 ==> (r is Ok <==> row_covers(rows@[0].fields_view(),
        entity.columns_view())),
        r matches Ok(values) ==> rows@.len() > 0 && values.deep_view() == parsed_record(
            rows@[0].fields_view(),
            entity.columns_view(),
        ),
        r matches Err(QueryError::ColumnNotFound(c)) ==> rows@.len() > 0 && first_missing_column(
            rows@[0].fields_view(),
            entity.columns_view(),
            c@,
        ),
{
    if rows.len() == 0 {
        Err(QueryError::RowNotFound)
    } else {
        parse_record(entity, &rows[0])
    }
}

} // verus!
