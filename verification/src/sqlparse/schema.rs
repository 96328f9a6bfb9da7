//! The portable schema description: tables, columns and their flags, and the
//! rules that read them off a parsed column definition.

use vstd::prelude::*;

use crate::entity::string_eq;

verus! {

/// A foreign key read off a column definition: the referenced table and
/// column.
pub struct SqlForeignKey {
    /// The referenced table.
    pub target_table: String,
    /// The referenced column.
    pub target_column: String,
}

/// One column of a table's schema description.
pub struct SqlColumn {
    /// The column name.
    pub name: String,
    /// The database type, as SQL text.
    pub column_type: String,
    /// Whether the column accepts NULL.
    pub nullable: bool,
    /// Whether the column is unique (a primary key counts as unique).
    pub unique: bool,
    /// Whether the column is the primary key.
    pub primary_key: bool,
    /// The foreign key declared on the column, if any.
    pub foreign_key: Option<SqlForeignKey>,
}

/// One table of a schema description.
pub struct SqlTable {
    /// The table name.
    pub name: String,
    /// The table's columns, in declaration order.
    pub columns: Vec<SqlColumn>,
    /// The primary-key column name, if one is declared.
    pub primary_key: Option<String>,
}

/// A whole schema description: the tables read from a database.
pub struct SqlSchema {
    /// The tables, in the order they were read.
    pub tables: Vec<SqlTable>,
}

/// One option of a parsed column definition, reduced to what the schema
/// rules read. Everything else is `Other`.
pub enum RawColumnOption {
    /// `NULL`
    Null,
    /// `NOT NULL`
    NotNull,
    /// `PRIMARY KEY`
    PrimaryKey,
    /// `UNIQUE`
    Unique,
    /// `REFERENCES table (columns)`: all name parts of the referenced table,
    /// and the referenced columns.
    ForeignKey { target_tables: Vec<String>, target_columns: Vec<String> },
    /// Any option the schema rules do not read.
    Other,
}

/// One column definition as read off the parser: its name, its database
/// type rendered as SQL text, and its reduced option list.
pub struct RawColumn {
    /// The column name, unquoted.
    pub name: String,
    /// The database type, as SQL text.
    pub type_text: String,
    /// The column's options, reduced to what the schema rules read.
    pub options: Vec<RawColumnOption>,
}

/// The mathematical model of a [`RawColumn`].
pub struct RawColumnView {
    pub name: Seq<char>,
    pub type_text: Seq<char>,
    pub options: Seq<RawColumnOption>,
}

impl DeepView for RawColumn {
    type V = RawColumnView;

    open spec fn deep_view(&self) -> RawColumnView {
        RawColumnView { name: self.name@, type_text: self.type_text@, options: self.options@ }
    }
}

/// One `CREATE TABLE` definition as read off the parser: the table's name,
/// its column definitions in declaration order, and the table-level
/// primary-key clause rendered as text, if one was given.
pub struct RawTable {
    /// The first part of the table's name, unquoted.
    pub name: String,
    /// The column definitions, in declaration order.
    pub columns: Vec<RawColumn>,
    /// The table-level primary-key clause, as SQL text.
    pub primary_key: Option<String>,
}

/// The mathematical model of a [`RawTable`].
pub struct RawTableView {
    pub name: Seq<char>,
    pub columns: Seq<RawColumnView>,
    pub primary_key: Option<Seq<char>>,
}

impl DeepView for RawTable {
    type V = RawTableView;

    open spec fn deep_view(&self) -> RawTableView {
        RawTableView {
            name: self.name@,
            columns: self.columns.deep_view(),
            primary_key: self.primary_key.deep_view(),
        }
    }
}

/// Whether a column is nullable: the first `NULL` or `NOT NULL` option
/// decides; a column without either is nullable.
pub open spec fn nullable_of(options: Seq<RawColumnOption>) -> bool
    decreases options.len(),
{
    if options.len() == 0 {
        true
    } else {
        match options.first() {
            RawColumnOption::Null => true,
            RawColumnOption::NotNull => false,
            _ => nullable_of(options.drop_first()),
        }
    }
}

/// Whether a column is unique: any `UNIQUE` or `PRIMARY KEY` option makes it
/// so.
pub open spec fn unique_of(options: Seq<RawColumnOption>) -> bool {
    exists|i: int|
        0 <= i < options.len() && (options[i] is Unique || options[i] is PrimaryKey)
}

/// Whether a column is the primary key: any `PRIMARY KEY` option makes it
/// so.
pub open spec fn primary_key_of(options: Seq<RawColumnOption>) -> bool {
    exists|i: int| 0 <= i < options.len() && options[i] is PrimaryKey
}

/// The foreign key a column declares: the first `REFERENCES` option naming
/// exactly one referenced column (and at least one table name part) decides;
/// its target is the last part of the referenced table's name and the one
/// referenced column. Options referencing zero or several columns are
/// passed over.
pub open spec fn foreign_key_of(options: Seq<RawColumnOption>) -> Option<(Seq<char>, Seq<char>)>
    decreases options.len(),
{
    if options.len() == 0 {
        None
    } else {
        match options.first() {
            RawColumnOption::ForeignKey { target_tables, target_columns } => {
                if target_columns.deep_view().len() == 1 && target_tables.deep_view().len() >= 1 {
                    Some((target_tables.deep_view().last(), target_columns.deep_view()[0]))
                } else {
                    foreign_key_of(options.drop_first())
                }
            },
            _ => foreign_key_of(options.drop_first()),
        }
    }
}

/// Whether a column is nullable, by the first `NULL` or `NOT NULL` option.
fn nullable_from(options: &Vec<RawColumnOption>) -> (r: bool)
    ensures
        r == nullable_of(options@),
{
    let ghost opts: Seq<RawColumnOption> = options@;
    proof {
        assert(opts.skip(0) =~= opts);
    }
    let mut i: usize = 0;
    while i < options.len()
        invariant
            i <= options.len(),
            opts == options@,
            nullable_of(opts) == nullable_of(opts.skip(i as int)),
        decreases options.len() - i,
    {
        proof {
            assert(opts.skip(i as int).first() == opts[i as int]);
            assert(opts.skip(i as int).drop_first() =~= opts.skip(i as int + 1));
        }
        match &options[i] {
            RawColumnOption::Null => {
                return true;
            },
            RawColumnOption::NotNull => {
                return false;
            },
            _ => {},
        }
        i = i + 1;
    }
    proof {
        assert(opts.skip(opts.len() as int) =~= Seq::<RawColumnOption>::empty());
    }
    true
}

/// Whether any option makes the column unique.
fn unique_from(options: &Vec<RawColumnOption>) -> (r: bool)
    ensures
        r == unique_of(options@),
{
    let mut found = false;
    let mut i: usize = 0;
    while i < options.len()
        invariant
            i <= options.len(),
            found <==> exists|a: int|
                0 <= a < i && (options@[a] is Unique || options@[a] is PrimaryKey),
        decreases options.len() - i,
    {
        match &options[i] {
            RawColumnOption::Unique => {
                found = true;
            },
            RawColumnOption::PrimaryKey => {
                found = true;
            },
            _ => {},
        }
        i = i + 1;
    }
    found
}

/// Whether any option makes the column the primary key.
fn primary_key_from(options: &Vec<RawColumnOption>) -> (r: bool)
    ensures
        r == primary_key_of(options@),
{
    let mut found = false;
    let mut i: usize = 0;
    while i < options.len()
        invariant
            i <= options.len(),
            found <==> exists|a: int| 0 <= a < i && options@[a] is PrimaryKey,
        decreases options.len() - i,
    {
        match &options[i] {
            RawColumnOption::PrimaryKey => {
                found = true;
            },
            _ => {},
        }
        i = i + 1;
    }
    found
}

/// The foreign key the options declare, by the first qualifying
/// `REFERENCES` option.
fn foreign_key_from(options: &Vec<RawColumnOption>) -> (r: Option<SqlForeignKey>)
    ensures
        match r {
            Some(fk) => foreign_key_of(options@) == Some((fk.target_table@, fk.target_column@)),
            None => foreign_key_of(options@) is None,
        },
{
    let ghost opts: Seq<RawColumnOption> = options@;
    proof {
        assert(opts.skip(0) =~= opts);
    }
    let mut i: usize = 0;
    while i < options.len()
        invariant
            i <= options.len(),
            opts == options@,
            foreign_key_of(opts) == foreign_key_of(opts.skip(i as int)),
        decreases options.len() - i,
    {
        proof {
            assert(opts.skip(i as int).first() == opts[i as int]);
            assert(opts.skip(i as int).drop_first() =~= opts.skip(i as int + 1));
        }
        match &options[i] {
            RawColumnOption::ForeignKey { target_tables, target_columns } => {
                if target_columns.len() == 1 && target_tables.len() >= 1 {
                    let fk = SqlForeignKey {
                        target_table: target_tables[target_tables.len() - 1].clone(),
                        target_column: target_columns[0].clone(),
                    };
                    proof {
                        assert(target_tables.deep_view().last() == target_tables@[
                            target_tables@.len() - 1
                        ]@);
                        assert(target_columns.deep_view()[0] == target_columns@[0]@);
                    }
                    return Some(fk);
                }
            },
            _ => {},
        }
        i = i + 1;
    }
    proof {
        assert(opts.skip(opts.len() as int) =~= Seq::<RawColumnOption>::empty());
    }
    None
}

/// Whether `column` is exactly the schema description the rules read off
/// the parsed definition `raw`: same name and type text, nullability by the
/// first `NULL`/`NOT NULL` option, uniqueness and primary key by the
/// presence of their options, and the foreign key by the first qualifying
/// `REFERENCES` option.
pub open spec fn column_matches_raw(column: SqlColumn, raw: RawColumnView) -> bool {
    &&& column.name@ == raw.name
    &&& column.column_type@ == raw.type_text
    &&& column.nullable == nullable_of(raw.options)
    &&& column.unique == unique_of(raw.options)
    &&& column.primary_key == primary_key_of(raw.options)
    &&& (match column.foreign_key {
        Some(fk) => foreign_key_of(raw.options) == Some((fk.target_table@, fk.target_column@)),
        None => foreign_key_of(raw.options) is None,
    })
}

/// Whether `table` is exactly the schema description the rules read off the
/// parsed definition `raw`: same name, one described column per defined
/// column in order, and the primary key chosen as the first column flagged
/// as such, falling back to the table-level clause.
pub open spec fn table_matches_raw(table: SqlTable, raw: RawTableView) -> bool {
    &&& table.name@ == raw.name
    &&& table.columns@.len() == raw.columns.len()
    &&& (forall|j: int|
        0 <= j < raw.columns.len() ==> column_matches_raw(
            #[trigger] table.columns@[j],
            raw.columns[j],
        ))
    &&& (match first_primary_key(table.columns@) {
        Some(n) => table.primary_key matches Some(p) && p@ == n,
        None => (match raw.primary_key {
            Some(n) => table.primary_key matches Some(p) && p@ == n,
            None => table.primary_key is None,
        }),
    })
}

impl SqlColumn {
    /// Read a column's schema description off its parsed parts: its name,
    /// its database type as SQL text, and its reduced option list.
    pub fn from_parts(name: String, column_type: String, options: Vec<RawColumnOption>) -> (r:
        SqlColumn)
        ensures
            r.name == name,
            r.column_type == column_type,
            r.nullable == nullable_of(options@),
            r.unique == unique_of(options@),
            r.primary_key == primary_key_of(options@),
            match r.foreign_key {
                Some(fk) => foreign_key_of(options@) == Some(
                    (fk.target_table@, fk.target_column@),
                ),
                None => foreign_key_of(options@) is None,
            },
    {
        SqlColumn {
            name,
            column_type,
            nullable: nullable_from(&options),
            unique: unique_from(&options),
            primary_key: primary_key_from(&options),
            foreign_key: foreign_key_from(&options),
        }
    }

    /// Read a column's schema description off one parsed column definition.
    pub fn from_raw(raw: &RawColumn) -> (r: SqlColumn)
        ensures
            column_matches_raw(r, raw.deep_view()),
    {
        SqlColumn {
            name: raw.name.clone(),
            column_type: raw.type_text.clone(),
            nullable: nullable_from(&raw.options),
            unique: unique_from(&raw.options),
            primary_key: primary_key_from(&raw.options),
            foreign_key: foreign_key_from(&raw.options),
        }
    }
}

/// The name of the first column flagged as the primary key, if any.
pub open spec fn first_primary_key(columns: Seq<SqlColumn>) -> Option<Seq<char>>
    decreases columns.len(),
{
    if columns.len() == 0 {
        None
    } else if columns.first().primary_key {
        Some(columns.first().name@)
    } else {
        first_primary_key(columns.drop_first())
    }
}

impl SqlTable {
    /// Assemble a table's schema description: the first column flagged as
    /// the primary key names the key; failing that, a table-level primary
    /// key declaration, if one was given.
    pub fn from_parts(name: String, columns: Vec<SqlColumn>, table_primary_key: Option<String>)
        -> (r: SqlTable)
        ensures
            r.name == name,
            r.columns@ == columns@,
            match first_primary_key(columns@) {
                Some(n) => r.primary_key matches Some(p) && p@ == n,
                None => r.primary_key == table_primary_key,
            },
    {
        let ghost cols: Seq<SqlColumn> = columns@;
        proof {
            assert(cols.skip(0) =~= cols);
        }
        let mut i: usize = 0;
        while i < columns.len()
            invariant
                i <= columns.len(),
                cols == columns@,
                first_primary_key(cols) == first_primary_key(cols.skip(i as int)),
            decreases columns.len() - i,
        {
            proof {
                assert(cols.skip(i as int).first() == cols[i as int]);
                assert(cols.skip(i as int).drop_first() =~= cols.skip(i as int + 1));
            }
            if columns[i].primary_key {
                let key = columns[i].name.clone();
                return SqlTable { name, columns, primary_key: Some(key) };
            }
            i = i + 1;
        }
        proof {
            assert(cols.skip(cols.len() as int) =~= Seq::<SqlColumn>::empty());
        }
        SqlTable { name, columns, primary_key: table_primary_key }
    }

    /// Read a table's schema description off one parsed `CREATE TABLE`
    /// definition: each column described in order, the primary key chosen by
    /// [`SqlTable::from_parts`]'s rule.
    pub fn from_raw(raw: &RawTable) -> (r: SqlTable)
        ensures
            table_matches_raw(r, raw.deep_view()),
    {
        let mut columns: Vec<SqlColumn> = Vec::new();
        let mut j: usize = 0;
        while j < raw.columns.len()
            invariant
                j <= raw.columns.len(),
                columns@.len() == j,
                forall|k: int|
                    0 <= k < j ==> column_matches_raw(
                        #[trigger] columns@[k],
                        raw.columns.deep_view()[k],
                    ),
            decreases raw.columns.len() - j,
        {
            columns.push(SqlColumn::from_raw(&raw.columns[j]));
            j = j + 1;
            proof {
                assert(raw.columns.deep_view()[j - 1] == raw.columns@[j - 1].deep_view());
            }
        }
        let table_primary_key = match &raw.primary_key {
            Some(p) => Some(p.clone()),
            None => None,
        };
        let r = SqlTable::from_parts(raw.name.clone(), columns, table_primary_key);
        proof {
            assert(table_matches_raw(r, raw.deep_view()));
        }
        r
    }

    /// The first column with the given name, if any.
    pub fn find_column(&self, name: &str) -> (r: Option<&SqlColumn>)
        ensures
            match r {
                Some(c) => column_lookup(self.columns@, name@) == Some(*c),
                None => column_lookup(self.columns@, name@) is None,
            },
    {
        let ghost cols: Seq<SqlColumn> = self.columns@;
        proof {
            assert(cols.skip(0) =~= cols);
        }
        let mut i: usize = 0;
        while i < self.columns.len()
            invariant
                i <= self.columns.len(),
                cols == self.columns@,
                column_lookup(cols, name@) == column_lookup(cols.skip(i as int), name@),
            decreases self.columns.len() - i,
        {
            proof {
                assert(cols.skip(i as int).first() == cols[i as int]);
                assert(cols.skip(i as int).drop_first() =~= cols.skip(i as int + 1));
            }
            if str_eq_string(name, &self.columns[i].name) {
                return Some(&self.columns[i]);
            }
            i = i + 1;
        }
        proof {
            assert(cols.skip(cols.len() as int) =~= Seq::<SqlColumn>::empty());
        }
        None
    }
}

/// The first column with the given name, if any.
pub open spec fn column_lookup(columns: Seq<SqlColumn>, name: Seq<char>) -> Option<SqlColumn>
    decreases columns.len(),
{
    if columns.len() == 0 {
        None
    } else if columns.first().name@ == name {
        Some(columns.first())
    } else {
        column_lookup(columns.drop_first(), name)
    }
}

/// The first table with the given name, if any.
pub open spec fn table_lookup(tables: Seq<SqlTable>, name: Seq<char>) -> Option<SqlTable>
    decreases tables.len(),
{
    if tables.len() == 0 {
        None
    } else if tables.first().name@ == name {
        Some(tables.first())
    } else {
        table_lookup(tables.drop_first(), name)
    }
}

impl SqlSchema {
    /// The first table with the given name, if any.
    pub fn find_table(&self, name: &str) -> (r: Option<&SqlTable>)
        ensures
            match r {
                Some(t) => table_lookup(self.tables@, name@) == Some(*t),
                None => table_lookup(self.tables@, name@) is None,
            },
    {
        let ghost tables: Seq<SqlTable> = self.tables@;
        proof {
            assert(tables.skip(0) =~= tables);
        }
        let mut i: usize = 0;
        while i < self.tables.len()
            invariant
                i <= self.tables.len(),
                tables == self.tables@,
                table_lookup(tables, name@) == table_lookup(tables.skip(i as int), name@),
            decreases self.tables.len() - i,
        {
            proof {
                assert(tables.skip(i as int).first() == tables[i as int]);
                assert(tables.skip(i as int).drop_first() =~= tables.skip(i as int + 1));
            }
            if str_eq_string(name, &self.tables[i].name) {
                return Some(&self.tables[i]);
            }
            i = i + 1;
        }
        proof {
            assert(tables.skip(tables.len() as int) =~= Seq::<SqlTable>::empty());
        }
        None
    }
}

/// String-slice equality against an owned string, by contents.
fn str_eq_string(a: &str, b: &String) -> (r: bool)
    ensures
        r == (a@ == b@),
{
    let owned: String = a.to_owned();
    string_eq(&owned, b)
}

} // verus!
