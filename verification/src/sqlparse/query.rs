//! Reading `CREATE TABLE` statements into schema descriptions, through the
//! outside SQL parser.

use vstd::prelude::*;

use crate::sqlparse::schema::{
    table_matches_raw, RawColumn, RawColumnOption, RawTable, RawTableView, SqlTable,
};
use sqlparser::ast::{ColumnDef, ColumnOption, ColumnOptionDef, Statement};
use sqlparser::dialect::SQLiteDialect;
use sqlparser::parser::{Parser, ParserError};

verus! {

/// A fault while parsing SQL text into a schema description.
#[derive(Debug)]
pub enum SchemaParseError {
    /// The tokenizer rejected the text; holds its message.
    Tokenizer(String),
    /// The parser rejected the text; holds its message.
    Syntax(String),
    /// The parser's recursion depth limit was exceeded.
    RecursionLimit,
}

/// The mathematical model of a [`SchemaParseError`].
pub enum SchemaParseErrorView {
    Tokenizer(Seq<char>),
    Syntax(Seq<char>),
    RecursionLimit,
}

impl DeepView for SchemaParseError {
    type V = SchemaParseErrorView;

    open spec fn deep_view(&self) -> SchemaParseErrorView {
        match self {
            SchemaParseError::Tokenizer(m) => SchemaParseErrorView::Tokenizer(m@),
            SchemaParseError::Syntax(m) => SchemaParseErrorView::Syntax(m@),
            SchemaParseError::RecursionLimit => SchemaParseErrorView::RecursionLimit,
        }
    }
}

#[verifier::external_type_specification]
#[verifier::external_body]
pub struct ExSqlStatement(Statement);

#[verifier::external_type_specification]
#[verifier::external_body]
pub struct ExColumnDef(ColumnDef);

#[verifier::external_type_specification]
#[verifier::external_body]
pub struct ExColumnOptionDef(ColumnOptionDef);

/// What parsing SQL text as SQLite dialect yields: either the `CREATE
/// TABLE` definitions it holds, in statement order and reduced to plain
/// values, or the parser's refusal. The outside parser's result depends on
/// the text alone, so this names it; what a schema description makes of
/// each named definition is stated exactly, in [`parse_tables`], over this
/// name.
pub uninterp spec fn sqlite_raw_of(query: Seq<char>) -> Result<
    Seq<RawTableView>,
    SchemaParseErrorView,
>;

/// Relies on sqlparser's `Parser::parse_sql` with the SQLite dialect, and on
/// the `Statement`, `CreateTable`, `ColumnDef` and `ColumnOption` shapes its
/// result is read through (one trusted accessor each, below): parses SQL
/// text into the reduced `CREATE TABLE` definitions, in statement order —
/// the result named [`sqlite_raw_of`] — or reports the parser's refusal,
/// message included.
#[verifier::external_body]
fn parse_sqlite_raw(query: &str) -> (r: Result<Vec<RawTable>, SchemaParseError>)
    ensures
        match r {
            Ok(tables) => sqlite_raw_of(query@) matches Ok(v) && tables.deep_view() == v,
            Err(e) => sqlite_raw_of(query@) matches Err(ev) && e.deep_view() == ev,
        },
{
    match Parser::parse_sql(&SQLiteDialect {}, query) {
        Ok(statements) => Ok(statements.iter().filter_map(raw_table_of).collect()),
        Err(ParserError::TokenizerError(m)) => Err(SchemaParseError::Tokenizer(m)),
        Err(ParserError::ParserError(m)) => Err(SchemaParseError::Syntax(m)),
        Err(ParserError::RecursionLimitExceeded) => Err(SchemaParseError::RecursionLimit),
    }
}

/// Relies on sqlparser's `Statement` and `CreateTable` shapes: for a
/// `CREATE TABLE` statement, hands out the first part of the table's name
/// (unquoted), its column definitions reduced to plain values, and the
/// table-level primary-key clause rendered as text, if any; anything else
/// is `None`. Carries no contract of its own; it stands behind
/// [`sqlite_raw_of`].
#[verifier::external_body]
fn raw_table_of(statement: &Statement) -> Option<RawTable> {
    match statement {
        Statement::CreateTable(ct) => Some(RawTable {
            name: ct.name.0.first()?.as_ident()?.value.clone(),
            columns: ct.columns.iter().map(raw_column_of).collect(),
            primary_key: ct.primary_key.as_ref().map(|e| e.to_string()),
        }),
        _ => None,
    }
}

/// Relies on sqlparser's `ColumnDef` fields: hands out the column's name
/// (unquoted), its data type rendered as SQL text, and its reduced option
/// list. Carries no contract of its own; it stands behind
/// [`sqlite_raw_of`].
#[verifier::external_body]
fn raw_column_of(column: &ColumnDef) -> RawColumn {
    RawColumn {
        name: column.name.value.clone(),
        type_text: column.data_type.to_string(),
        options: column.options.iter().map(classify_option).collect(),
    }
}

/// Relies on sqlparser's `ColumnOption` variants: reduces one column option
/// to the cases the schema rules read, carrying a foreign key's referenced
/// table name parts and referenced columns over as rendered text. Carries
/// no contract of its own; it stands behind [`sqlite_raw_of`].
#[verifier::external_body]
fn classify_option(option: &ColumnOptionDef) -> RawColumnOption {
    match &option.option {
        ColumnOption::Null => RawColumnOption::Null,
        ColumnOption::NotNull => RawColumnOption::NotNull,
        ColumnOption::PrimaryKey(_) => RawColumnOption::PrimaryKey,
        ColumnOption::Unique(_) => RawColumnOption::Unique,
        ColumnOption::ForeignKey(fk) => RawColumnOption::ForeignKey {
            target_tables: fk.foreign_table.0.iter().map(|p| p.to_string()).collect(),
            target_columns: fk.referred_columns.iter().map(|c| c.to_string()).collect(),
        },
        _ => RawColumnOption::Other,
    }
}

/// Parse SQL text holding one or more `CREATE TABLE` statements — as SQLite
/// dialect — into a schema description of each such statement, in statement
/// order; statements of any other kind are passed over, so the result may
/// be empty. The call fails exactly when the outside parser refuses the
/// text, carrying the parser's error kind and message; otherwise each
/// description is read off its named definition by
/// [`SqlTable::from_raw`]'s rules exactly.
pub fn parse_tables(query: &str) -> (r: Result<Vec<SqlTable>, SchemaParseError>)
    ensures
        r is Ok <==> sqlite_raw_of(query@) is Ok,
        r matches Err(e) ==> (sqlite_raw_of(query@) matches Err(ev) && e.deep_view() == ev),
        r matches Ok(tables) ==> (sqlite_raw_of(query@) matches Ok(raw) && tables@.len()
            == raw.len() && (forall|i: int|
            0 <= i < raw.len() ==> table_matches_raw(#[trigger] tables@[i], raw[i]))),
{
    let raw_tables = match parse_sqlite_raw(query) {
        Ok(t) => t,
        Err(e) => {
            return Err(e);
        },
    };
    let ghost raw: Seq<RawTableView> = raw_tables.deep_view();
    let mut tables: Vec<SqlTable> = Vec::new();
    let mut i: usize = 0;
    while i < raw_tables.len()
        invariant
            i <= raw_tables.len(),
            raw == raw_tables.deep_view(),
            raw.len() == raw_tables@.len(),
            tables@.len() == i,
            forall|k: int| 0 <= k < i ==> table_matches_raw(#[trigger] tables@[k], raw[k]),
        decreases raw_tables.len() - i,
    {
        tables.push(SqlTable::from_raw(&raw_tables[i]));
        i = i + 1;
        proof {
            assert(raw[i - 1] == raw_tables@[i - 1].deep_view());
        }
    }
    Ok(tables)
}

} // verus!
