//! Column names and the condition constructors built from them.

use vstd::prelude::*;

use crate::query::{BinaryExprOperand, QueryExpr, QueryVariable, SingletonExprOperand, Value};

verus! {

/// The rendered form of a column qualified by a table or alias:
/// `"table"."column"`.
pub open spec fn qualified_name(table: Seq<char>, column: Seq<char>) -> Seq<char> {
    "\""@ + table + "\""@ + "."@ + "\""@ + column + "\""@
}

/// The rendered form of a bare column: `"column"`.
pub open spec fn bare_name(column: Seq<char>) -> Seq<char> {
    "\""@ + column + "\""@
}

/// The name of a column on a particular table.
pub struct ColumnName {
    table_or_alias: Option<String>,
    column_name: String,
}

impl ColumnName {
    /// The table-or-alias part, as a sequence of characters, if present.
    pub closed spec fn table_view(&self) -> Option<Seq<char>> {
        match self.table_or_alias {
            Some(ref t) => Some(t@),
            None => None,
        }
    }

    /// The column part, as a sequence of characters.
    pub closed spec fn column_view(&self) -> Seq<char> {
        self.column_name@
    }

    /// How this name renders into SQL: double-quoted, the table part (when
    /// present) separated from the column part by a dot.
    pub open spec fn sql_view(&self) -> Seq<char> {
        match self.table_view() {
            Some(t) => qualified_name(t, self.column_view()),
            None => bare_name(self.column_view()),
        }
    }

    /// A column name qualified by its table or an alias.
    pub fn new_with_table_or_alias(table_or_alias: String, column_name: String) -> (r:
        ColumnName)
        ensures
            r.table_view() == Some(table_or_alias@),
            r.column_view() == column_name@,
    {
        ColumnName { table_or_alias: Some(table_or_alias), column_name }
    }

    /// A bare column name, rendered without a table part.
    pub fn new_bare(column_name: String) -> (r: ColumnName)
        ensures
            r.table_view() == None::<Seq<char>>,
            r.column_view() == column_name@,
    {
        ColumnName { table_or_alias: None, column_name }
    }

    /// The name of the column within the database.
    pub fn column_name(&self) -> (r: &String)
        ensures
            r@ == self.column_view(),
    {
        &self.column_name
    }

    /// The name of the table within the database that this column is part of.
    pub fn table_or_alias(&self) -> (r: Option<&String>)
        ensures
            match r {
                Some(t) => self.table_view() == Some(t@),
                None => self.table_view() == None::<Seq<char>>,
            },
    {
        self.table_or_alias.as_ref()
    }

    /// Append this name's rendered form to a statement buffer.
    pub fn push_to(&self, builder: &mut crate::query::StatementBuffer)
        ensures
            final(builder).sql() == old(builder).sql() + self.sql_view(),
            final(builder).params() == old(builder).params(),
    {
        match &self.table_or_alias {
            Some(table) => {
                builder.push("\"");
                builder.push(table.as_str());
                builder.push("\"");
                builder.push(".");
                builder.push("\"");
                builder.push(self.column_name.as_str());
                builder.push("\"");
            },
            None => {
                builder.push("\"");
                builder.push(self.column_name.as_str());
                builder.push("\"");
            },
        }
        proof {
            assert(builder.sql() =~= old(builder).sql() + self.sql_view());
        }
    }

    /// This name's rendered form, as an owned string.
    pub fn sql_string(&self) -> (r: String)
        ensures
            r@ == self.sql_view(),
    {
        let mut builder = crate::query::StatementBuffer::new();
        self.push_to(&mut builder);
        builder.into_sql()
    }

    /// Check whether this column equals some other value.
    ///
    /// Note that supplying [`Value::Null`] is *not* equivalent to calling
    /// [`is_null`](ColumnName::is_null): it produces the SQL `column = NULL`,
    /// as opposed to `column IS NULL`.
    pub fn eq(self, other: Value) -> (r: QueryExpr)
        ensures
            r == QueryExpr::binary_of(self, BinaryExprOperand::Equals, QueryExpr::Variable(
                QueryVariable { value: other },
            )),
    {
        self.compare(BinaryExprOperand::Equals, other)
    }

    /// Check whether this column does *not* equal some other value.
    pub fn not_eq(self, other: Value) -> (r: QueryExpr)
        ensures
            r == QueryExpr::binary_of(self, BinaryExprOperand::DoesNotEqual, QueryExpr::Variable(
                QueryVariable { value: other },
            )),
    {
        self.compare(BinaryExprOperand::DoesNotEqual, other)
    }

    /// Check whether the value of this column is greater than `other`.
    pub fn gt(self, other: Value) -> (r: QueryExpr)
        ensures
            r == QueryExpr::binary_of(self, BinaryExprOperand::Gt, QueryExpr::Variable(
                QueryVariable { value: other },
            )),
    {
        self.compare(BinaryExprOperand::Gt, other)
    }

    /// Check whether the value of this column is less than `other`.
    pub fn lt(self, other: Value) -> (r: QueryExpr)
        ensures
            r == QueryExpr::binary_of(self, BinaryExprOperand::Lt, QueryExpr::Variable(
                QueryVariable { value: other },
            )),
    {
        self.compare(BinaryExprOperand::Lt, other)
    }

    /// Check whether the value of this column is greater than or equal to
    /// `other`.
    pub fn geq(self, other: Value) -> (r: QueryExpr)
        ensures
            r == QueryExpr::binary_of(self, BinaryExprOperand::Geq, QueryExpr::Variable(
                QueryVariable { value: other },
            )),
    {
        self.compare(BinaryExprOperand::Geq, other)
    }

    /// Check whether the value of this column is less than or equal to
    /// `other`.
    pub fn leq(self, other: Value) -> (r: QueryExpr)
        ensures
            r == QueryExpr::binary_of(self, BinaryExprOperand::Leq, QueryExpr::Variable(
                QueryVariable { value: other },
            )),
    {
        self.compare(BinaryExprOperand::Leq, other)
    }

    /// Compare this column against a single bound value with the given
    /// operator.
    fn compare(self, operand: BinaryExprOperand, other: Value) -> (r: QueryExpr)
        ensures
            r == QueryExpr::binary_of(self, operand, QueryExpr::Variable(
                QueryVariable { value: other },
            )),
    {
        QueryExpr::Binary {
            operand,
            left: Box::new(QueryExpr::Column(self)),
            right: Box::new(QueryExpr::Variable(QueryVariable { value: other })),
        }
    }

    /// Match this column against a string pattern: `column LIKE pattern`.
    /// The pattern is appended as a literal SQL fragment, not bound.
    pub fn like(self, pattern: String) -> (r: QueryExpr)
        ensures
            r == QueryExpr::binary_of(self, BinaryExprOperand::Like, QueryExpr::Fragment(pattern)),
    {
        QueryExpr::Binary {
            operand: BinaryExprOperand::Like,
            left: Box::new(QueryExpr::Column(self)),
            right: Box::new(QueryExpr::Fragment(pattern)),
        }
    }

    /// Match this column case-insensitively against a string pattern:
    /// `column ILIKE pattern`. The pattern is appended as a literal SQL
    /// fragment, not bound.
    pub fn ilike(self, pattern: String) -> (r: QueryExpr)
        ensures
            r == QueryExpr::binary_of(self, BinaryExprOperand::ILike, QueryExpr::Fragment(
                pattern,
            )),
    {
        QueryExpr::Binary {
            operand: BinaryExprOperand::ILike,
            left: Box::new(QueryExpr::Column(self)),
            right: Box::new(QueryExpr::Fragment(pattern)),
        }
    }

    /// Check whether this column is `null`.
    ///
    /// SQL: `column IS NULL`
    pub fn is_null(self) -> (r: QueryExpr)
        ensures
            r == QueryExpr::singleton_of(self, SingletonExprOperand::IsNull),
    {
        QueryExpr::Singleton {
            operand: SingletonExprOperand::IsNull,
            inner: Box::new(QueryExpr::Column(self)),
        }
    }

    /// Check whether this column is *not* `null`.
    ///
    /// SQL: `column IS NOT NULL`
    pub fn is_not_null(self) -> (r: QueryExpr)
        ensures
            r == QueryExpr::singleton_of(self, SingletonExprOperand::IsNotNull),
    {
        QueryExpr::Singleton {
            operand: SingletonExprOperand::IsNotNull,
            inner: Box::new(QueryExpr::Column(self)),
        }
    }

    /// Check whether the value of this column occurs in some collection.
    /// The values are bound as a parenthesized, comma-separated placeholder
    /// list, one per element, in input order. An empty collection renders as
    /// `column IN ()`.
    pub fn is_in(self, other: Vec<Value>) -> (r: QueryExpr)
        ensures
            r.is_in_list_of(self, BinaryExprOperand::In, other@),
            r.sql_view() == self.sql_view() + " "@ + BinaryExprOperand::In.sql_view() + " "@
                + "("@ + crate::query::placeholders(other@.len() as int) + ")"@,
            r.params_view() == other@.map_values(|v: Value| v@),
    {
        self.in_list(BinaryExprOperand::In, other)
    }

    /// Check whether the value of this column does *not* occur in some
    /// collection. An empty collection renders as `column NOT IN ()`.
    pub fn is_not_in(self, other: Vec<Value>) -> (r: QueryExpr)
        ensures
            r.is_in_list_of(self, BinaryExprOperand::NotIn, other@),
            r.sql_view() == self.sql_view() + " "@ + BinaryExprOperand::NotIn.sql_view() + " "@
                + "("@ + crate::query::placeholders(other@.len() as int) + ")"@,
            r.params_view() == other@.map_values(|v: Value| v@),
    {
        self.in_list(BinaryExprOperand::NotIn, other)
    }

    /// Compare this column against a bound placeholder list with the given
    /// operator.
    fn in_list(self, operand: BinaryExprOperand, other: Vec<Value>) -> (r: QueryExpr)
        ensures
            r.is_in_list_of(self, operand, other@),
            r.sql_view() == self.sql_view() + " "@ + operand.sql_view() + " "@ + "("@
                + crate::query::placeholders(other@.len() as int) + ")"@,
            r.params_view() == other@.map_values(|v: Value| v@),
    {
        let ghost col_spec = self;
        let mut variables: Vec<QueryVariable> = Vec::new();
        let mut i: usize = 0;
        while i < other.len()
            invariant
                i <= other.len(),
                variables@ == QueryVariable::wrap_spec(other@.take(i as int)),
            decreases other.len() - i,
        {
            variables.push(QueryVariable { value: other[i].clone() });
            i = i + 1;
            proof {
                assert(variables@ =~= QueryVariable::wrap_spec(other@.take(i as int)));
            }
        }
        proof {
            assert(other@.take(other@.len() as int) =~= other@);
        }
        let ghost vars_spec: Seq<QueryVariable> = variables@;
        let list = QueryExpr::VariableList(variables);
        let ghost list_spec = list;
        let r = QueryExpr::Binary {
            operand,
            left: Box::new(QueryExpr::Column(self)),
            right: Box::new(list),
        };
        proof {
            assert(QueryExpr::Column(col_spec).sql_view() == col_spec.sql_view());
            assert(QueryExpr::Column(col_spec).params_view() == Seq::<
                crate::query::ValueView,
            >::empty());
            assert(list_spec.sql_view() == "("@ + crate::query::placeholders(
                vars_spec.len() as int,
            ) + ")"@);
            assert(list_spec.params_view() == vars_spec.map_values(|qv: QueryVariable| qv.value@));
            assert(vars_spec.map_values(|qv: QueryVariable| qv.value@) =~= other@.map_values(
                |v: Value| v@,
            ));
            assert(r.params_view() =~= other@.map_values(|v: Value| v@));
        }
        r
    }

    /// Check whether the value of this column falls inside the range of
    /// `left` and `right`: `column BETWEEN left AND right`, with `left` bound
    /// before `right`.
    pub fn between(self, left: Value, right: Value) -> (r: QueryExpr)
        ensures
            r == QueryExpr::binary_of(self, BinaryExprOperand::Between, QueryExpr::range_of(
                left,
                right,
            )),
    {
        self.range(BinaryExprOperand::Between, left, right)
    }

    /// Check whether the value of this column falls outside the range of
    /// `left` and `right`: `column NOT BETWEEN left AND right`.
    pub fn not_between(self, left: Value, right: Value) -> (r: QueryExpr)
        ensures
            r == QueryExpr::binary_of(self, BinaryExprOperand::NotBetween, QueryExpr::range_of(
                left,
                right,
            )),
    {
        self.range(BinaryExprOperand::NotBetween, left, right)
    }

    /// Compare this column against a bound range with the given operator. The
    /// right-hand side is a bare binary `AND` of the two bound values, not a
    /// bracketed group.
    fn range(self, operand: BinaryExprOperand, left: Value, right: Value) -> (r: QueryExpr)
        ensures
            r == QueryExpr::binary_of(self, operand, QueryExpr::range_of(left, right)),
    {
        QueryExpr::Binary {
            operand,
            left: Box::new(QueryExpr::Column(self)),
            right: Box::new(QueryExpr::Binary {
                operand: BinaryExprOperand::And,
                left: Box::new(QueryExpr::Variable(QueryVariable { value: left })),
                right: Box::new(QueryExpr::Variable(QueryVariable { value: right })),
            }),
        }
    }
}

} // verus!
