//! Query fragments: bound values, the accumulating statement buffer, and the
//! condition-expression tree together with its rendering rules.

pub mod parse;
pub mod select;

use vstd::prelude::*;
use vstd::string::StringExecFns;

verus! {

/// A value destined for positional parameter binding. The variants keep the
/// type information that a database backend needs to encode the value.
pub enum Value {
    /// SQL NULL, bound explicitly (distinct from `IS NULL` checks).
    Null,
    /// A signed integer value.
    Int(i64),
    /// A text value.
    Text(String),
    /// A boolean value.
    Bool(bool),
}

/// The mathematical model of a [`Value`].
pub enum ValueView {
    Null,
    Int(int),
    Text(Seq<char>),
    Bool(bool),
}

impl View for Value {
    type V = ValueView;

    open spec fn view(&self) -> ValueView {
        match self {
            Value::Null => ValueView::Null,
            Value::Int(i) => ValueView::Int(*i as int),
            Value::Text(s) => ValueView::Text(s@),
            Value::Bool(b) => ValueView::Bool(*b),
        }
    }
}

impl DeepView for Value {
    type V = ValueView;

    open spec fn deep_view(&self) -> ValueView {
        self@
    }
}

impl Value {
    /// Structural equality on bound values.
    pub fn eq_value(&self, other: &Value) -> (r: bool)
        ensures
            r == (self@ == other@),
    {
        match (self, other) {
            (Value::Null, Value::Null) => true,
            (Value::Int(a), Value::Int(b)) => a == b,
            (Value::Text(a), Value::Text(b)) => *a == *b,
            (Value::Bool(a), Value::Bool(b)) => a == b,
            _ => false,
        }
    }
}

impl Clone for Value {
    fn clone(&self) -> (r: Value)
        ensures
            r == *self,
    {
        match self {
            Value::Null => Value::Null,
            Value::Int(i) => Value::Int(*i),
            Value::Text(s) => Value::Text(s.clone()),
            Value::Bool(b) => Value::Bool(*b),
        }
    }
}

/// An accumulating statement buffer: SQL text plus the bound values, in the
/// exact order their placeholders occur in the text. Placeholders are written
/// backend-neutrally as `?`; substituting a backend's numbered syntax is the
/// executing side's concern.
pub struct StatementBuffer {
    sql: String,
    params: Vec<Value>,
}

impl StatementBuffer {
    /// The SQL text accumulated so far.
    pub closed spec fn sql(&self) -> Seq<char> {
        self.sql@
    }

    /// The bound values accumulated so far, in binding order.
    pub closed spec fn params(&self) -> Seq<ValueView> {
        self.params.deep_view()
    }

    /// An empty statement buffer.
    pub fn new() -> (r: StatementBuffer)
        ensures
            r.sql() == Seq::<char>::empty(),
            r.params() == Seq::<ValueView>::empty(),
    {
        let r = StatementBuffer { sql: String::new(), params: Vec::new() };
        proof {
            assert(r.params() =~= Seq::<ValueView>::empty());
        }
        r
    }

    /// Append a literal SQL fragment.
    pub fn push(&mut self, fragment: &str)
        ensures
            final(self).sql() == old(self).sql() + fragment@,
            final(self).params() == old(self).params(),
    {
        self.sql.append(fragment);
    }

    /// Append a positional placeholder to the text and the bound value to the
    /// parameter list.
    pub fn push_bind(&mut self, value: Value)
        ensures
            final(self).sql() == old(self).sql() + "?"@,
            final(self).params() == old(self).params().push(value@),
    {
        self.sql.append("?");
        self.params.push(value);
        proof {
            assert(self.params() =~= old(self).params().push(value@));
        }
    }

    /// Give up the buffer, keeping only the SQL text.
    pub fn into_sql(self) -> (r: String)
        ensures
            r@ == self.sql(),
    {
        self.sql
    }

    /// Give up the buffer, returning the SQL text and the bound values.
    pub fn into_parts(self) -> (r: (String, Vec<Value>))
        ensures
            r.0@ == self.sql(),
            r.1.deep_view() == self.params(),
    {
        (self.sql, self.params)
    }
}

/// The operator of a binary SQL expression: `left-side [operator] right-side`.
#[derive(Clone, Copy, PartialEq, Eq, Structural, Debug)]
pub enum BinaryExprOperand {
    Equals,
    DoesNotEqual,
    Like,
    ILike,
    And,
    Or,
    In,
    NotIn,
    Between,
    NotBetween,
    Gt,
    Lt,
    Geq,
    Leq,
}

impl BinaryExprOperand {
    /// The SQL spelling of this operator.
    pub open spec fn sql_view(self) -> Seq<char> {
        match self {
            BinaryExprOperand::Equals => "="@,
            BinaryExprOperand::DoesNotEqual => "!="@,
            BinaryExprOperand::Like => "LIKE"@,
            BinaryExprOperand::ILike => "ILIKE"@,
            BinaryExprOperand::And => "AND"@,
            BinaryExprOperand::Or => "OR"@,
            BinaryExprOperand::In => "IN"@,
            BinaryExprOperand::NotIn => "NOT IN"@,
            BinaryExprOperand::Between => "BETWEEN"@,
            BinaryExprOperand::NotBetween => "NOT BETWEEN"@,
            BinaryExprOperand::Gt => ">"@,
            BinaryExprOperand::Lt => "<"@,
            BinaryExprOperand::Geq => ">="@,
            BinaryExprOperand::Leq => "<="@,
        }
    }

    /// The SQL spelling of this operator.
    pub fn as_sql(&self) -> (r: &'static str)
        ensures
            r@ == self.sql_view(),
    {
        match self {
            BinaryExprOperand::Equals => "=",
            BinaryExprOperand::DoesNotEqual => "!=",
            BinaryExprOperand::Like => "LIKE",
            BinaryExprOperand::ILike => "ILIKE",
            BinaryExprOperand::And => "AND",
            BinaryExprOperand::Or => "OR",
            BinaryExprOperand::In => "IN",
            BinaryExprOperand::NotIn => "NOT IN",
            BinaryExprOperand::Between => "BETWEEN",
            BinaryExprOperand::NotBetween => "NOT BETWEEN",
            BinaryExprOperand::Gt => ">",
            BinaryExprOperand::Lt => "<",
            BinaryExprOperand::Geq => ">=",
            BinaryExprOperand::Leq => "<=",
        }
    }
}

/// The operator of a singleton SQL expression, written after its operand.
#[derive(Clone, Copy, PartialEq, Eq, Structural, Debug)]
pub enum SingletonExprOperand {
    IsNull,
    IsNotNull,
}

impl SingletonExprOperand {
    /// The SQL spelling of this operator.
    pub open spec fn sql_view(self) -> Seq<char> {
        match self {
            SingletonExprOperand::IsNull => "IS NULL"@,
            SingletonExprOperand::IsNotNull => "IS NOT NULL"@,
        }
    }

    /// The SQL spelling of this operator.
    pub fn as_sql(&self) -> (r: &'static str)
        ensures
            r@ == self.sql_view(),
    {
        match self {
            SingletonExprOperand::IsNull => "IS NULL",
            SingletonExprOperand::IsNotNull => "IS NOT NULL",
        }
    }
}

/// A bound variable: renders as one placeholder and registers its value for
/// positional binding.
pub struct QueryVariable {
    pub value: Value,
}

impl QueryVariable {
    /// Wrap a new bound variable.
    pub fn new(inner: Value) -> (r: QueryVariable)
        ensures
            r == (QueryVariable { value: inner }),
    {
        QueryVariable { value: inner }
    }

    /// Wrap every value of a sequence as a bound variable.
    pub open spec fn wrap_spec(values: Seq<Value>) -> Seq<QueryVariable> {
        values.map_values(|v: Value| QueryVariable { value: v })
    }
}

/// The placeholder list of `n` bound values, comma-separated:
/// `?, ?, ..., ?`.
pub open spec fn placeholders(n: int) -> Seq<char>
    decreases n,
{
    if n <= 0 {
        Seq::<char>::empty()
    } else if n == 1 {
        "?"@
    } else {
        placeholders(n - 1) + ", "@ + "?"@
    }
}

/// A composable condition expression: a recursive node that renders to SQL
/// text plus bound values, visited depth-first and left-to-right so that the
/// bound values line up with their placeholders.
#[allow(inconsistent_fields)]
pub enum QueryExpr {
    /// A column reference.
    Column(crate::entity::column::ColumnName),
    /// A single bound variable.
    Variable(QueryVariable),
    /// A parenthesized, comma-separated list of bound variables.
    VariableList(Vec<QueryVariable>),
    /// A literal SQL fragment.
    Fragment(String),
    /// An explicitly bracketed node.
    Brackets(Box<QueryExpr>),
    /// A binary expression: `left [operator] right`, without implicit
    /// bracketing.
    Binary { operand: BinaryExprOperand, left: Box<QueryExpr>, right: Box<QueryExpr> },
    /// A singleton expression: `inner [operator]`.
    Singleton { operand: SingletonExprOperand, inner: Box<QueryExpr> },
}

impl QueryExpr {
    /// A binary comparison of a column against a right-hand side.
    pub open spec fn binary_of(
        column: crate::entity::column::ColumnName,
        operand: BinaryExprOperand,
        right: QueryExpr,
    ) -> QueryExpr {
        QueryExpr::Binary {
            operand,
            left: Box::new(QueryExpr::Column(column)),
            right: Box::new(right),
        }
    }

    /// A singleton check applied to a column.
    pub open spec fn singleton_of(
        column: crate::entity::column::ColumnName,
        operand: SingletonExprOperand,
    ) -> QueryExpr {
        QueryExpr::Singleton { operand, inner: Box::new(QueryExpr::Column(column)) }
    }

    /// The bare `left AND right` of two bound values, as rendered on the
    /// right-hand side of `BETWEEN`.
    pub open spec fn range_of(left: Value, right: Value) -> QueryExpr {
        QueryExpr::Binary {
            operand: BinaryExprOperand::And,
            left: Box::new(QueryExpr::Variable(QueryVariable { value: left })),
            right: Box::new(QueryExpr::Variable(QueryVariable { value: right })),
        }
    }

    /// Whether this node is exactly the comparison of `column` against the
    /// placeholder list of `values`, with the given operator: it renders as
    /// `column [operator] (?, ..., ?)` and binds `values` in input order.
    pub open spec fn is_in_list_of(
        self,
        column: crate::entity::column::ColumnName,
        operand: BinaryExprOperand,
        values: Seq<Value>,
    ) -> bool {
        &&& self matches QueryExpr::Binary { operand: op, left, right }
        &&& op == operand
        &&& left == Box::new(QueryExpr::Column(column))
        &&& (*right matches QueryExpr::VariableList(vars) && vars@ == QueryVariable::wrap_spec(
            values,
        ))
    }

    /// The SQL text this node renders to.
    pub open spec fn sql_view(self) -> Seq<char>
        decreases self,
    {
        match self {
            QueryExpr::Column(c) => c.sql_view(),
            QueryExpr::Variable(_) => "?"@,
            QueryExpr::VariableList(vs) => "("@ + placeholders(vs@.len() as int) + ")"@,
            QueryExpr::Fragment(s) => s@,
            QueryExpr::Brackets(inner) => "("@ + inner.sql_view() + ")"@,
            QueryExpr::Binary { operand, left, right } => left.sql_view() + " "@
                + operand.sql_view() + " "@ + right.sql_view(),
            QueryExpr::Singleton { operand, inner } => inner.sql_view() + " "@
                + operand.sql_view(),
        }
    }

    /// The values this node binds, in rendering order.
    pub open spec fn params_view(self) -> Seq<ValueView>
        decreases self,
    {
        match self {
            QueryExpr::Column(_) => Seq::<ValueView>::empty(),
            QueryExpr::Variable(v) => seq![v.value@],
            QueryExpr::VariableList(vs) => vs@.map_values(|qv: QueryVariable| qv.value@),
            QueryExpr::Fragment(_) => Seq::<ValueView>::empty(),
            QueryExpr::Brackets(inner) => inner.params_view(),
            QueryExpr::Binary { operand, left, right } => left.params_view() + right.params_view(),
            QueryExpr::Singleton { operand, inner } => inner.params_view(),
        }
    }

    /// Chain another condition using an `AND` statement, without implicit
    /// bracketing.
    pub fn and(self, other: QueryExpr) -> (r: QueryExpr)
        ensures
            r == (QueryExpr::Binary {
                operand: BinaryExprOperand::And,
                left: Box::new(self),
                right: Box::new(other),
            }),
    {
        QueryExpr::Binary {
            operand: BinaryExprOperand::And,
            left: Box::new(self),
            right: Box::new(other),
        }
    }

    /// Chain another condition using an `OR` statement, without implicit
    /// bracketing.
    pub fn or(self, other: QueryExpr) -> (r: QueryExpr)
        ensures
            r == (QueryExpr::Binary {
                operand: BinaryExprOperand::Or,
                left: Box::new(self),
                right: Box::new(other),
            }),
    {
        QueryExpr::Binary {
            operand: BinaryExprOperand::Or,
            left: Box::new(self),
            right: Box::new(other),
        }
    }

    /// Wrap this condition into brackets `()`.
    ///
    /// Note that [`Select::filter`](crate::query::select::Select::filter)
    /// already places each passed condition into brackets of its own.
    pub fn brackets(self) -> (r: QueryExpr)
        ensures
            r == QueryExpr::Brackets(Box::new(self)),
    {
        QueryExpr::Brackets(Box::new(self))
    }

    /// Append this node's rendered form to a statement buffer: SQL fragments
    /// to the text, bound values as placeholder plus parameter, in node order.
    pub fn push_to(&self, builder: &mut StatementBuffer)
        ensures
            final(builder).sql() == old(builder).sql() + self.sql_view(),
            final(builder).params() == old(builder).params() + self.params_view(),
        decreases *self,
    {
        match self {
            QueryExpr::Column(c) => {
                c.push_to(builder);
                proof {
                    assert(builder.params() =~= old(builder).params() + self.params_view());
                }
            },
            QueryExpr::Variable(v) => {
                builder.push_bind(v.value.clone());
                proof {
                    assert(builder.params() =~= old(builder).params() + self.params_view());
                }
            },
            QueryExpr::VariableList(vs) => {
                builder.push("(");
                let mut i: usize = 0;
                while i < vs.len()
                    invariant
                        i <= vs.len(),
                        builder.sql() == old(builder).sql() + "("@ + placeholders(i as int),
                        builder.params() == old(builder).params() + vs@.take(
                            i as int,
                        ).map_values(|qv: QueryVariable| qv.value@),
                    decreases vs.len() - i,
                {
                    if i > 0 {
                        builder.push(", ");
                    }
                    builder.push_bind(vs[i].value.clone());
                    i = i + 1;
                    proof {
                        assert(builder.sql() =~= old(builder).sql() + "("@ + placeholders(
                            i as int,
                        ));
                        assert(builder.params() =~= old(builder).params() + vs@.take(
                            i as int,
                        ).map_values(|qv: QueryVariable| qv.value@));
                    }
                }
                builder.push(")");
                proof {
                    assert(vs@.take(vs@.len() as int) =~= vs@);
                    assert(builder.sql() =~= old(builder).sql() + self.sql_view());
                    assert(builder.params() =~= old(builder).params() + self.params_view());
                }
            },
            QueryExpr::Fragment(s) => {
                builder.push(s.as_str());
                proof {
                    assert(builder.params() =~= old(builder).params() + self.params_view());
                }
            },
            QueryExpr::Brackets(inner) => {
                builder.push("(");
                inner.push_to(builder);
                builder.push(")");
                proof {
                    assert(builder.sql() =~= old(builder).sql() + self.sql_view());
                    assert(builder.params() =~= old(builder).params() + self.params_view());
                }
            },
            QueryExpr::Binary { operand, left, right } => {
                left.push_to(builder);
                builder.push(" ");
                builder.push(operand.as_sql());
                builder.push(" ");
                right.push_to(builder);
                proof {
                    assert(builder.sql() =~= old(builder).sql() + self.sql_view());
                    assert(builder.params() =~= old(builder).params() + self.params_view());
                }
            },
            QueryExpr::Singleton { operand, inner } => {
                inner.push_to(builder);
                builder.push(" ");
                builder.push(operand.as_sql());
                proof {
                    assert(builder.sql() =~= old(builder).sql() + self.sql_view());
                    assert(builder.params() =~= old(builder).params() + self.params_view());
                }
            },
        }
    }
}

} // verus!
