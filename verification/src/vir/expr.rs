//! Expressions.

use vstd::pervasive::unreached;
use vstd::prelude::*;
use crate::vir::ops::{BinaryOp, UnaryOp};
use crate::vir::text::{decimal, join, joined, push_decimal, views};

verus! {

/// Expression.
#[derive(Debug, PartialEq, Eq, Hash)]
pub enum Expression {
    /// Primary.
    Primary(Primary),
    /// Unary expression.
    Unary(UnaryOp, Primary),
    /// Binary expression.
    Binary(Box<Expression>, BinaryOp, Box<Expression>),
    /// Conditional expression.
    Conditional(Box<Expression>, Box<Expression>, Box<Expression>),
}

/// Range.
#[derive(Debug, PartialEq, Eq, Hash)]
pub enum Range {
    /// Index: `[index]`
    Index(Box<Expression>),
    /// Range: `[base +: offset]`
    Range(Box<Expression>, Box<Expression>),
}

/// Primary.
#[derive(Debug, PartialEq, Eq, Hash)]
pub enum Primary {
    /// Number.
    Number(String),
    /// Hierarchical identifier.
    HierarchicalIdentifier(String, Option<Range>),
    /// Concatenation.
    Concatenation(Concatenation),
    /// Multiple concatenation.
    MultipleConcatenation(usize, Concatenation),
    /// Mintypmax expression.
    MintypmaxExpression(Box<Expression>),
}

/// Concatenation.
#[derive(Debug, PartialEq, Eq, Hash)]
pub struct Concatenation {
    /// Expressions.
    pub exprs: Vec<Expression>,
}

/// The texts of a sequence of expressions, in order.
pub open spec fn expr_texts(exprs: Seq<Expression>) -> Seq<Seq<char>>
    decreases exprs,
{
    if exprs.len() == 0 {
        Seq::empty()
    } else {
        expr_texts(exprs.drop_last()).push(exprs.last().text())
    }
}

impl Expression {
    /// Every concatenation in the expression has at least one operand.
    pub open spec fn wf(self) -> bool
        decreases self,
    {
        match self {
            Expression::Primary(prim) => prim.wf(),
            Expression::Unary(_, prim) => prim.wf(),
            Expression::Binary(lhs, _, rhs) => lhs.wf() && rhs.wf(),
            Expression::Conditional(cond, then_expr, else_expr) => cond.wf() && then_expr.wf()
                && else_expr.wf(),
        }
    }

    /// The expression as Verilog text.
    pub open spec fn text(self) -> Seq<char>
        decreases self,
    {
        match self {
            Expression::Primary(prim) => prim.text(),
            Expression::Unary(op, prim) => op.text() + prim.text(),
            Expression::Binary(lhs, op, rhs) => lhs.text() + " "@ + op.text() + " "@ + rhs.text(),
            Expression::Conditional(cond, then_expr, else_expr) => cond.text() + " ? "@
                + then_expr.text() + " : "@ + else_expr.text(),
        }
    }
}

impl Range {
    /// Every concatenation in the range has at least one operand.
    pub open spec fn wf(self) -> bool
        decreases self,
    {
        match self {
            Range::Index(index) => index.wf(),
            Range::Range(base, offset) => base.wf() && offset.wf(),
        }
    }

    /// The range as Verilog text, without the brackets around it.
    pub open spec fn text(self) -> Seq<char>
        decreases self,
    {
        match self {
            Range::Index(index) => index.text(),
            Range::Range(base, offset) => base.text() + " +: "@ + offset.text(),
        }
    }
}

impl Primary {
    /// Every concatenation in the primary has at least one operand.
    pub open spec fn wf(self) -> bool
        decreases self,
    {
        match self {
            Primary::Number(_) => true,
            Primary::HierarchicalIdentifier(_, Some(range)) => range.wf(),
            Primary::HierarchicalIdentifier(_, None) => true,
            Primary::Concatenation(concat) => concat.wf(),
            Primary::MultipleConcatenation(_, concat) => concat.wf(),
            Primary::MintypmaxExpression(expr) => expr.wf(),
        }
    }

    /// The primary as Verilog text.
    pub open spec fn text(self) -> Seq<char>
        decreases self,
    {
        match self {
            Primary::Number(num) => num@,
            Primary::HierarchicalIdentifier(ident, Some(range)) => ident@ + "["@ + range.text()
                + "]"@,
            Primary::HierarchicalIdentifier(ident, None) => ident@,
            Primary::Concatenation(concat) => concat.text(),
            Primary::MultipleConcatenation(count, concat) => "{"@ + decimal(count as nat)
                + concat.text() + "}"@,
            Primary::MintypmaxExpression(expr) => "("@ + expr.text() + ")"@,
        }
    }
}

impl Concatenation {
    /// The concatenation has at least one operand, and so has every concatenation in its operands.
    pub open spec fn wf(self) -> bool
        decreases self,
    {
        &&& self.exprs@.len() > 0
        &&& forall|i: int| 0 <= i < self.exprs@.len() ==> (#[trigger] self.exprs@[i]).wf()
    }

    /// The concatenation as Verilog text.
    pub open spec fn text(self) -> Seq<char>
        decreases self,
    {
        "{"@ + joined(expr_texts(self.exprs@), ", "@) + "}"@
    }
}

impl Expression {
    /// Writes the expression as Verilog text.
    pub fn to_string(&self) -> (r: String)
        requires
            self.wf(),
        ensures
            r@ == self.text(),
        decreases self,
    {
        match self {
            Expression::Primary(prim) => prim.to_string(),
            Expression::Unary(op, prim) => {
                let mut out = op.to_string();
                out.append(prim.to_string().as_str());
                out
            },
            Expression::Binary(lhs, op, rhs) => {
                let mut out = lhs.to_string();
                out.append(" ");
                out.append(op.to_string().as_str());
                out.append(" ");
                out.append(rhs.to_string().as_str());
                out
            },
            Expression::Conditional(cond, then_expr, else_expr) => {
                let mut out = cond.to_string();
                out.append(" ? ");
                out.append(then_expr.to_string().as_str());
                out.append(" : ");
                out.append(else_expr.to_string().as_str());
                out
            },
        }
    }
}

impl Range {
    /// Writes the range as Verilog text, without the brackets around it.
    pub fn to_string(&self) -> (r: String)
        requires
            self.wf(),
        ensures
            r@ == self.text(),
        decreases self,
    {
        match self {
            Range::Index(index) => index.to_string(),
            Range::Range(base, offset) => {
                let mut out = base.to_string();
                out.append(" +: ");
                out.append(offset.to_string().as_str());
                out
            },
        }
    }

    /// Creates new index.
    pub fn new_index(index: Expression) -> (r: Self)
        ensures
            r == Range::Index(Box::new(index)),
    {
        Range::Index(Box::new(index))
    }

    /// Creates new range.
    pub fn new_range(base: Expression, offset: Expression) -> (r: Self)
        ensures
            r == Range::Range(Box::new(base), Box::new(offset)),
    {
        Range::Range(Box::new(base), Box::new(offset))
    }
}

impl Primary {
    /// Writes the primary as Verilog text.
    pub fn to_string(&self) -> (r: String)
        requires
            self.wf(),
        ensures
            r@ == self.text(),
        decreases self,
    {
        match self {
            Primary::Number(num) => num.clone(),
            Primary::HierarchicalIdentifier(ident, Some(range)) => {
                let mut out = ident.clone();
                out.append("[");
                out.append(range.to_string().as_str());
                out.append("]");
                out
            },
            Primary::HierarchicalIdentifier(ident, None) => ident.clone(),
            Primary::Concatenation(concat) => concat.to_string(),
            Primary::MultipleConcatenation(count, concat) => {
                let mut out = String::from_str("{");
                push_decimal(&mut out, *count);
                out.append(concat.to_string().as_str());
                out.append("}");
                out
            },
            Primary::MintypmaxExpression(expr) => {
                let mut out = String::from_str("(");
                out.append(expr.to_string().as_str());
                out.append(")");
                out
            },
        }
    }
}

/// Every expression of the sequence is well formed.
pub open spec fn exprs_wf(exprs: Seq<Expression>) -> bool {
    forall|i: int| 0 <= i < exprs.len() ==> (#[trigger] exprs[i]).wf()
}

/// Writes each expression as Verilog text.
pub fn exprs_to_strings(exprs: &Vec<Expression>) -> (r: Vec<String>)
    requires
        exprs_wf(exprs@),
    ensures
        views(r@) == expr_texts(exprs@),
    decreases exprs,
{
    let mut parts: Vec<String> = Vec::new();
    let mut i: usize = 0;
    while i < exprs.len()
        invariant
            0 <= i <= exprs.len(),
            exprs_wf(exprs@),
            views(parts@) == expr_texts(exprs@.take(i as int)),
        decreases exprs.len() - i,
    {
        assert(exprs@.take(i + 1).drop_last() =~= exprs@.take(i as int));
        assert(exprs@.take(i + 1).last() == exprs@[i as int]);
        let ghost before = parts@;
        let part = exprs[i].to_string();
        parts.push(part);
        assert(views(parts@) =~= views(before).push(part@));
        i += 1;
    }
    assert(exprs@.take(exprs.len() as int) =~= exprs@);
    parts
}

impl Concatenation {
    /// Writes the concatenation as Verilog text: its operands between braces, separated by commas.
    pub fn to_string(&self) -> (r: String)
        requires
            self.wf(),
        ensures
            r@ == self.text(),
        decreases self,
    {
        let parts = exprs_to_strings(&self.exprs);
        let mut out = String::from_str("{");
        out.append(join(&parts, ", ").as_str());
        out.append("}");
        out
    }
}

/// Tells whether every expression of the vector is well formed.
pub fn exprs_are_well_formed(exprs: &Vec<Expression>) -> (r: bool)
    ensures
        r == exprs_wf(exprs@),
    decreases exprs,
{
    let mut i: usize = 0;
    while i < exprs.len()
        invariant
            0 <= i <= exprs.len(),
            forall|j: int| 0 <= j < i ==> (#[trigger] exprs@[j]).wf(),
        decreases exprs.len() - i,
    {
        if !exprs[i].is_well_formed() {
            return false;
        }
        i += 1;
    }
    true
}

impl Expression {
    /// Tells whether the expression can be written: whether every concatenation
    /// in it has at least one operand.
    pub fn is_well_formed(&self) -> (r: bool)
        ensures
            r == self.wf(),
        decreases self,
    {
        match self {
            Expression::Primary(prim) => prim.is_well_formed(),
            Expression::Unary(_, prim) => prim.is_well_formed(),
            Expression::Binary(lhs, _, rhs) => lhs.is_well_formed() && rhs.is_well_formed(),
            Expression::Conditional(cond, then_expr, else_expr) => cond.is_well_formed()
                && then_expr.is_well_formed() && else_expr.is_well_formed(),
        }
    }
}

impl Range {
    /// Tells whether the range can be written.
    pub fn is_well_formed(&self) -> (r: bool)
        ensures
            r == self.wf(),
        decreases self,
    {
        match self {
            Range::Index(index) => index.is_well_formed(),
            Range::Range(base, offset) => base.is_well_formed() && offset.is_well_formed(),
        }
    }
}

impl Primary {
    /// Tells whether the primary can be written.
    pub fn is_well_formed(&self) -> (r: bool)
        ensures
            r == self.wf(),
        decreases self,
    {
        match self {
            Primary::Number(_) => true,
            Primary::HierarchicalIdentifier(_, Some(range)) => range.is_well_formed(),
            Primary::HierarchicalIdentifier(_, None) => true,
            Primary::Concatenation(concat) => concat.is_well_formed(),
            Primary::MultipleConcatenation(_, concat) => concat.is_well_formed(),
            Primary::MintypmaxExpression(expr) => expr.is_well_formed(),
        }
    }
}

impl Concatenation {
    /// Tells whether the concatenation can be written: whether it has at least
    /// one operand and every operand can be written.
    pub fn is_well_formed(&self) -> (r: bool)
        ensures
            r == self.wf(),
        decreases self,
    {
        self.exprs.len() > 0 && exprs_are_well_formed(&self.exprs)
    }
}

/// The position at which the marker `'b` of a binary literal begins.
pub open spec fn is_binary_marker(text: Seq<char>, at: int) -> bool {
    0 <= at && at + 1 < text.len() && text[at] == '\'' && text[at + 1] == 'b'
}

/// The text is a binary literal all of whose digits are `x`: it holds the
/// marker `'b` exactly once, and nothing but `x` after it.
pub open spec fn is_dont_care(text: Seq<char>) -> bool {
    exists|at: int|
        {
            &&& #[trigger] is_binary_marker(text, at)
            &&& forall|i: int| 0 <= i < at ==> !#[trigger] is_binary_marker(text, i)
            &&& forall|i: int| at + 2 <= i < text.len() ==> text[i] == 'x'
        }
}

fn find_binary_marker(num: &str) -> (r: Option<usize>)
    ensures
        match r {
            Some(at) => is_binary_marker(num@, at as int) && forall|i: int|
                0 <= i < at ==> !#[trigger] is_binary_marker(num@, i),
            None => forall|i: int| !#[trigger] is_binary_marker(num@, i),
        },
{
    let len = num.unicode_len();
    let mut at: usize = 0;
    while at < len && at + 1 < len
        invariant
            len == num@.len(),
            0 <= at,
            forall|i: int| 0 <= i < at ==> !#[trigger] is_binary_marker(num@, i),
        decreases len - at,
    {
        if num.get_char(at) == '\'' && num.get_char(at + 1) == 'b' {
            return Some(at);
        }
        at += 1;
    }
    None
}

fn number_is_dont_care(num: &str) -> (r: bool)
    ensures
        r == is_dont_care(num@),
{
    let len = num.unicode_len();
    let at = match find_binary_marker(num) {
        Some(at) => at,
        None => {
            return false;
        },
    };
    let mut i: usize = at + 2;
    while i < len
        invariant
            len == num@.len(),
            at + 2 <= i,
            is_binary_marker(num@, at as int),
            forall|j: int| 0 <= j < at ==> !#[trigger] is_binary_marker(num@, j),
            forall|j: int| at + 2 <= j < i ==> num@[j] == 'x',
        decreases len - i,
    {
        if num.get_char(i) != 'x' {
            assert forall|other: int| #[trigger]
                is_binary_marker(num@, other) && (forall|j: int|
                    0 <= j < other ==> !#[trigger] is_binary_marker(num@, j)) implies !(forall|
                j: int,
            | other + 2 <= j < num@.len() ==> num@[j] == 'x') by {
                assert(other == at);
            }
            return false;
        }
        i += 1;
    }
    true
}

impl Expression {
    /// The expression is a primary.
    pub open spec fn spec_is_primary(self) -> bool {
        self is Primary
    }

    /// The expression is an identifier without a range.
    pub open spec fn spec_is_identifier(self) -> bool {
        self matches Expression::Primary(Primary::HierarchicalIdentifier(_, None))
    }

    /// The name of the expression, where it is an identifier without a range.
    pub open spec fn spec_ident(self) -> Option<String> {
        match self {
            Expression::Primary(Primary::HierarchicalIdentifier(ident, None)) => Some(ident),
            _ => None,
        }
    }

    /// The expression as a primary: itself where it is one, else between parentheses.
    pub open spec fn spec_into_primary(self) -> Expression {
        if self is Primary {
            self
        } else {
            Expression::Primary(Primary::MintypmaxExpression(Box::new(self)))
        }
    }

    /// The expression is a number in binary all of whose digits are `x`.
    pub open spec fn spec_is_x(self) -> bool {
        match self {
            Expression::Primary(Primary::Number(n)) => is_dont_care(n@),
            _ => false,
        }
    }

    /// Number.
    pub fn number(num: String) -> (r: Self)
        ensures
            r == Expression::Primary(Primary::Number(num)),
    {
        Expression::Primary(Primary::Number(num))
    }

    /// Identifier.
    pub fn ident(ident: String) -> (r: Self)
        ensures
            r == Expression::Primary(Primary::HierarchicalIdentifier(ident, None)),
    {
        Expression::Primary(Primary::HierarchicalIdentifier(ident, None))
    }

    /// Selects a range of an identifier.
    pub fn with_range(self, range: Range) -> (r: Self)
        requires
            self.spec_is_identifier(),
        ensures
            r == Expression::Primary(
                Primary::HierarchicalIdentifier(self.spec_ident()->0, Some(range)),
            ),
    {
        match self {
            Expression::Primary(Primary::HierarchicalIdentifier(ident, None)) => {
                Expression::Primary(Primary::HierarchicalIdentifier(ident, Some(range)))
            },
            _ => unreached(),
        }
    }

    /// Concatenation.
    pub fn concat(self, rhs: Expression) -> (r: Self)
        ensures
            r matches Expression::Primary(Primary::Concatenation(concat)) && concat.exprs@
                == seq![self, rhs],
    {
        Expression::Primary(Primary::Concatenation(Concatenation { exprs: vec![self, rhs] }))
    }

    /// Multiple concatenation: the operands of a concatenation, or the expression itself, `count` times.
    pub fn multiple_concat(self, count: usize) -> (r: Self)
        ensures
            r matches Expression::Primary(Primary::MultipleConcatenation(n, concat)) && n == count
                && match self {
                Expression::Primary(Primary::Concatenation(inner)) => concat == inner,
                _ => concat.exprs@ == seq![self],
            },
    {
        Expression::Primary(
            Primary::MultipleConcatenation(
                count,
                match self {
                    Expression::Primary(Primary::Concatenation(concat)) => concat,
                    _ => Concatenation { exprs: vec![self] },
                },
            ),
        )
    }

    /// Mintypmax expression.
    pub fn mintypmax_expr(expr: Expression) -> (r: Self)
        ensures
            r == Expression::Primary(Primary::MintypmaxExpression(Box::new(expr))),
    {
        Expression::Primary(Primary::MintypmaxExpression(Box::new(expr)))
    }

    /// Unary operation. An operand that is no primary is put between parentheses.
    pub fn unary(op: UnaryOp, expr: Self) -> (r: Self)
        ensures
            r == Expression::Unary(
                op,
                match expr {
                    Expression::Primary(prim) => prim,
                    _ => Primary::MintypmaxExpression(Box::new(expr)),
                },
            ),
    {
        Expression::Unary(
            op,
            match expr {
                Expression::Primary(prim) => prim,
                _ => Primary::MintypmaxExpression(Box::new(expr)),
            },
        )
    }

    /// Binary operation. An operand that is no primary is put between parentheses.
    pub fn binary(op: BinaryOp, lhs: Expression, rhs: Expression) -> (r: Self)
        ensures
            r == Expression::Binary(
                Box::new(lhs.spec_into_primary()),
                op,
                Box::new(rhs.spec_into_primary()),
            ),
    {
        // Operands of binary operation should be primary.
        let lhs = lhs.into_primary();
        let rhs = rhs.into_primary();
        Expression::Binary(Box::new(lhs), op, Box::new(rhs))
    }

    /// Conditional expression.
    pub fn conditional(cond: Expression, then_expr: Expression, else_expr: Expression) -> (r: Self)
        ensures
            r == Expression::Conditional(
                Box::new(cond),
                Box::new(then_expr),
                Box::new(else_expr),
            ),
    {
        Expression::Conditional(Box::new(cond), Box::new(then_expr), Box::new(else_expr))
    }

    /// Returns `true` if the expression is primary.
    pub fn is_primary(&self) -> (r: bool)
        ensures
            r == self.spec_is_primary(),
    {
        matches!(self, Expression::Primary(_))
    }

    /// Returns `true` if the expression is identifier.
    pub fn is_identifier(&self) -> (r: bool)
        ensures
            r == self.spec_is_identifier(),
    {
        matches!(self, Expression::Primary(Primary::HierarchicalIdentifier(_, None)))
    }

    /// Converts into identifier string.
    pub fn into_ident(&self) -> (r: Option<String>)
        ensures
            r == self.spec_ident(),
    {
        match self {
            Expression::Primary(Primary::HierarchicalIdentifier(ident, None)) => Some(
                ident.clone(),
            ),
            _ => None,
        }
    }

    /// Converts into primary.
    #[must_use]
    pub fn into_primary(self) -> (r: Self)
        ensures
            r == self.spec_into_primary(),
    {
        if self.is_primary() {
            self
        } else {
            Expression::mintypmax_expr(self)
        }
    }

    /// Returns `true` if the expression is concatenation.
    pub fn is_concat(&self) -> (r: bool)
        ensures
            r == (self matches Expression::Primary(Primary::Concatenation(_))),
    {
        matches!(self, Expression::Primary(Primary::Concatenation(_)))
    }

    /// Returns `true` if the expression is a `don't-care`.
    pub fn is_x(&self) -> (r: bool)
        ensures
            r == self.spec_is_x(),
    {
        match self {
            Expression::Primary(Primary::Number(n)) => number_is_dont_care(n.as_str()),
            _ => false,
        }
    }
}

/// An expression made a primary is a primary of the same well-formedness,
/// and making it a primary once more changes nothing.
pub proof fn lemma_into_primary_is_primary(expr: Expression)
    ensures
        expr.spec_into_primary().spec_is_primary(),
        expr.spec_into_primary().spec_into_primary() == expr.spec_into_primary(),
        expr.spec_into_primary().wf() == expr.wf(),
        expr.spec_is_primary() ==> expr.spec_into_primary().text() == expr.text(),
        !expr.spec_is_primary() ==> expr.spec_into_primary().text() == "("@ + expr.text() + ")"@,
{
    if !expr.spec_is_primary() {
        let inner = Primary::MintypmaxExpression(Box::new(expr));
        assert(inner.wf() == expr.wf());
        assert(inner.text() == "("@ + expr.text() + ")"@);
        assert(Expression::Primary(inner).wf() == inner.wf());
        assert(Expression::Primary(inner).text() == inner.text());
    }
}

/// An identifier is a primary, and it is the expression that has a name.
pub proof fn lemma_identifier_has_a_name(expr: Expression)
    ensures
        expr.spec_is_identifier() <==> expr.spec_ident() is Some,
        expr.spec_is_identifier() ==> expr.spec_is_primary() && expr.wf() && expr.text()
            == expr.spec_ident()->0@,
{
    if let Expression::Primary(prim) = expr {
        assert(expr.wf() == prim.wf());
        assert(expr.text() == prim.text());
    }
}

pub(crate) fn clone_exprs(exprs: &Vec<Expression>) -> (r: Vec<Expression>)
    ensures
        expr_texts(r@) == expr_texts(exprs@),
        r@.len() == exprs@.len(),
        exprs_wf(r@) == exprs_wf(exprs@),
    decreases exprs,
{
    let mut out: Vec<Expression> = Vec::new();
    let mut i: usize = 0;
    while i < exprs.len()
        invariant
            0 <= i <= exprs.len(),
            out@.len() == i,
            expr_texts(out@) == expr_texts(exprs@.take(i as int)),
            forall|j: int| 0 <= j < i ==> (#[trigger] out@[j]).wf() == exprs@[j].wf(),
        decreases exprs.len() - i,
    {
        assert(exprs@.take(i + 1).drop_last() =~= exprs@.take(i as int));
        assert(exprs@.take(i + 1).last() == exprs@[i as int]);
        let ghost before = out@;
        let e = exprs[i].clone();
        out.push(e);
        assert(out@.drop_last() =~= before);
        i += 1;
    }
    assert(exprs@.take(exprs.len() as int) =~= exprs@);
    assert forall|j: int| 0 <= j < exprs@.len() implies (#[trigger] exprs@[j]).wf() == out@[j].wf() by {
        assert(out@[j].wf() == exprs@[j].wf());
    }
    out
}

impl Clone for Expression {
    /// Returns an expression of the same text.
    fn clone(&self) -> (r: Self)
        ensures
            r.text() == self.text(),
            r.wf() == self.wf(),
        decreases self,
    {
        match self {
            Expression::Primary(prim) => Expression::Primary(prim.clone()),
            Expression::Unary(op, prim) => Expression::Unary(*op, prim.clone()),
            Expression::Binary(lhs, op, rhs) => {
                let lhs: &Expression = lhs;
                let rhs: &Expression = rhs;
                Expression::Binary(Box::new(lhs.clone()), *op, Box::new(rhs.clone()))
            },
            Expression::Conditional(cond, then_expr, else_expr) => {
                let cond: &Expression = cond;
                let then_expr: &Expression = then_expr;
                let else_expr: &Expression = else_expr;
                Expression::Conditional(
                    Box::new(cond.clone()),
                    Box::new(then_expr.clone()),
                    Box::new(else_expr.clone()),
                )
            },
        }
    }
}

impl Clone for Range {
    /// Returns a range of the same text.
    fn clone(&self) -> (r: Self)
        ensures
            r.text() == self.text(),
            r.wf() == self.wf(),
        decreases self,
    {
        match self {
            Range::Index(index) => {
                let index: &Expression = index;
                Range::Index(Box::new(index.clone()))
            },
            Range::Range(base, offset) => {
                let base: &Expression = base;
                let offset: &Expression = offset;
                Range::Range(Box::new(base.clone()), Box::new(offset.clone()))
            },
        }
    }
}

impl Clone for Primary {
    /// Returns a primary of the same text.
    fn clone(&self) -> (r: Self)
        ensures
            r.text() == self.text(),
            r.wf() == self.wf(),
        decreases self,
    {
        match self {
            Primary::Number(num) => Primary::Number(num.clone()),
            Primary::HierarchicalIdentifier(ident, Some(range)) => Primary::HierarchicalIdentifier(
                ident.clone(),
                Some(range.clone()),
            ),
            Primary::HierarchicalIdentifier(ident, None) => Primary::HierarchicalIdentifier(
                ident.clone(),
                None,
            ),
            Primary::Concatenation(concat) => Primary::Concatenation(concat.clone()),
            Primary::MultipleConcatenation(count, concat) => Primary::MultipleConcatenation(
                *count,
                concat.clone(),
            ),
            Primary::MintypmaxExpression(expr) => {
                let expr: &Expression = expr;
                Primary::MintypmaxExpression(Box::new(expr.clone()))
            },
        }
    }
}

impl Clone for Concatenation {
    /// Returns a concatenation of the same text.
    fn clone(&self) -> (r: Self)
        ensures
            r.text() == self.text(),
            r.wf() == self.wf(),
        decreases self,
    {
        Concatenation { exprs: clone_exprs(&self.exprs) }
    }
}

} // verus!
