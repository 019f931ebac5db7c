//! Operators of expressions.

use vstd::prelude::*;

verus! {

/// Unary operators.
#[derive(Debug, Clone, Copy, PartialEq, Eq, Hash, Structural)]
pub enum UnaryOp {
    /// Bitwise negation: `~`.
    Negation,
    /// Logical negation: `!`.
    LogicalNegation,
}

impl UnaryOp {
    /// The operator as it is written.
    pub open spec fn text(self) -> Seq<char> {
        match self {
            UnaryOp::Negation => "~"@,
            UnaryOp::LogicalNegation => "!"@,
        }
    }

    /// Writes the operator.
    pub fn to_string(&self) -> (r: String)
        ensures
            r@ == self.text(),
    {
        match self {
            UnaryOp::Negation => String::from_str("~"),
            UnaryOp::LogicalNegation => String::from_str("!"),
        }
    }
}

/// Binary operators.
#[derive(Debug, Clone, Copy, PartialEq, Eq, Hash, Structural)]
pub enum BinaryOp {
    /// Addition: `+`.
    Add,
    /// Subtraction: `-`.
    Sub,
    /// Multiplication: `*`.
    Mul,
    /// Division: `/`.
    Div,
    /// Remainder: `%`.
    Mod,
    /// Logical or: `||`.
    Or,
    /// Bitwise or: `|`.
    BitwiseOr,
    /// Bitwise exclusive or: `^`.
    BitwiseXor,
    /// Logical and: `&&`.
    And,
    /// Bitwise and: `&`.
    BitwiseAnd,
    /// Equality, unknown where an operand holds an unknown bit: `==`.
    EqArithmetic,
    /// Equality bit for bit, unknown bits included: `===`.
    Eq,
    /// Inequality, unknown where an operand holds an unknown bit: `!=`.
    NeArithmetic,
    /// Inequality bit for bit, unknown bits included: `!==`.
    Ne,
    /// Less than: `<`.
    Less,
    /// Greater than: `>`.
    Greater,
    /// Less than or equal: `<=`.
    LessEq,
    /// Greater than or equal: `>=`.
    GreaterEq,
    /// Logical shift right: `>>`.
    ShiftRight,
    /// Arithmetic shift right: `>>>`.
    ArithShiftRight,
    /// Shift left: `<<`.
    ShiftLeft,
}

impl BinaryOp {
    /// The operator as it is written.
    pub open spec fn text(self) -> Seq<char> {
        match self {
            BinaryOp::Add => "+"@,
            BinaryOp::Sub => "-"@,
            BinaryOp::Mul => "*"@,
            BinaryOp::Div => "/"@,
            BinaryOp::Mod => "%"@,
            BinaryOp::Or => "||"@,
            BinaryOp::BitwiseOr => "|"@,
            BinaryOp::BitwiseXor => "^"@,
            BinaryOp::And => "&&"@,
            BinaryOp::BitwiseAnd => "&"@,
            BinaryOp::EqArithmetic => "=="@,
            BinaryOp::Eq => "==="@,
            BinaryOp::NeArithmetic => "!="@,
            BinaryOp::Ne => "!=="@,
            BinaryOp::Less => "<"@,
            BinaryOp::Greater => ">"@,
            BinaryOp::LessEq => "<="@,
            BinaryOp::GreaterEq => ">="@,
            BinaryOp::ShiftRight => ">>"@,
            BinaryOp::ArithShiftRight => ">>>"@,
            BinaryOp::ShiftLeft => "<<"@,
        }
    }

    /// Writes the operator.
    pub fn to_string(&self) -> (r: String)
        ensures
            r@ == self.text(),
    {
        match self {
            BinaryOp::Add => String::from_str("+"),
            BinaryOp::Sub => String::from_str("-"),
            BinaryOp::Mul => String::from_str("*"),
            BinaryOp::Div => String::from_str("/"),
            BinaryOp::Mod => String::from_str("%"),
            BinaryOp::Or => String::from_str("||"),
            BinaryOp::BitwiseOr => String::from_str("|"),
            BinaryOp::BitwiseXor => String::from_str("^"),
            BinaryOp::And => String::from_str("&&"),
            BinaryOp::BitwiseAnd => String::from_str("&"),
            BinaryOp::EqArithmetic => String::from_str("=="),
            BinaryOp::Eq => String::from_str("==="),
            BinaryOp::NeArithmetic => String::from_str("!="),
            BinaryOp::Ne => String::from_str("!=="),
            BinaryOp::Less => String::from_str("<"),
            BinaryOp::Greater => String::from_str(">"),
            BinaryOp::LessEq => String::from_str("<="),
            BinaryOp::GreaterEq => String::from_str(">="),
            BinaryOp::ShiftRight => String::from_str(">>"),
            BinaryOp::ArithShiftRight => String::from_str(">>>"),
            BinaryOp::ShiftLeft => String::from_str("<<"),
        }
    }
}

} // verus!
