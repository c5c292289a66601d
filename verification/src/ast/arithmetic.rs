//! Arithmetic expressions.

use vstd::prelude::*;

use super::{Node, SourceLocation};
use crate::decimal::{decimal, decimal_string};
use crate::layout::{group_layout, plain, unfolded, Doc};
use crate::render::{Display, Formatter};
use crate::source::SourceSpan;

verus! {

broadcast use group_layout;

/// An arithmetic expression.
#[derive(Debug, PartialEq, Eq)]
pub enum ArithmeticExpr {
    /// A literal integer value.
    Literal(i64),
    /// A dereference of a variable or array element.
    Reference(ArithmeticTarget),
    /// A unary operation on an the result of a given nested expression.
    UnaryOp(UnaryOperator, Box<ArithmeticExpr>),
    /// A binary operation on two nested expressions.
    BinaryOp(BinaryOperator, Box<ArithmeticExpr>, Box<ArithmeticExpr>),
    /// A ternary conditional expression.
    Conditional(Box<ArithmeticExpr>, Box<ArithmeticExpr>, Box<ArithmeticExpr>),
    /// An assignment operation.
    Assignment(ArithmeticTarget, Box<ArithmeticExpr>),
    /// A binary assignment operation.
    BinaryAssignment(BinaryOperator, ArithmeticTarget, Box<ArithmeticExpr>),
    /// A unary assignment operation.
    UnaryAssignment(UnaryAssignmentOperator, ArithmeticTarget),
}

/// A binary arithmetic operator.
#[derive(Clone, Copy, Debug, PartialEq, Eq)]
pub enum BinaryOperator {
    /// Exponentiation (e.g., `x ** y`).
    Power,
    /// Multiplication (e.g., `x * y`).
    Multiply,
    /// Division (e.g., `x / y`).
    Divide,
    /// Modulo (e.g., `x % y`).
    Modulo,
    /// Comma (e.g., `x, y`).
    Comma,
    /// Addition (e.g., `x + y`).
    Add,
    /// Subtraction (e.g., `x - y`).
    Subtract,
    /// Bitwise left shift (e.g., `x << y`).
    ShiftLeft,
    /// Bitwise right shift (e.g., `x >> y`).
    ShiftRight,
    /// Less than (e.g., `x < y`).
    LessThan,
    /// Less than or equal to (e.g., `x <= y`).
    LessThanOrEqualTo,
    /// Greater than (e.g., `x > y`).
    GreaterThan,
    /// Greater than or equal to (e.g., `x >= y`).
    GreaterThanOrEqualTo,
    /// Equals (e.g., `x == y`).
    Equals,
    /// Not equals (e.g., `x != y`).
    NotEquals,
    /// Bitwise AND (e.g., `x & y`).
    BitwiseAnd,
    /// Bitwise exclusive OR (xor) (e.g., `x ^ y`).
    BitwiseXor,
    /// Bitwise OR (e.g., `x | y`).
    BitwiseOr,
    /// Logical AND (e.g., `x && y`).
    LogicalAnd,
    /// Logical OR (e.g., `x || y`).
    LogicalOr,
}

/// A unary arithmetic operator.
#[derive(Clone, Copy, Debug, PartialEq, Eq)]
pub enum UnaryOperator {
    /// Unary plus (e.g., `+x`).
    UnaryPlus,
    /// Unary minus (e.g., `-x`).
    UnaryMinus,
    /// Bitwise not (e.g., `~x`).
    BitwiseNot,
    /// Logical not (e.g., `!x`).
    LogicalNot,
}

/// A unary arithmetic assignment operator.
#[derive(Clone, Copy, Debug, PartialEq, Eq)]
pub enum UnaryAssignmentOperator {
    /// Prefix increment (e.g., `++x`).
    PrefixIncrement,
    /// Prefix increment (e.g., `--x`).
    PrefixDecrement,
    /// Postfix increment (e.g., `x++`).
    PostfixIncrement,
    /// Postfix decrement (e.g., `x--`).
    PostfixDecrement,
}

/// Identifies the target of an arithmetic assignment expression.
#[derive(Debug, PartialEq, Eq)]
pub enum ArithmeticTarget {
    /// A named variable.
    Variable(String),
    /// An element in an array.
    ArrayElement(String, Box<ArithmeticExpr>),
}

impl Clone for ArithmeticExpr {
    fn clone(&self) -> (copy: ArithmeticExpr)
        ensures
            copy == *self,
        decreases self,
    {
        match self {
            ArithmeticExpr::Literal(n) => ArithmeticExpr::Literal(*n),
            ArithmeticExpr::Reference(t) => ArithmeticExpr::Reference(t.clone()),
            ArithmeticExpr::UnaryOp(op, a) => ArithmeticExpr::UnaryOp(*op, Box::new((**a).clone())),
            ArithmeticExpr::BinaryOp(op, a, b) => ArithmeticExpr::BinaryOp(
                *op,
                Box::new((**a).clone()),
                Box::new((**b).clone()),
            ),
            ArithmeticExpr::Conditional(a, b, c) => ArithmeticExpr::Conditional(
                Box::new((**a).clone()),
                Box::new((**b).clone()),
                Box::new((**c).clone()),
            ),
            ArithmeticExpr::Assignment(t, a) => ArithmeticExpr::Assignment(
                t.clone(),
                Box::new((**a).clone()),
            ),
            ArithmeticExpr::BinaryAssignment(op, t, a) => ArithmeticExpr::BinaryAssignment(
                *op,
                t.clone(),
                Box::new((**a).clone()),
            ),
            ArithmeticExpr::UnaryAssignment(op, t) => ArithmeticExpr::UnaryAssignment(
                *op,
                t.clone(),
            ),
        }
    }
}

impl Node for ArithmeticExpr {

}

impl SourceLocation for ArithmeticExpr {
    open spec fn span(&self) -> Option<SourceSpan> {
        None
    }

    fn location(&self) -> (r: Option<SourceSpan>) {
        None
    }
}

impl Display for ArithmeticExpr {
    open spec fn doc(&self) -> Doc
        decreases self,
    {
        match self {
            ArithmeticExpr::Literal(literal) => plain(decimal(*literal as int)),
            ArithmeticExpr::Reference(target) => target.doc(),
            ArithmeticExpr::UnaryOp(op, operand) => op.doc() + operand.doc(),
            ArithmeticExpr::BinaryOp(op, left, right) => if op is Comma {
                left.doc() + op.doc() + plain(" "@) + right.doc()
            } else {
                left.doc() + plain(" "@) + op.doc() + plain(" "@) + right.doc()
            },
            ArithmeticExpr::Conditional(condition, if_branch, else_branch) => condition.doc()
                + plain(" ? "@) + if_branch.doc() + plain(" : "@) + else_branch.doc(),
            ArithmeticExpr::Assignment(target, value) => target.doc() + plain(" = "@)
                + value.doc(),
            ArithmeticExpr::BinaryAssignment(op, target, operand) => target.doc() + plain(" "@)
                + op.doc() + plain("= "@) + operand.doc(),
            ArithmeticExpr::UnaryAssignment(op, target) => if op is PrefixIncrement
                || op is PrefixDecrement {
                op.doc() + target.doc()
            } else {
                target.doc() + op.doc()
            },
        }
    }

    fn fmt(&self, f: &mut Formatter)
        decreases self,
    {
        assert(unfolded(self.doc()));
        match self {
            ArithmeticExpr::Literal(literal) => f.write_str(decimal_string(*literal).as_str()),
            ArithmeticExpr::Reference(target) => target.fmt(f),
            ArithmeticExpr::UnaryOp(op, operand) => {
                op.fmt(f);
                operand.fmt(f);
            },
            ArithmeticExpr::BinaryOp(op, left, right) => {
                left.fmt(f);
                if !matches!(op, BinaryOperator::Comma) {
                    f.write_str(" ");
                }
                op.fmt(f);
                f.write_str(" ");
                right.fmt(f);
            },
            ArithmeticExpr::Conditional(condition, if_branch, else_branch) => {
                condition.fmt(f);
                f.write_str(" ? ");
                if_branch.fmt(f);
                f.write_str(" : ");
                else_branch.fmt(f);
            },
            ArithmeticExpr::Assignment(target, value) => {
                target.fmt(f);
                f.write_str(" = ");
                value.fmt(f);
            },
            ArithmeticExpr::BinaryAssignment(op, target, operand) => {
                target.fmt(f);
                f.write_str(" ");
                op.fmt(f);
                f.write_str("= ");
                operand.fmt(f);
            },
            ArithmeticExpr::UnaryAssignment(op, target) => match op {
                UnaryAssignmentOperator::PrefixIncrement
                | UnaryAssignmentOperator::PrefixDecrement => {
                    op.fmt(f);
                    target.fmt(f);
                },
                UnaryAssignmentOperator::PostfixIncrement
                | UnaryAssignmentOperator::PostfixDecrement => {
                    target.fmt(f);
                    op.fmt(f);
                },
            },
        }
    }
}

impl BinaryOperator {
    /// The operator, as written.
    pub open spec fn text(&self) -> Seq<char> {
        match self {
            BinaryOperator::Power => "**"@,
            BinaryOperator::Multiply => "*"@,
            BinaryOperator::Divide => "/"@,
            BinaryOperator::Modulo => "%"@,
            BinaryOperator::Comma => ","@,
            BinaryOperator::Add => "+"@,
            BinaryOperator::Subtract => "-"@,
            BinaryOperator::ShiftLeft => "<<"@,
            BinaryOperator::ShiftRight => ">>"@,
            BinaryOperator::LessThan => "<"@,
            BinaryOperator::LessThanOrEqualTo => "<="@,
            BinaryOperator::GreaterThan => ">"@,
            BinaryOperator::GreaterThanOrEqualTo => ">="@,
            BinaryOperator::Equals => "=="@,
            BinaryOperator::NotEquals => "!="@,
            BinaryOperator::BitwiseAnd => "&"@,
            BinaryOperator::BitwiseXor => "^"@,
            BinaryOperator::BitwiseOr => "|"@,
            BinaryOperator::LogicalAnd => "&&"@,
            BinaryOperator::LogicalOr => "||"@,
        }
    }
}

impl Display for BinaryOperator {
    open spec fn doc(&self) -> Doc {
        plain(self.text())
    }

    fn fmt(&self, f: &mut Formatter) {
        match self {
            BinaryOperator::Power => f.write_str("**"),
            BinaryOperator::Multiply => f.write_str("*"),
            BinaryOperator::Divide => f.write_str("/"),
            BinaryOperator::Modulo => f.write_str("%"),
            BinaryOperator::Comma => f.write_str(","),
            BinaryOperator::Add => f.write_str("+"),
            BinaryOperator::Subtract => f.write_str("-"),
            BinaryOperator::ShiftLeft => f.write_str("<<"),
            BinaryOperator::ShiftRight => f.write_str(">>"),
            BinaryOperator::LessThan => f.write_str("<"),
            BinaryOperator::LessThanOrEqualTo => f.write_str("<="),
            BinaryOperator::GreaterThan => f.write_str(">"),
            BinaryOperator::GreaterThanOrEqualTo => f.write_str(">="),
            BinaryOperator::Equals => f.write_str("=="),
            BinaryOperator::NotEquals => f.write_str("!="),
            BinaryOperator::BitwiseAnd => f.write_str("&"),
            BinaryOperator::BitwiseXor => f.write_str("^"),
            BinaryOperator::BitwiseOr => f.write_str("|"),
            BinaryOperator::LogicalAnd => f.write_str("&&"),
            BinaryOperator::LogicalOr => f.write_str("||"),
        }
    }
}

impl UnaryOperator {
    /// The operator, as written.
    pub open spec fn text(&self) -> Seq<char> {
        match self {
            UnaryOperator::UnaryPlus => "+"@,
            UnaryOperator::UnaryMinus => "-"@,
            UnaryOperator::BitwiseNot => "~"@,
            UnaryOperator::LogicalNot => "!"@,
        }
    }
}

impl Display for UnaryOperator {
    open spec fn doc(&self) -> Doc {
        plain(self.text())
    }

    fn fmt(&self, f: &mut Formatter) {
        match self {
            UnaryOperator::UnaryPlus => f.write_str("+"),
            UnaryOperator::UnaryMinus => f.write_str("-"),
            UnaryOperator::BitwiseNot => f.write_str("~"),
            UnaryOperator::LogicalNot => f.write_str("!"),
        }
    }
}

impl UnaryAssignmentOperator {
    /// The operator, as written.
    pub open spec fn text(&self) -> Seq<char> {
        match self {
            UnaryAssignmentOperator::PrefixIncrement => "++"@,
            UnaryAssignmentOperator::PrefixDecrement => "--"@,
            UnaryAssignmentOperator::PostfixIncrement => "++"@,
            UnaryAssignmentOperator::PostfixDecrement => "--"@,
        }
    }
}

impl Display for UnaryAssignmentOperator {
    open spec fn doc(&self) -> Doc {
        plain(self.text())
    }

    fn fmt(&self, f: &mut Formatter) {
        match self {
            UnaryAssignmentOperator::PrefixIncrement => f.write_str("++"),
            UnaryAssignmentOperator::PrefixDecrement => f.write_str("--"),
            UnaryAssignmentOperator::PostfixIncrement => f.write_str("++"),
            UnaryAssignmentOperator::PostfixDecrement => f.write_str("--"),
        }
    }
}

impl Clone for ArithmeticTarget {
    fn clone(&self) -> (copy: ArithmeticTarget)
        ensures
            copy == *self,
        decreases self,
    {
        match self {
            ArithmeticTarget::Variable(name) => ArithmeticTarget::Variable(name.clone()),
            ArithmeticTarget::ArrayElement(name, index) => ArithmeticTarget::ArrayElement(
                name.clone(),
                Box::new((**index).clone()),
            ),
        }
    }
}

impl Node for ArithmeticTarget {

}

impl SourceLocation for ArithmeticTarget {
    open spec fn span(&self) -> Option<SourceSpan> {
        None
    }

    fn location(&self) -> (r: Option<SourceSpan>) {
        None
    }
}

impl Display for ArithmeticTarget {
    open spec fn doc(&self) -> Doc
        decreases self,
    {
        match self {
            ArithmeticTarget::Variable(name) => plain(name@),
            ArithmeticTarget::ArrayElement(name, index) => plain(name@) + plain("["@)
                + index.doc() + plain("]"@),
        }
    }

    fn fmt(&self, f: &mut Formatter)
        decreases self,
    {
        assert(unfolded(self.doc()));
        match self {
            ArithmeticTarget::Variable(name) => f.write_str(name.as_str()),
            ArithmeticTarget::ArrayElement(name, index) => {
                f.write_str(name.as_str());
                f.write_str("[");
                index.fmt(f);
                f.write_str("]");
            },
        }
    }
}

} // verus!
