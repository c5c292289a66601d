//! Which bytes give which arithmetic expression.

use vstd::prelude::*;

use super::generate::{after, choice, drawn_string, number, signed, variant};
use super::{
    ArithmeticExpr, ArithmeticTarget, BinaryOperator, UnaryAssignmentOperator, UnaryOperator,
};

verus! {

/// The operators in the order in which four bytes select them: every operator is at its position.
pub proof fn law_operator_positions(
    binary: BinaryOperator,
    unary: UnaryOperator,
    assignment: UnaryAssignmentOperator,
)
    ensures
        0 <= binary.position() < 20,
        seq![
            BinaryOperator::Power,
            BinaryOperator::Multiply,
            BinaryOperator::Divide,
            BinaryOperator::Modulo,
            BinaryOperator::Comma,
            BinaryOperator::Add,
            BinaryOperator::Subtract,
            BinaryOperator::ShiftLeft,
            BinaryOperator::ShiftRight,
            BinaryOperator::LessThan,
            BinaryOperator::LessThanOrEqualTo,
            BinaryOperator::GreaterThan,
            BinaryOperator::GreaterThanOrEqualTo,
            BinaryOperator::Equals,
            BinaryOperator::NotEquals,
            BinaryOperator::BitwiseAnd,
            BinaryOperator::BitwiseXor,
            BinaryOperator::BitwiseOr,
            BinaryOperator::LogicalAnd,
            BinaryOperator::LogicalOr,
        ][binary.position()] == binary,
        0 <= unary.position() < 4,
        seq![
            UnaryOperator::UnaryPlus,
            UnaryOperator::UnaryMinus,
            UnaryOperator::BitwiseNot,
            UnaryOperator::LogicalNot,
        ][unary.position()] == unary,
        0 <= assignment.position() < 4,
        seq![
            UnaryAssignmentOperator::PrefixIncrement,
            UnaryAssignmentOperator::PrefixDecrement,
            UnaryAssignmentOperator::PostfixIncrement,
            UnaryAssignmentOperator::PostfixDecrement,
        ][assignment.position()] == assignment,
{
}

/// The variant that four bytes select is one of them, as far into them as the number is into the
/// 32-bit numbers, rounded down; more bytes make no difference.
pub proof fn law_variant(bytes: Seq<u8>, count: int)
    requires
        count > 0,
    ensures
        0 <= variant(bytes, count) < count,
        variant(bytes, count) * 0x1_0000_0000 <= number(bytes, 4) * count,
        number(bytes, 4) * count < (variant(bytes, count) + 1) * 0x1_0000_0000,
        bytes.len() == 0 ==> variant(bytes, count) == 0,
        bytes.len() >= 4 ==> number(bytes, 4) == bytes[0] + 256 * bytes[1] + 65536 * bytes[2]
            + 16777216 * bytes[3],
{
    reveal_with_fuel(number, 5);
    let n = number(bytes, 4);
    let v = variant(bytes, count);
    assert(0 <= n < 0x1_0000_0000);
    assert(0 <= v < count && v * 0x1_0000_0000 <= n * count && n * count < (v + 1)
        * 0x1_0000_0000) by (nonlinear_arith)
        requires
            0 <= n < 0x1_0000_0000,
            count > 0,
            v == n * count / 0x1_0000_0000,
    ;
    if bytes.len() == 0 {
        assert(0 * count == 0) by (nonlinear_arith);
    }
}

/// A literal is the little-endian number of eight bytes, in two's complement.
pub proof fn law_literal_value(bytes: Seq<u8>)
    requires
        bytes.len() >= 8,
    ensures
        ({
            let n = bytes[0] + 256 * bytes[1] + 0x1_0000 * bytes[2] + 0x100_0000 * bytes[3]
                + 0x1_0000_0000 * bytes[4] + 0x100_0000_0000 * bytes[5] + 0x1_0000_0000_0000
                * bytes[6] + 0x100_0000_0000_0000 * bytes[7];
            &&& number(bytes, 8) == n
            &&& -0x8000_0000_0000_0000 <= signed(n) < 0x8000_0000_0000_0000
            &&& signed(n) == n || signed(n) + 0x1_0000_0000_0000_0000 == n
        }),
{
    reveal_with_fuel(number, 9);
}

/// What is left without the first bytes are the others, in order.
pub proof fn law_after(bytes: Seq<u8>, n: int)
    requires
        0 <= n,
    ensures
        n <= bytes.len() ==> bytes == bytes.take(n) + after(bytes, n),
        n > bytes.len() ==> after(bytes, n).len() == 0,
{
    if n <= bytes.len() {
        assert(bytes =~= bytes.take(n) + after(bytes, n));
    }
}

/// The kind of an expression goes by the first byte that it is drawn from, modulo eight.
pub proof fn law_kind_of_expr(expr: ArithmeticExpr, bytes: Seq<u8>)
    requires
        expr.drawn_from(bytes) is Some,
    ensures
        ({
            let kind = if bytes.len() == 0 {
                0
            } else {
                bytes[0] as int % 8
            };
            &&& kind == 0 <==> expr is Literal
            &&& kind == 1 <==> expr is Reference
            &&& kind == 2 <==> expr is UnaryOp
            &&& kind == 3 <==> expr is BinaryOp
            &&& kind == 4 <==> expr is Conditional
            &&& kind == 5 <==> expr is Assignment
            &&& kind == 6 <==> expr is BinaryAssignment
            &&& kind == 7 <==> expr is UnaryAssignment
        }),
{
}

/// Whether one expression is drawn from the given bytes, and then another.
pub open spec fn drawn_in_turn(a: ArithmeticExpr, b: ArithmeticExpr, bytes: Seq<u8>) -> Option<
    Seq<u8>,
> {
    if a.drawn_from(bytes) is Some {
        b.drawn_from(a.drawn_from(bytes)->0)
    } else {
        None
    }
}

/// An expression is drawn from the byte of its kind, its operator if it has one, and then its
/// parts, each from the bytes that the one before it leaves.
pub proof fn law_parts_of_expr(
    a: ArithmeticExpr,
    b: ArithmeticExpr,
    c: ArithmeticExpr,
    target: ArithmeticTarget,
    binary: BinaryOperator,
    unary: UnaryOperator,
    assignment: UnaryAssignmentOperator,
    n: i64,
    bytes: Seq<u8>,
    kind: u8,
)
    ensures
        ({
            let all = seq![kind] + bytes;
            let rest = after(bytes, 4);
            &&& kind % 8 == 0 ==> ArithmeticExpr::Literal(n).drawn_from(all) == if n == signed(
                number(bytes, 8),
            ) {
                Some(after(bytes, 8))
            } else {
                None
            }
            &&& kind % 8 == 1 ==> ArithmeticExpr::Reference(target).drawn_from(all)
                == target.drawn_from(bytes)
            &&& kind % 8 == 2 && unary.position() == variant(bytes, 4) ==> ArithmeticExpr::UnaryOp(
                unary,
                Box::new(a),
            ).drawn_from(all) == a.drawn_from(rest)
            &&& kind % 8 == 3 && binary.position() == variant(bytes, 20)
                ==> ArithmeticExpr::BinaryOp(binary, Box::new(a), Box::new(b)).drawn_from(all)
                == drawn_in_turn(a, b, rest)
            &&& kind % 8 == 4 && drawn_in_turn(a, b, bytes) is Some
                ==> ArithmeticExpr::Conditional(Box::new(a), Box::new(b), Box::new(c)).drawn_from(
                all,
            ) == c.drawn_from(drawn_in_turn(a, b, bytes)->0)
            &&& kind % 8 == 5 && target.drawn_from(bytes) is Some ==> ArithmeticExpr::Assignment(
                target,
                Box::new(a),
            ).drawn_from(all) == a.drawn_from(target.drawn_from(bytes)->0)
            &&& kind % 8 == 6 && binary.position() == variant(bytes, 20) && target.drawn_from(
                rest,
            ) is Some ==> ArithmeticExpr::BinaryAssignment(binary, target, Box::new(a)).drawn_from(
                all,
            ) == a.drawn_from(target.drawn_from(rest)->0)
            &&& kind % 8 == 7 && assignment.position() == variant(bytes, 4)
                ==> ArithmeticExpr::UnaryAssignment(assignment, target).drawn_from(all)
                == target.drawn_from(rest)
        }),
{
    let all = seq![kind] + bytes;
    assert(after(all, 1) =~= bytes);
    assert(choice(all, 8) == kind as int % 8);
}

/// A target is drawn from four bytes, of which the greater half selects an array element, then its
/// name, and then the index if it has one.
pub proof fn law_parts_of_target(name: String, index: ArithmeticExpr, bytes: Seq<u8>)
    ensures
        ({
            let (text, rest) = drawn_string(after(bytes, 4));
            let variable = ArithmeticTarget::Variable(name);
            let element = ArithmeticTarget::ArrayElement(name, Box::new(index));
            &&& name@ == text && number(bytes, 4) < 0x8000_0000 ==> variable.drawn_from(bytes)
                == Some(rest)
            &&& name@ == text && number(bytes, 4) >= 0x8000_0000 ==> element.drawn_from(bytes)
                == index.drawn_from(rest)
            &&& variable.drawn_from(bytes) is Some ==> name@ == text && number(bytes, 4)
                < 0x8000_0000
            &&& element.drawn_from(bytes) is Some ==> name@ == text && number(bytes, 4)
                >= 0x8000_0000
        }),
{
    law_variant(bytes, 2);
}

} // verus!
