//! Arithmetic expressions out of raw bytes, for fuzzing.

use vstd::prelude::*;

use super::{
    ArithmeticExpr, ArithmeticTarget, BinaryOperator, UnaryAssignmentOperator, UnaryOperator,
};

verus! {

/// `arbitrary::Unstructured`, a source of raw bytes.
#[verifier::external_type_specification]
#[verifier::external_body]
pub struct ExUnstructured<'a>(arbitrary::Unstructured<'a>);

/// `arbitrary::Error`, why a value could not be made out of raw bytes.
#[verifier::external_type_specification]
#[verifier::external_body]
pub struct ExError(arbitrary::Error);

/// The bytes that a source still has, in order.
pub uninterp spec fn unread(u: arbitrary::Unstructured) -> Seq<u8>;

/// The text that `String::arbitrary` makes out of the given bytes, and the bytes that it leaves.
pub uninterp spec fn drawn_string(bytes: Seq<u8>) -> (Seq<char>, Seq<u8>);

/// What is left of the bytes without the first `n`.
pub open spec fn after(bytes: Seq<u8>, n: int) -> Seq<u8> {
    if n <= bytes.len() {
        bytes.skip(n)
    } else {
        Seq::empty()
    }
}

/// The number that the first `n` bytes are in little-endian order, where missing bytes are zero.
pub open spec fn number(bytes: Seq<u8>, n: nat) -> int
    decreases n,
{
    if n == 0 || bytes.len() == 0 {
        0
    } else {
        bytes[0] + 256 * number(bytes.skip(1), (n - 1) as nat)
    }
}

/// The number as one of 64 bits in two's complement.
pub open spec fn signed(number: int) -> int {
    if number < 0x8000_0000_0000_0000 {
        number
    } else {
        number - 0x1_0000_0000_0000_0000
    }
}

/// Which of `count` choices the first byte makes: the first one where there is none.
pub open spec fn choice(bytes: Seq<u8>, count: int) -> int {
    if bytes.len() == 0 {
        0
    } else {
        bytes[0] as int % count
    }
}

/// Which of `count` variants the first four bytes select: as far into the variants as their
/// number is into the 32-bit numbers.
pub open spec fn variant(bytes: Seq<u8>, count: int) -> int {
    number(bytes, 4) * count / 0x1_0000_0000
}

/// Chooses one of the given choices.
///
/// Stands for `Unstructured::choose`. Of up to 256 choices, of which there are at least two, it
/// takes the one that the next byte selects modulo their number, or the first one where no byte
/// is left, and consumes that byte.
#[verifier::external_body]
fn draw_one_of<'b, T>(u: &mut arbitrary::Unstructured<'_>, choices: &'b [T]) -> (r: Result<
    &'b T,
    arbitrary::Error,
>)
    requires
        2 <= choices@.len() <= 256,
    ensures
        r matches Ok(c) && *c == choices@[choice(unread(*old(u)), choices@.len() as int)],
        unread(*final(u)) == after(unread(*old(u)), 1),
{
    u.choose(choices)
}

/// Draws a 64-bit number.
///
/// Stands for `i64::arbitrary`, which consumes eight bytes, or those that are left, and takes them
/// as a little-endian number.
#[verifier::external_body]
fn draw_i64(u: &mut arbitrary::Unstructured<'_>) -> (r: Result<i64, arbitrary::Error>)
    ensures
        r matches Ok(n) && n == signed(number(unread(*old(u)), 8)),
        unread(*final(u)) == after(unread(*old(u)), 8),
{
    <i64 as arbitrary::Arbitrary<'_>>::arbitrary(u)
}

/// Draws a 32-bit number.
///
/// Stands for `u32::arbitrary`, which consumes four bytes, or those that are left, and takes them
/// as a little-endian number.
#[verifier::external_body]
fn draw_u32(u: &mut arbitrary::Unstructured<'_>) -> (r: Result<u32, arbitrary::Error>)
    ensures
        r matches Ok(n) && n == number(unread(*old(u)), 4),
        unread(*final(u)) == after(unread(*old(u)), 4),
{
    <u32 as arbitrary::Arbitrary<'_>>::arbitrary(u)
}

/// Draws a string.
///
/// Stands for `String::arbitrary`, which always gives one. Which text it is, and which bytes are
/// left, depends on the bytes alone; there are no more of them than before.
#[verifier::external_body]
fn draw_string(u: &mut arbitrary::Unstructured<'_>) -> (r: Result<String, arbitrary::Error>)
    ensures
        r matches Ok(s) && s@ == drawn_string(unread(*old(u))).0,
        unread(*final(u)) == drawn_string(unread(*old(u))).1,
        unread(*final(u)).len() <= unread(*old(u)).len(),
{
    <String as arbitrary::Arbitrary<'_>>::arbitrary(u)
}

proof fn lemma_number_bound(bytes: Seq<u8>)
    ensures
        0 <= number(bytes, 4) < 0x1_0000_0000,
        number(bytes, 4) > 0 ==> bytes.len() > 0,
{
    reveal_with_fuel(number, 5);
}

/// Draws the index of one of `count` variants.
fn draw_variant(u: &mut arbitrary::Unstructured<'_>, count: u32) -> (r: Result<
    u32,
    arbitrary::Error,
>)
    requires
        count > 0,
    ensures
        r matches Ok(i) && i == variant(unread(*old(u)), count as int) && i < count,
        unread(*final(u)) == after(unread(*old(u)), 4),
{
    let n: u32 = draw_u32(u)?;
    let wide: u64 = n as u64;
    let times: u64 = count as u64;
    assert(wide * times <= 0xffff_ffff * 0xffff_ffff) by (nonlinear_arith)
        requires
            0 <= wide <= 0xffff_ffff,
            0 <= times <= 0xffff_ffff,
    ;
    let product: u64 = wide * times;
    assert(product < times * 0x1_0000_0000) by (nonlinear_arith)
        requires
            product == wide * times,
            0 <= wide < 0x1_0000_0000,
            0 < times,
    ;
    Ok((product / 0x1_0000_0000) as u32)
}

impl BinaryOperator {
    /// The position among the binary operators.
    pub open spec fn position(&self) -> int {
        match self {
            BinaryOperator::Power => 0,
            BinaryOperator::Multiply => 1,
            BinaryOperator::Divide => 2,
            BinaryOperator::Modulo => 3,
            BinaryOperator::Comma => 4,
            BinaryOperator::Add => 5,
            BinaryOperator::Subtract => 6,
            BinaryOperator::ShiftLeft => 7,
            BinaryOperator::ShiftRight => 8,
            BinaryOperator::LessThan => 9,
            BinaryOperator::LessThanOrEqualTo => 10,
            BinaryOperator::GreaterThan => 11,
            BinaryOperator::GreaterThanOrEqualTo => 12,
            BinaryOperator::Equals => 13,
            BinaryOperator::NotEquals => 14,
            BinaryOperator::BitwiseAnd => 15,
            BinaryOperator::BitwiseXor => 16,
            BinaryOperator::BitwiseOr => 17,
            BinaryOperator::LogicalAnd => 18,
            BinaryOperator::LogicalOr => 19,
        }
    }

    /// Draws a binary operator.
    pub fn arbitrary(u: &mut arbitrary::Unstructured<'_>) -> (r: Result<
        BinaryOperator,
        arbitrary::Error,
    >)
        ensures
            r matches Ok(op) && op.position() == variant(unread(*old(u)), 20),
            unread(*final(u)) == after(unread(*old(u)), 4),
    {
        let i: u32 = draw_variant(u, 20)?;
        let op = match i {
            0 => BinaryOperator::Power,
            1 => BinaryOperator::Multiply,
            2 => BinaryOperator::Divide,
            3 => BinaryOperator::Modulo,
            4 => BinaryOperator::Comma,
            5 => BinaryOperator::Add,
            6 => BinaryOperator::Subtract,
            7 => BinaryOperator::ShiftLeft,
            8 => BinaryOperator::ShiftRight,
            9 => BinaryOperator::LessThan,
            10 => BinaryOperator::LessThanOrEqualTo,
            11 => BinaryOperator::GreaterThan,
            12 => BinaryOperator::GreaterThanOrEqualTo,
            13 => BinaryOperator::Equals,
            14 => BinaryOperator::NotEquals,
            15 => BinaryOperator::BitwiseAnd,
            16 => BinaryOperator::BitwiseXor,
            17 => BinaryOperator::BitwiseOr,
            18 => BinaryOperator::LogicalAnd,
            _ => BinaryOperator::LogicalOr,
        };
        Ok(op)
    }
}

impl UnaryOperator {
    /// The position among the unary operators.
    pub open spec fn position(&self) -> int {
        match self {
            UnaryOperator::UnaryPlus => 0,
            UnaryOperator::UnaryMinus => 1,
            UnaryOperator::BitwiseNot => 2,
            UnaryOperator::LogicalNot => 3,
        }
    }

    /// Draws a unary operator.
    pub fn arbitrary(u: &mut arbitrary::Unstructured<'_>) -> (r: Result<
        UnaryOperator,
        arbitrary::Error,
    >)
        ensures
            r matches Ok(op) && op.position() == variant(unread(*old(u)), 4),
            unread(*final(u)) == after(unread(*old(u)), 4),
    {
        let i: u32 = draw_variant(u, 4)?;
        let op = match i {
            0 => UnaryOperator::UnaryPlus,
            1 => UnaryOperator::UnaryMinus,
            2 => UnaryOperator::BitwiseNot,
            _ => UnaryOperator::LogicalNot,
        };
        Ok(op)
    }
}

impl UnaryAssignmentOperator {
    /// The position among the unary assignment operators.
    pub open spec fn position(&self) -> int {
        match self {
            UnaryAssignmentOperator::PrefixIncrement => 0,
            UnaryAssignmentOperator::PrefixDecrement => 1,
            UnaryAssignmentOperator::PostfixIncrement => 2,
            UnaryAssignmentOperator::PostfixDecrement => 3,
        }
    }

    /// Draws a unary assignment operator.
    pub fn arbitrary(u: &mut arbitrary::Unstructured<'_>) -> (r: Result<
        UnaryAssignmentOperator,
        arbitrary::Error,
    >)
        ensures
            r matches Ok(op) && op.position() == variant(unread(*old(u)), 4),
            unread(*final(u)) == after(unread(*old(u)), 4),
    {
        let i: u32 = draw_variant(u, 4)?;
        let op = match i {
            0 => UnaryAssignmentOperator::PrefixIncrement,
            1 => UnaryAssignmentOperator::PrefixDecrement,
            2 => UnaryAssignmentOperator::PostfixIncrement,
            _ => UnaryAssignmentOperator::PostfixDecrement,
        };
        Ok(op)
    }
}

/// The kinds of arithmetic expression.
enum ExprKind {
    Literal,
    Reference,
    UnaryOp,
    BinaryOp,
    Conditional,
    Assignment,
    BinaryAssignment,
    UnaryAssignment,
}

impl ArithmeticTarget {
    /// Whether this is the target that is drawn from the given bytes; if so, the bytes that are
    /// left.
    pub open spec fn drawn_from(&self, bytes: Seq<u8>) -> Option<Seq<u8>>
        decreases self,
    {
        let (text, rest) = drawn_string(after(bytes, 4));
        match self {
            ArithmeticTarget::Variable(name) => if variant(bytes, 2) == 0 && name@ == text {
                Some(rest)
            } else {
                None
            },
            ArithmeticTarget::ArrayElement(name, index) => if variant(bytes, 2) == 1 && name@
                == text {
                index.drawn_from(rest)
            } else {
                None
            },
        }
    }

    /// Draws the target of an assignment.
    pub fn arbitrary(u: &mut arbitrary::Unstructured<'_>) -> (r: Result<
        ArithmeticTarget,
        arbitrary::Error,
    >)
        ensures
            r matches Ok(target) && target.drawn_from(unread(*old(u))) == Some(unread(*final(u))),
            unread(*final(u)).len() <= unread(*old(u)).len(),
        decreases unread(*old(u)).len(),
    {
        let ghost bytes = unread(*u);
        proof {
            lemma_number_bound(bytes);
        }
        let i: u32 = draw_variant(u, 2)?;
        if i == 0 {
            Ok(ArithmeticTarget::Variable(draw_string(u)?))
        } else {
            let name = draw_string(u)?;
            let index = ArithmeticExpr::arbitrary(u)?;
            Ok(ArithmeticTarget::ArrayElement(name, Box::new(index)))
        }
    }
}

impl ArithmeticExpr {
    /// Whether this is the expression that is drawn from the given bytes; if so, the bytes that
    /// are left.
    pub open spec fn drawn_from(&self, bytes: Seq<u8>) -> Option<Seq<u8>>
        decreases self,
    {
        let kind = choice(bytes, 8);
        let bytes = after(bytes, 1);
        match self {
            ArithmeticExpr::Literal(n) => if kind == 0 && *n == signed(number(bytes, 8)) {
                Some(after(bytes, 8))
            } else {
                None
            },
            ArithmeticExpr::Reference(target) => if kind == 1 {
                target.drawn_from(bytes)
            } else {
                None
            },
            ArithmeticExpr::UnaryOp(op, operand) => if kind == 2 && op.position() == variant(
                bytes,
                4,
            ) {
                operand.drawn_from(after(bytes, 4))
            } else {
                None
            },
            ArithmeticExpr::BinaryOp(op, left, right) => if kind == 3 && op.position() == variant(
                bytes,
                20,
            ) {
                match left.drawn_from(after(bytes, 4)) {
                    Some(bytes) => right.drawn_from(bytes),
                    None => None,
                }
            } else {
                None
            },
            ArithmeticExpr::Conditional(condition, if_branch, else_branch) => if kind == 4 {
                match condition.drawn_from(bytes) {
                    Some(bytes) => match if_branch.drawn_from(bytes) {
                        Some(bytes) => else_branch.drawn_from(bytes),
                        None => None,
                    },
                    None => None,
                }
            } else {
                None
            },
            ArithmeticExpr::Assignment(target, value) => if kind == 5 {
                match target.drawn_from(bytes) {
                    Some(bytes) => value.drawn_from(bytes),
                    None => None,
                }
            } else {
                None
            },
            ArithmeticExpr::BinaryAssignment(op, target, operand) => if kind == 6 && op.position()
                == variant(bytes, 20) {
                match target.drawn_from(after(bytes, 4)) {
                    Some(bytes) => operand.drawn_from(bytes),
                    None => None,
                }
            } else {
                None
            },
            ArithmeticExpr::UnaryAssignment(op, target) => if kind == 7 && op.position() == variant(
                bytes,
                4,
            ) {
                target.drawn_from(after(bytes, 4))
            } else {
                None
            },
        }
    }

    /// Draws an arithmetic expression. One can be drawn from any bytes, and from none.
    pub fn arbitrary(u: &mut arbitrary::Unstructured<'_>) -> (r: Result<
        ArithmeticExpr,
        arbitrary::Error,
    >)
        ensures
            r matches Ok(expr) && expr.drawn_from(unread(*old(u))) == Some(unread(*final(u))),
            unread(*final(u)).len() <= unread(*old(u)).len(),
        decreases unread(*old(u)).len(),
    {
        let kinds: [ExprKind; 8] = [
            ExprKind::Literal,
            ExprKind::Reference,
            ExprKind::UnaryOp,
            ExprKind::BinaryOp,
            ExprKind::Conditional,
            ExprKind::Assignment,
            ExprKind::BinaryAssignment,
            ExprKind::UnaryAssignment,
        ];
        let kind = draw_one_of(u, kinds.as_slice())?;
        match kind {
            ExprKind::Literal => Ok(ArithmeticExpr::Literal(draw_i64(u)?)),
            ExprKind::Reference => Ok(ArithmeticExpr::Reference(ArithmeticTarget::arbitrary(u)?)),
            ExprKind::UnaryOp => {
                let op = UnaryOperator::arbitrary(u)?;
                let operand = ArithmeticExpr::arbitrary(u)?;
                Ok(ArithmeticExpr::UnaryOp(op, Box::new(operand)))
            },
            ExprKind::BinaryOp => {
                let op = BinaryOperator::arbitrary(u)?;
                let left = ArithmeticExpr::arbitrary(u)?;
                let right = ArithmeticExpr::arbitrary(u)?;
                Ok(ArithmeticExpr::BinaryOp(op, Box::new(left), Box::new(right)))
            },
            ExprKind::Conditional => {
                let condition = ArithmeticExpr::arbitrary(u)?;
                let if_branch = ArithmeticExpr::arbitrary(u)?;
                let else_branch = ArithmeticExpr::arbitrary(u)?;
                Ok(
                    ArithmeticExpr::Conditional(
                        Box::new(condition),
                        Box::new(if_branch),
                        Box::new(else_branch),
                    ),
                )
            },
            ExprKind::Assignment => {
                let target = ArithmeticTarget::arbitrary(u)?;
                let value = ArithmeticExpr::arbitrary(u)?;
                Ok(ArithmeticExpr::Assignment(target, Box::new(value)))
            },
            ExprKind::BinaryAssignment => {
                let op = BinaryOperator::arbitrary(u)?;
                let target = ArithmeticTarget::arbitrary(u)?;
                let operand = ArithmeticExpr::arbitrary(u)?;
                Ok(ArithmeticExpr::BinaryAssignment(op, target, Box::new(operand)))
            },
            ExprKind::UnaryAssignment => {
                let op = UnaryAssignmentOperator::arbitrary(u)?;
                let target = ArithmeticTarget::arbitrary(u)?;
                Ok(ArithmeticExpr::UnaryAssignment(op, target))
            },
        }
    }
}

impl ArithmeticTarget {
    /// Whether two targets are alike but for where their names are stored.
    pub open spec fn alike(&self, other: &ArithmeticTarget) -> bool
        decreases self,
    {
        match (self, other) {
            (ArithmeticTarget::Variable(a), ArithmeticTarget::Variable(b)) => a@ == b@,
            (
                ArithmeticTarget::ArrayElement(a, i),
                ArithmeticTarget::ArrayElement(b, j),
            ) => a@ == b@ && i.alike(&**j),
            _ => false,
        }
    }
}

impl ArithmeticExpr {
    /// Whether two expressions are alike but for where the names in them are stored.
    pub open spec fn alike(&self, other: &ArithmeticExpr) -> bool
        decreases self,
    {
        match (self, other) {
            (ArithmeticExpr::Literal(m), ArithmeticExpr::Literal(n)) => m == n,
            (ArithmeticExpr::Reference(s), ArithmeticExpr::Reference(t)) => s.alike(t),
            (ArithmeticExpr::UnaryOp(p, a), ArithmeticExpr::UnaryOp(q, x)) => p == q && a.alike(
                &**x,
            ),
            (ArithmeticExpr::BinaryOp(p, a, b), ArithmeticExpr::BinaryOp(q, x, y)) => p == q
                && a.alike(&**x) && b.alike(&**y),
            (ArithmeticExpr::Conditional(a, b, c), ArithmeticExpr::Conditional(x, y, z)) => a.alike(
                &**x,
            ) && b.alike(&**y) && c.alike(&**z),
            (ArithmeticExpr::Assignment(s, a), ArithmeticExpr::Assignment(t, x)) => s.alike(t)
                && a.alike(&**x),
            (
                ArithmeticExpr::BinaryAssignment(p, s, a),
                ArithmeticExpr::BinaryAssignment(q, t, x),
            ) => p == q && s.alike(t) && a.alike(&**x),
            (
                ArithmeticExpr::UnaryAssignment(p, s),
                ArithmeticExpr::UnaryAssignment(q, t),
            ) => p == q && s.alike(t),
            _ => false,
        }
    }
}

/// The bytes determine the target that is drawn from them, and what is left of them.
pub proof fn law_drawn_target_unique(a: ArithmeticTarget, b: ArithmeticTarget, bytes: Seq<u8>)
    requires
        a.drawn_from(bytes) is Some,
        b.drawn_from(bytes) is Some,
    ensures
        a.alike(&b),
        a.drawn_from(bytes) == b.drawn_from(bytes),
    decreases a,
{
    match (a, b) {
        (ArithmeticTarget::ArrayElement(_, i), ArithmeticTarget::ArrayElement(_, j)) => {
            law_drawn_expr_unique(*i, *j, drawn_string(after(bytes, 4)).1);
        },
        _ => {},
    }
}

/// The bytes determine the expression that is drawn from them, and what is left of them.
pub proof fn law_drawn_expr_unique(a: ArithmeticExpr, b: ArithmeticExpr, bytes: Seq<u8>)
    requires
        a.drawn_from(bytes) is Some,
        b.drawn_from(bytes) is Some,
    ensures
        a.alike(&b),
        a.drawn_from(bytes) == b.drawn_from(bytes),
    decreases a,
{
    let rest = after(bytes, 1);
    match (a, b) {
        (ArithmeticExpr::Reference(s), ArithmeticExpr::Reference(t)) => {
            law_drawn_target_unique(s, t, rest);
        },
        (ArithmeticExpr::UnaryOp(_, x), ArithmeticExpr::UnaryOp(_, y)) => {
            law_drawn_expr_unique(*x, *y, after(rest, 4));
        },
        (ArithmeticExpr::BinaryOp(_, x, v), ArithmeticExpr::BinaryOp(_, y, w)) => {
            law_drawn_expr_unique(*x, *y, after(rest, 4));
            law_drawn_expr_unique(*v, *w, x.drawn_from(after(rest, 4))->0);
        },
        (ArithmeticExpr::Conditional(x, v, e), ArithmeticExpr::Conditional(y, w, f)) => {
            law_drawn_expr_unique(*x, *y, rest);
            let rest = x.drawn_from(rest)->0;
            law_drawn_expr_unique(*v, *w, rest);
            law_drawn_expr_unique(*e, *f, v.drawn_from(rest)->0);
        },
        (ArithmeticExpr::Assignment(s, x), ArithmeticExpr::Assignment(t, y)) => {
            law_drawn_target_unique(s, t, rest);
            law_drawn_expr_unique(*x, *y, s.drawn_from(rest)->0);
        },
        (ArithmeticExpr::BinaryAssignment(_, s, x), ArithmeticExpr::BinaryAssignment(_, t, y)) => {
            law_drawn_target_unique(s, t, after(rest, 4));
            law_drawn_expr_unique(*x, *y, s.drawn_from(after(rest, 4))->0);
        },
        (ArithmeticExpr::UnaryAssignment(_, s), ArithmeticExpr::UnaryAssignment(_, t)) => {
            law_drawn_target_unique(s, t, after(rest, 4));
        },
        _ => {},
    }
}

/// Where no bytes are left, the expression that is drawn is the number zero.
pub proof fn law_drawn_from_nothing(expr: ArithmeticExpr)
    ensures
        expr.drawn_from(Seq::empty()) is Some <==> expr == ArithmeticExpr::Literal(0),
{
}

} // verus!
