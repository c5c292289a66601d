use arbitrary::Unstructured;
use brush_ast::ast::{
    ArithmeticExpr, ArithmeticTarget, BinaryOperator, BinaryPredicate, TestExpr,
    UnaryAssignmentOperator, UnaryOperator, UnaryPredicate,
};
use brush_ast::decimal::decimal_string;
use brush_ast::render::Display;

fn literal(n: i64) -> Box<ArithmeticExpr> {
    Box::new(ArithmeticExpr::Literal(n))
}

fn variable(name: &str) -> ArithmeticTarget {
    ArithmeticTarget::Variable(name.to_owned())
}

#[test]
fn numbers() {
    for n in [0, 7, -7, 10, 100, -100, 1234567890, i64::MAX, i64::MIN] {
        assert_eq!(decimal_string(n), format!("{n}"));
        assert_eq!(ArithmeticExpr::Literal(n).to_string(), format!("{n}"));
    }
}

#[test]
fn arithmetic_operations() {
    let binary =
        |op| ArithmeticExpr::BinaryOp(op, literal(1), literal(2)).to_string();
    for (op, text) in [
        (BinaryOperator::Power, "1 ** 2"),
        (BinaryOperator::Multiply, "1 * 2"),
        (BinaryOperator::Divide, "1 / 2"),
        (BinaryOperator::Modulo, "1 % 2"),
        (BinaryOperator::Comma, "1, 2"),
        (BinaryOperator::Add, "1 + 2"),
        (BinaryOperator::Subtract, "1 - 2"),
        (BinaryOperator::ShiftLeft, "1 << 2"),
        (BinaryOperator::ShiftRight, "1 >> 2"),
        (BinaryOperator::LessThan, "1 < 2"),
        (BinaryOperator::LessThanOrEqualTo, "1 <= 2"),
        (BinaryOperator::GreaterThan, "1 > 2"),
        (BinaryOperator::GreaterThanOrEqualTo, "1 >= 2"),
        (BinaryOperator::Equals, "1 == 2"),
        (BinaryOperator::NotEquals, "1 != 2"),
        (BinaryOperator::BitwiseAnd, "1 & 2"),
        (BinaryOperator::BitwiseXor, "1 ^ 2"),
        (BinaryOperator::BitwiseOr, "1 | 2"),
        (BinaryOperator::LogicalAnd, "1 && 2"),
        (BinaryOperator::LogicalOr, "1 || 2"),
    ] {
        assert_eq!(binary(op), text);
    }
    for (op, text) in [
        (UnaryOperator::UnaryPlus, "+3"),
        (UnaryOperator::UnaryMinus, "-3"),
        (UnaryOperator::BitwiseNot, "~3"),
        (UnaryOperator::LogicalNot, "!3"),
    ] {
        assert_eq!(ArithmeticExpr::UnaryOp(op, literal(3)).to_string(), text);
    }
    assert_eq!(
        ArithmeticExpr::Conditional(literal(1), literal(2), literal(3)).to_string(),
        "1 ? 2 : 3"
    );
}

#[test]
fn arithmetic_assignments() {
    assert_eq!(ArithmeticExpr::Reference(variable("x")).to_string(), "x");
    let element = ArithmeticTarget::ArrayElement(
        "a".to_owned(),
        Box::new(ArithmeticExpr::BinaryOp(BinaryOperator::Add, literal(1), literal(2))),
    );
    assert_eq!(element.to_string(), "a[1 + 2]");
    assert_eq!(ArithmeticExpr::Assignment(variable("x"), literal(1)).to_string(), "x = 1");
    assert_eq!(
        ArithmeticExpr::BinaryAssignment(BinaryOperator::ShiftLeft, variable("x"), literal(1))
            .to_string(),
        "x <<= 1"
    );
    for (op, text) in [
        (UnaryAssignmentOperator::PrefixIncrement, "++x"),
        (UnaryAssignmentOperator::PrefixDecrement, "--x"),
        (UnaryAssignmentOperator::PostfixIncrement, "x++"),
        (UnaryAssignmentOperator::PostfixDecrement, "x--"),
    ] {
        assert_eq!(ArithmeticExpr::UnaryAssignment(op, variable("x")).to_string(), text);
    }
    assert_eq!(UnaryAssignmentOperator::PostfixDecrement.to_string(), "--");
}

#[test]
fn test_expressions() {
    let word = |text: &str| Box::new(TestExpr::Literal(text.to_owned()));
    assert_eq!(TestExpr::False.to_string(), "");
    assert_eq!(TestExpr::And(word("a"), word("b")).to_string(), "a -a b");
    assert_eq!(TestExpr::Or(word("a"), word("b")).to_string(), "a -o b");
    assert_eq!(TestExpr::Not(word("a")).to_string(), "! a");
    assert_eq!(TestExpr::Parenthesized(word("a")).to_string(), "( a )");
    assert_eq!(
        TestExpr::UnaryTest(UnaryPredicate::FileExists, "f".to_owned()).to_string(),
        "-e f"
    );
    assert_eq!(
        TestExpr::BinaryTest(BinaryPredicate::ArithmeticEqualTo, "1".to_owned(), "2".to_owned())
            .to_string(),
        "-eq 1 2"
    );
}

#[test]
fn predicates() {
    for (predicate, text) in [
        (UnaryPredicate::FileExists, "-e"),
        (UnaryPredicate::FileExistsAndIsBlockSpecialFile, "-b"),
        (UnaryPredicate::FileExistsAndIsCharSpecialFile, "-c"),
        (UnaryPredicate::FileExistsAndIsDir, "-d"),
        (UnaryPredicate::FileExistsAndIsRegularFile, "-f"),
        (UnaryPredicate::FileExistsAndIsSetgid, "-g"),
        (UnaryPredicate::FileExistsAndIsSymlink, "-h"),
        (UnaryPredicate::FileExistsAndHasStickyBit, "-k"),
        (UnaryPredicate::FileExistsAndIsFifo, "-p"),
        (UnaryPredicate::FileExistsAndIsReadable, "-r"),
        (UnaryPredicate::FileExistsAndIsNotZeroLength, "-s"),
        (UnaryPredicate::FdIsOpenTerminal, "-t"),
        (UnaryPredicate::FileExistsAndIsSetuid, "-u"),
        (UnaryPredicate::FileExistsAndIsWritable, "-w"),
        (UnaryPredicate::FileExistsAndIsExecutable, "-x"),
        (UnaryPredicate::FileExistsAndOwnedByEffectiveGroupId, "-G"),
        (UnaryPredicate::FileExistsAndModifiedSinceLastRead, "-N"),
        (UnaryPredicate::FileExistsAndOwnedByEffectiveUserId, "-O"),
        (UnaryPredicate::FileExistsAndIsSocket, "-S"),
        (UnaryPredicate::ShellOptionEnabled, "-o"),
        (UnaryPredicate::ShellVariableIsSetAndAssigned, "-v"),
        (UnaryPredicate::ShellVariableIsSetAndNameRef, "-R"),
        (UnaryPredicate::StringHasZeroLength, "-z"),
        (UnaryPredicate::StringHasNonZeroLength, "-n"),
    ] {
        assert_eq!(predicate.to_string(), text);
    }
    for (predicate, text) in [
        (BinaryPredicate::FilesReferToSameDeviceAndInodeNumbers, "-ef"),
        (BinaryPredicate::LeftFileIsNewerOrExistsWhenRightDoesNot, "-nt"),
        (BinaryPredicate::LeftFileIsOlderOrDoesNotExistWhenRightDoes, "-ot"),
        (BinaryPredicate::StringExactlyMatchesPattern, "=="),
        (BinaryPredicate::StringDoesNotExactlyMatchPattern, "!="),
        (BinaryPredicate::StringMatchesRegex, "=~"),
        (BinaryPredicate::StringContainsSubstring, "=~"),
        (BinaryPredicate::StringExactlyMatchesString, "=="),
        (BinaryPredicate::StringDoesNotExactlyMatchString, "!="),
        (BinaryPredicate::LeftSortsBeforeRight, "<"),
        (BinaryPredicate::LeftSortsAfterRight, ">"),
        (BinaryPredicate::ArithmeticEqualTo, "-eq"),
        (BinaryPredicate::ArithmeticNotEqualTo, "-ne"),
        (BinaryPredicate::ArithmeticLessThan, "-lt"),
        (BinaryPredicate::ArithmeticLessThanOrEqualTo, "-le"),
        (BinaryPredicate::ArithmeticGreaterThan, "-gt"),
        (BinaryPredicate::ArithmeticGreaterThanOrEqualTo, "-ge"),
    ] {
        assert_eq!(predicate.to_string(), text);
    }
}

/// The expression drawn from the bytes, and how many of them are left.
fn draw(bytes: &[u8]) -> (ArithmeticExpr, usize) {
    let mut u = Unstructured::new(bytes);
    let expr = ArithmeticExpr::arbitrary(&mut u).unwrap();
    (expr, u.len())
}

#[test]
fn zero_is_drawn_from_nothing() {
    assert_eq!(draw(&[]), (ArithmeticExpr::Literal(0), 0));
}

#[test]
fn literals_are_drawn_in_little_endian_order() {
    assert_eq!(draw(&[0, 5, 1]), (ArithmeticExpr::Literal(261), 0));
    assert_eq!(draw(&[8, 1, 0, 0, 0, 0, 0, 0, 0, 77, 78]), (ArithmeticExpr::Literal(1), 2));
    assert_eq!(
        draw(&[16, 0, 0, 0, 0, 0, 0, 0, 0x80]),
        (ArithmeticExpr::Literal(i64::MIN), 0)
    );
    assert_eq!(
        draw(&[0, 0xff, 0xff, 0xff, 0xff, 0xff, 0xff, 0xff, 0xff]),
        (ArithmeticExpr::Literal(-1), 0)
    );
}

#[test]
fn operations_are_drawn_with_their_operands() {
    assert_eq!(
        draw(&[2, 0xff, 0xff, 0xff, 0xff, 0, 7]),
        (ArithmeticExpr::UnaryOp(UnaryOperator::LogicalNot, literal(7)), 0)
    );
    assert_eq!(
        draw(&[3, 0, 0, 0, 0x40, 0, 1, 0, 0, 0, 0, 0, 0, 0, 0, 2]),
        (ArithmeticExpr::BinaryOp(BinaryOperator::Add, literal(1), literal(2)), 0)
    );
    assert_eq!(
        draw(&[4, 0, 1, 0, 0, 0, 0, 0, 0, 0, 0, 2]),
        (ArithmeticExpr::Conditional(literal(1), literal(2), literal(0)), 0)
    );
}

#[test]
fn targets_are_drawn_with_their_names() {
    assert_eq!(
        draw(&[1, 0, 0, 0, 0, b'a', b'b', 2]),
        (ArithmeticExpr::Reference(variable("ab")), 0)
    );
    assert_eq!(
        draw(&[1, 0, 0, 0, 0x80, b'k', 0, 9, 1]),
        (
            ArithmeticExpr::Reference(ArithmeticTarget::ArrayElement("k".to_owned(), literal(9))),
            0
        )
    );
    assert_eq!(
        draw(&[5, 0, 0, 0, 0, b'x', 0, 3, 1]),
        (ArithmeticExpr::Assignment(variable("x"), literal(3)), 0)
    );
    assert_eq!(
        draw(&[6, 0xff, 0xff, 0xff, 0xff, 0, 0, 0, 0, b'x', 0, 3, 1]),
        (
            ArithmeticExpr::BinaryAssignment(BinaryOperator::LogicalOr, variable("x"), literal(3)),
            0
        )
    );
    assert_eq!(
        draw(&[7, 0, 0, 0, 0x40, 0, 0, 0, 0, b'y', 1]),
        (
            ArithmeticExpr::UnaryAssignment(
                UnaryAssignmentOperator::PrefixDecrement,
                variable("y")
            ),
            0
        )
    );
}

#[test]
fn every_operator_can_be_drawn() {
    let at = |i: u64, count: u64| ((i << 32).div_ceil(count) as u32).to_le_bytes();
    let mut drawn = vec![];
    for i in 0..20 {
        let op = BinaryOperator::arbitrary(&mut Unstructured::new(&at(i, 20))).unwrap();
        drawn.push(op.to_string());
    }
    assert_eq!(
        drawn,
        [
            "**", "*", "/", "%", ",", "+", "-", "<<", ">>", "<", "<=", ">", ">=", "==", "!=", "&",
            "^", "|", "&&", "||"
        ]
    );
    for (i, op) in [
        UnaryOperator::UnaryPlus,
        UnaryOperator::UnaryMinus,
        UnaryOperator::BitwiseNot,
        UnaryOperator::LogicalNot,
    ]
    .iter()
    .enumerate()
    {
        let bytes = at(i as u64, 4);
        assert_eq!(UnaryOperator::arbitrary(&mut Unstructured::new(&bytes)), Ok(*op));
    }
    for (i, op) in [
        UnaryAssignmentOperator::PrefixIncrement,
        UnaryAssignmentOperator::PrefixDecrement,
        UnaryAssignmentOperator::PostfixIncrement,
        UnaryAssignmentOperator::PostfixDecrement,
    ]
    .iter()
    .enumerate()
    {
        let bytes = at(i as u64, 4);
        assert_eq!(UnaryAssignmentOperator::arbitrary(&mut Unstructured::new(&bytes)), Ok(*op));
    }
}

#[test]
fn the_same_bytes_give_the_same_expression() {
    let bytes: Vec<u8> = (0..64u8).map(|i| i.wrapping_mul(37)).collect();
    for start in 0..bytes.len() {
        assert_eq!(draw(&bytes[start..]), draw(&bytes[start..]));
    }
}
