//! What the text of an expression, an operator, a redirection and an assignment is made of.

use vstd::prelude::*;

use super::display::{element_doc, elements_doc, fd_doc};
use super::text_laws::law_word_text;
use super::{
    ArithmeticExpr, ArithmeticTarget, Assignment, AssignmentName, AssignmentValue, BinaryOperator,
    BinaryPredicate, ExtendedTestExpr, ExtendedTestExprCommand, IoFd, IoFileRedirectKind,
    IoFileRedirectTarget, IoHereDocument, IoRedirect, ProcessSubstitutionKind, SubshellCommand,
    TestExpr, UnaryAssignmentOperator, UnaryOperator, UnaryPredicate, UnexpandedArithmeticExpr,
    Word,
};
use crate::decimal::decimal;
use crate::layout::{
    group_layout, here_doc, layout, nothing, plain, printed, unfolded, Rendering,
};
use crate::render::Display;

verus! {

broadcast use group_layout;

/// The predicate that a letter stands for after a `-`.
pub open spec fn unary_predicate(letter: char) -> Option<UnaryPredicate> {
    if letter == 'e' {
        Some(UnaryPredicate::FileExists)
    } else if letter == 'b' {
        Some(UnaryPredicate::FileExistsAndIsBlockSpecialFile)
    } else if letter == 'c' {
        Some(UnaryPredicate::FileExistsAndIsCharSpecialFile)
    } else if letter == 'd' {
        Some(UnaryPredicate::FileExistsAndIsDir)
    } else if letter == 'f' {
        Some(UnaryPredicate::FileExistsAndIsRegularFile)
    } else if letter == 'g' {
        Some(UnaryPredicate::FileExistsAndIsSetgid)
    } else if letter == 'h' {
        Some(UnaryPredicate::FileExistsAndIsSymlink)
    } else if letter == 'k' {
        Some(UnaryPredicate::FileExistsAndHasStickyBit)
    } else if letter == 'p' {
        Some(UnaryPredicate::FileExistsAndIsFifo)
    } else if letter == 'r' {
        Some(UnaryPredicate::FileExistsAndIsReadable)
    } else if letter == 's' {
        Some(UnaryPredicate::FileExistsAndIsNotZeroLength)
    } else if letter == 't' {
        Some(UnaryPredicate::FdIsOpenTerminal)
    } else if letter == 'u' {
        Some(UnaryPredicate::FileExistsAndIsSetuid)
    } else if letter == 'w' {
        Some(UnaryPredicate::FileExistsAndIsWritable)
    } else if letter == 'x' {
        Some(UnaryPredicate::FileExistsAndIsExecutable)
    } else if letter == 'G' {
        Some(UnaryPredicate::FileExistsAndOwnedByEffectiveGroupId)
    } else if letter == 'N' {
        Some(UnaryPredicate::FileExistsAndModifiedSinceLastRead)
    } else if letter == 'O' {
        Some(UnaryPredicate::FileExistsAndOwnedByEffectiveUserId)
    } else if letter == 'S' {
        Some(UnaryPredicate::FileExistsAndIsSocket)
    } else if letter == 'o' {
        Some(UnaryPredicate::ShellOptionEnabled)
    } else if letter == 'v' {
        Some(UnaryPredicate::ShellVariableIsSetAndAssigned)
    } else if letter == 'R' {
        Some(UnaryPredicate::ShellVariableIsSetAndNameRef)
    } else if letter == 'z' {
        Some(UnaryPredicate::StringHasZeroLength)
    } else if letter == 'n' {
        Some(UnaryPredicate::StringHasNonZeroLength)
    } else {
        None
    }
}

/// The text of a unary predicate is `-` and the letter that stands for it.
pub proof fn law_unary_predicate_text(p: UnaryPredicate, r: Rendering)
    ensures
        p.text().len() == 2,
        p.text()[0] == '-',
        unary_predicate(p.text()[1]) == Some(p),
        layout(p.doc(), r) == r.plain(p.text()),
{
    reveal_strlit("-e");
    reveal_strlit("-b");
    reveal_strlit("-c");
    reveal_strlit("-d");
    reveal_strlit("-f");
    reveal_strlit("-g");
    reveal_strlit("-h");
    reveal_strlit("-k");
    reveal_strlit("-p");
    reveal_strlit("-r");
    reveal_strlit("-s");
    reveal_strlit("-t");
    reveal_strlit("-u");
    reveal_strlit("-w");
    reveal_strlit("-x");
    reveal_strlit("-G");
    reveal_strlit("-N");
    reveal_strlit("-O");
    reveal_strlit("-S");
    reveal_strlit("-o");
    reveal_strlit("-v");
    reveal_strlit("-R");
    reveal_strlit("-z");
    reveal_strlit("-n");
}

/// Which predicates an operator stands for between two operands.
pub open spec fn binary_predicate(text: Seq<char>, p: BinaryPredicate) -> bool {
    ||| text == seq!['-', 'e', 'f'] && p is FilesReferToSameDeviceAndInodeNumbers
    ||| text == seq!['-', 'n', 't'] && p is LeftFileIsNewerOrExistsWhenRightDoesNot
    ||| text == seq!['-', 'o', 't'] && p is LeftFileIsOlderOrDoesNotExistWhenRightDoes
    ||| text == seq!['=', '='] && (p is StringExactlyMatchesPattern
        || p is StringExactlyMatchesString)
    ||| text == seq!['!', '='] && (p is StringDoesNotExactlyMatchPattern
        || p is StringDoesNotExactlyMatchString)
    ||| text == seq!['=', '~'] && (p is StringMatchesRegex || p is StringContainsSubstring)
    ||| text == seq!['<'] && p is LeftSortsBeforeRight
    ||| text == seq!['>'] && p is LeftSortsAfterRight
    ||| text == seq!['-', 'e', 'q'] && p is ArithmeticEqualTo
    ||| text == seq!['-', 'n', 'e'] && p is ArithmeticNotEqualTo
    ||| text == seq!['-', 'l', 't'] && p is ArithmeticLessThan
    ||| text == seq!['-', 'l', 'e'] && p is ArithmeticLessThanOrEqualTo
    ||| text == seq!['-', 'g', 't'] && p is ArithmeticGreaterThan
    ||| text == seq!['-', 'g', 'e'] && p is ArithmeticGreaterThanOrEqualTo
}

/// The text of a binary predicate is an operator that stands for it.
pub proof fn law_binary_predicate_text(p: BinaryPredicate, r: Rendering)
    ensures
        binary_predicate(p.text(), p),
        layout(p.doc(), r) == r.plain(p.text()),
{
    reveal_strlit("-ef");
    reveal_strlit("-nt");
    reveal_strlit("-ot");
    reveal_strlit("==");
    reveal_strlit("!=");
    reveal_strlit("=~");
    reveal_strlit("<");
    reveal_strlit(">");
    reveal_strlit("-eq");
    reveal_strlit("-ne");
    reveal_strlit("-lt");
    reveal_strlit("-le");
    reveal_strlit("-gt");
    reveal_strlit("-ge");
    assert("-ef"@ =~= seq!['-', 'e', 'f']);
    assert("-nt"@ =~= seq!['-', 'n', 't']);
    assert("-ot"@ =~= seq!['-', 'o', 't']);
    assert("=="@ =~= seq!['=', '=']);
    assert("!="@ =~= seq!['!', '=']);
    assert("=~"@ =~= seq!['=', '~']);
    assert("<"@ =~= seq!['<']);
    assert(">"@ =~= seq!['>']);
    assert("-eq"@ =~= seq!['-', 'e', 'q']);
    assert("-ne"@ =~= seq!['-', 'n', 'e']);
    assert("-lt"@ =~= seq!['-', 'l', 't']);
    assert("-le"@ =~= seq!['-', 'l', 'e']);
    assert("-gt"@ =~= seq!['-', 'g', 't']);
    assert("-ge"@ =~= seq!['-', 'g', 'e']);
}

/// The operator that is written as the given text.
pub open spec fn binary_operator(text: Seq<char>, op: BinaryOperator) -> bool {
    ||| text == seq!['*', '*'] && op is Power
    ||| text == seq!['*'] && op is Multiply
    ||| text == seq!['/'] && op is Divide
    ||| text == seq!['%'] && op is Modulo
    ||| text == seq![','] && op is Comma
    ||| text == seq!['+'] && op is Add
    ||| text == seq!['-'] && op is Subtract
    ||| text == seq!['<', '<'] && op is ShiftLeft
    ||| text == seq!['>', '>'] && op is ShiftRight
    ||| text == seq!['<'] && op is LessThan
    ||| text == seq!['<', '='] && op is LessThanOrEqualTo
    ||| text == seq!['>'] && op is GreaterThan
    ||| text == seq!['>', '='] && op is GreaterThanOrEqualTo
    ||| text == seq!['=', '='] && op is Equals
    ||| text == seq!['!', '='] && op is NotEquals
    ||| text == seq!['&'] && op is BitwiseAnd
    ||| text == seq!['^'] && op is BitwiseXor
    ||| text == seq!['|'] && op is BitwiseOr
    ||| text == seq!['&', '&'] && op is LogicalAnd
    ||| text == seq!['|', '|'] && op is LogicalOr
}

/// The text of a binary operator is what stands for it in an arithmetic expression.
pub proof fn law_binary_operator_text(op: BinaryOperator, r: Rendering)
    ensures
        binary_operator(op.text(), op),
        layout(op.doc(), r) == r.plain(op.text()),
{
    reveal_strlit("**");
    reveal_strlit("*");
    reveal_strlit("/");
    reveal_strlit("%");
    reveal_strlit(",");
    reveal_strlit("+");
    reveal_strlit("-");
    reveal_strlit("<<");
    reveal_strlit(">>");
    reveal_strlit("<");
    reveal_strlit("<=");
    reveal_strlit(">");
    reveal_strlit(">=");
    reveal_strlit("==");
    reveal_strlit("!=");
    reveal_strlit("&");
    reveal_strlit("^");
    reveal_strlit("|");
    reveal_strlit("&&");
    reveal_strlit("||");
    assert("**"@ =~= seq!['*', '*']);
    assert("*"@ =~= seq!['*']);
    assert("/"@ =~= seq!['/']);
    assert("%"@ =~= seq!['%']);
    assert(","@ =~= seq![',']);
    assert("+"@ =~= seq!['+']);
    assert("-"@ =~= seq!['-']);
    assert("<<"@ =~= seq!['<', '<']);
    assert(">>"@ =~= seq!['>', '>']);
    assert("<"@ =~= seq!['<']);
    assert("<="@ =~= seq!['<', '=']);
    assert(">"@ =~= seq!['>']);
    assert(">="@ =~= seq!['>', '=']);
    assert("=="@ =~= seq!['=', '=']);
    assert("!="@ =~= seq!['!', '=']);
    assert("&"@ =~= seq!['&']);
    assert("^"@ =~= seq!['^']);
    assert("|"@ =~= seq!['|']);
    assert("&&"@ =~= seq!['&', '&']);
    assert("||"@ =~= seq!['|', '|']);
}

/// The operator that is written as the given character.
pub open spec fn unary_operator(c: char, op: UnaryOperator) -> bool {
    ||| c == '+' && op is UnaryPlus
    ||| c == '-' && op is UnaryMinus
    ||| c == '~' && op is BitwiseNot
    ||| c == '!' && op is LogicalNot
}

/// The text of a unary operator is the one character that stands for it.
pub proof fn law_unary_operator_text(op: UnaryOperator, r: Rendering)
    ensures
        op.text().len() == 1,
        unary_operator(op.text()[0], op),
        layout(op.doc(), r) == r.plain(op.text()),
{
    reveal_strlit("+");
    reveal_strlit("-");
    reveal_strlit("~");
    reveal_strlit("!");
}

/// The text of a unary assignment operator is `++` where it increments and `--` where it
/// decrements.
pub proof fn law_unary_assignment_operator_text(op: UnaryAssignmentOperator, r: Rendering)
    ensures
        (op is PrefixIncrement || op is PostfixIncrement) ==> op.text() == seq!['+', '+'],
        (op is PrefixDecrement || op is PostfixDecrement) ==> op.text() == seq!['-', '-'],
        layout(op.doc(), r) == r.plain(op.text()),
{
    reveal_strlit("++");
    reveal_strlit("--");
    assert("++"@ =~= seq!['+', '+']);
    assert("--"@ =~= seq!['-', '-']);
}

/// A test expression shows its parts in order, with the operator that joins them.
pub proof fn law_test_expr_text(expr: TestExpr, r: Rendering)
    ensures
        layout(expr.doc(), r) == match expr {
            TestExpr::False => r,
            TestExpr::Literal(s) => r.plain(s@),
            TestExpr::And(left, right) => layout(right.doc(), layout(left.doc(), r).plain(" -a "@)),
            TestExpr::Or(left, right) => layout(right.doc(), layout(left.doc(), r).plain(" -o "@)),
            TestExpr::Not(inner) => layout(inner.doc(), r.plain("! "@)),
            TestExpr::Parenthesized(inner) => layout(inner.doc(), r.plain("( "@)).plain(" )"@),
            TestExpr::UnaryTest(p, word) => r.plain(p.text()).plain(" "@).plain(word@),
            TestExpr::BinaryTest(p, left, right) => r.plain(p.text()).plain(" "@).plain(
                left@,
            ).plain(" "@).plain(right@),
        },
{
    assert(unfolded(expr.doc()));
}

/// An extended test expression shows its parts in order, with the operator that joins them; a
/// binary predicate stands between its operands.
pub proof fn law_extended_test_expr_text(expr: ExtendedTestExpr, r: Rendering)
    ensures
        layout(expr.doc(), r) == match expr {
            ExtendedTestExpr::And(left, right) => layout(
                right.doc(),
                layout(left.doc(), r).plain(" && "@),
            ),
            ExtendedTestExpr::Or(left, right) => layout(
                right.doc(),
                layout(left.doc(), r).plain(" || "@),
            ),
            ExtendedTestExpr::Not(inner) => layout(inner.doc(), r.plain("! "@)),
            ExtendedTestExpr::Parenthesized(inner) => layout(
                inner.doc(),
                r.plain("( "@),
            ).plain(" )"@),
            ExtendedTestExpr::UnaryTest(p, word) => r.plain(p.text()).plain(" "@).verbatim(
                word.value@,
            ),
            ExtendedTestExpr::BinaryTest(p, left, right) => r.verbatim(left.value@).plain(
                " "@,
            ).plain(p.text()).plain(" "@).verbatim(right.value@),
        },
{
    assert(unfolded(expr.doc()));
}

/// A test command is printed as its expression, and unexpanded arithmetic as it is.
pub proof fn law_whole_expr_text(
    command: ExtendedTestExprCommand,
    arithmetic: UnexpandedArithmeticExpr,
    r: Rendering,
)
    ensures
        layout(command.doc(), r) == layout(command.expr.doc(), r),
        layout(arithmetic.doc(), r) == r.plain(arithmetic.value@),
{
}

/// An arithmetic expression shows its parts in order, with the operator that joins them. A comma
/// follows its left operand directly; an operator that increments or decrements stands on the
/// side of its target that it is named after.
pub proof fn law_arithmetic_expr_text(expr: ArithmeticExpr, r: Rendering)
    ensures
        layout(expr.doc(), r) == match expr {
            ArithmeticExpr::Literal(n) => r.plain(decimal(n as int)),
            ArithmeticExpr::Reference(target) => layout(target.doc(), r),
            ArithmeticExpr::UnaryOp(op, operand) => layout(operand.doc(), r.plain(op.text())),
            ArithmeticExpr::BinaryOp(op, left, right) => layout(
                right.doc(),
                (if op == BinaryOperator::Comma {
                    layout(left.doc(), r)
                } else {
                    layout(left.doc(), r).plain(" "@)
                }).plain(op.text()).plain(" "@),
            ),
            ArithmeticExpr::Conditional(condition, if_branch, else_branch) => layout(
                else_branch.doc(),
                layout(if_branch.doc(), layout(condition.doc(), r).plain(" ? "@)).plain(" : "@),
            ),
            ArithmeticExpr::Assignment(target, value) => layout(
                value.doc(),
                layout(target.doc(), r).plain(" = "@),
            ),
            ArithmeticExpr::BinaryAssignment(op, target, operand) => layout(
                operand.doc(),
                layout(target.doc(), r).plain(" "@).plain(op.text()).plain("= "@),
            ),
            ArithmeticExpr::UnaryAssignment(op, target) => match op {
                UnaryAssignmentOperator::PrefixIncrement => layout(target.doc(), r.plain("++"@)),
                UnaryAssignmentOperator::PrefixDecrement => layout(target.doc(), r.plain("--"@)),
                UnaryAssignmentOperator::PostfixIncrement => layout(target.doc(), r).plain("++"@),
                UnaryAssignmentOperator::PostfixDecrement => layout(target.doc(), r).plain("--"@),
            },
        },
{
    assert(unfolded(expr.doc()));
}

/// A target is its name, with the index in brackets where it is an array element.
pub proof fn law_arithmetic_target_text(target: ArithmeticTarget, r: Rendering)
    ensures
        layout(target.doc(), r) == match target {
            ArithmeticTarget::Variable(name) => r.plain(name@),
            ArithmeticTarget::ArrayElement(name, index) => layout(
                index.doc(),
                r.plain(name@).plain("["@),
            ).plain("]"@),
        },
{
    assert(unfolded(target.doc()));
}

/// The number of a file descriptor, if there is one, directly before an operator.
pub open spec fn numbered(fd: Option<IoFd>, operator: Seq<char>, r: Rendering) -> Rendering {
    match fd {
        Some(n) => r.plain(decimal(n as int)).plain(operator),
        None => r.plain(operator),
    }
}

/// What a redirection to a file is written as.
pub open spec fn file_operator(text: Seq<char>, kind: IoFileRedirectKind) -> bool {
    ||| text == seq!['<'] && kind is Read
    ||| text == seq!['>'] && kind is Write
    ||| text == seq!['>', '>'] && kind is Append
    ||| text == seq!['<', '>'] && kind is ReadAndWrite
    ||| text == seq!['>', '|'] && kind is Clobber
    ||| text == seq!['<', '&'] && kind is DuplicateInput
    ||| text == seq!['>', '&'] && kind is DuplicateOutput
}

/// A redirection to a file is its descriptor, its operator and its target, with a space before the
/// target unless a descriptor is duplicated.
pub proof fn law_file_redirection_text(
    fd: Option<IoFd>,
    kind: IoFileRedirectKind,
    target: IoFileRedirectTarget,
    r: Rendering,
)
    ensures
        file_operator(kind.text(), kind),
        layout(kind.doc(), r) == r.plain(kind.text()),
        layout(IoRedirect::File(fd, kind, target).doc(), r) == layout(
            target.doc(),
            if kind is DuplicateInput || kind is DuplicateOutput {
                numbered(fd, kind.text(), r)
            } else {
                numbered(fd, kind.text(), r).plain(" "@)
            },
        ),
{
    reveal_strlit("<");
    assert("<"@ =~= seq!['<']);
    reveal_strlit(">");
    assert(">"@ =~= seq!['>']);
    reveal_strlit(">>");
    assert(">>"@ =~= seq!['>', '>']);
    reveal_strlit("<>");
    assert("<>"@ =~= seq!['<', '>']);
    reveal_strlit(">|");
    assert(">|"@ =~= seq!['>', '|']);
    reveal_strlit("<&");
    assert("<&"@ =~= seq!['<', '&']);
    reveal_strlit(">&");
    assert(">&"@ =~= seq!['>', '&']);
    reveal_strlit("");
    assert(""@ =~= Seq::empty());
    let redirect = IoRedirect::File(fd, kind, target);
    assert(redirect.doc() == fd_doc(fd) + kind.doc() + plain(kind.separator()) + target.doc());
    assert(unfolded(redirect.doc()));
}

/// The target of a redirection is a word, a number, or a process substitution, which is its
/// operator and its list in parentheses.
pub proof fn law_redirection_target_text(
    word: Word,
    fd: IoFd,
    kind: ProcessSubstitutionKind,
    command: SubshellCommand,
    r: Rendering,
)
    ensures
        layout(IoFileRedirectTarget::Filename(word).doc(), r) == r.verbatim(word.value@),
        layout(IoFileRedirectTarget::Duplicate(word).doc(), r) == r.verbatim(word.value@),
        layout(IoFileRedirectTarget::Fd(fd).doc(), r) == r.plain(decimal(fd as int)),
        layout(IoFileRedirectTarget::ProcessSubstitution(kind, command).doc(), r) == layout(
            command.list.doc(),
            layout(kind.doc(), r).plain("("@),
        ).plain(")"@),
        kind is Read ==> layout(kind.doc(), r) == r.plain("<"@),
        kind is Write ==> layout(kind.doc(), r) == r.plain(">"@),
{
    let target = IoFileRedirectTarget::ProcessSubstitution(kind, command);
    assert(target.doc() == kind.doc() + plain("("@) + command.list.doc() + plain(")"@));
    assert(unfolded(target.doc()));
}

/// A redirection of both outputs is `&>`, or `&>>` where it appends, and its target; a here-string
/// is its descriptor, `<<<` and its word.
pub proof fn law_word_redirection_text(word: Word, append: bool, fd: Option<IoFd>, r: Rendering)
    ensures
        layout(IoRedirect::OutputAndError(word, append).doc(), r) == r.plain(
            if append {
                "&>> "@
            } else {
                "&> "@
            },
        ).verbatim(word.value@),
        layout(IoRedirect::HereString(fd, word).doc(), r) == numbered(fd, "<<< "@, r).verbatim(
            word.value@,
        ),
{
    reveal(Rendering::plain);
    reveal_strlit("&>");
    reveal_strlit(">");
    reveal_strlit(" ");
    reveal_strlit("&>> ");
    reveal_strlit("&> ");
    let a = IoRedirect::OutputAndError(word, append);
    assert(a.doc() == plain("&>"@) + (if append {
        plain(">"@)
    } else {
        nothing()
    }) + plain(" "@) + word.doc());
    assert(unfolded(a.doc()));
    let head = r.plain("&>"@);
    assert((if append {
        head.plain(">"@)
    } else {
        head
    }).plain(" "@).text =~= r.plain(
        if append {
            "&>> "@
        } else {
            "&> "@
        },
    ).text);
    let b = IoRedirect::HereString(fd, word);
    assert(b.doc() == fd_doc(fd) + plain("<<< "@) + word.doc());
    assert(unfolded(b.doc()));
}

/// What stands on the command line of a here-document: the descriptor if there is one, `<<`, a `-`
/// just where tabs are removed, and then the delimiter word in full, verbatim. The body and the
/// terminator, which is the same word, wait for the end of the line.
pub proof fn law_here_document_on_its_line(
    fd: Option<IoFd>,
    document: IoHereDocument,
    r: Rendering,
)
    ensures
        ({
            let operator = if document.remove_tabs {
                "<<-"@
            } else {
                "<<"@
            };
            let after = layout(IoRedirect::HereDocument(fd, document).doc(), r);
            &&& after.text == numbered(fd, operator, r).verbatim(document.here_end.value@).text
            &&& after.pending == r.pending.push(document.lines() + "\n"@)
        }),
{
    reveal(Rendering::plain);
    reveal(Rendering::verbatim);
    reveal(Rendering::deferred);
    reveal_strlit("<<");
    reveal_strlit("-");
    reveal_strlit("<<-");
    let redirect = IoRedirect::HereDocument(fd, document);
    assert(redirect.doc() == fd_doc(fd) + plain("<<"@) + document.doc() + here_doc(
        document.lines(),
    ));
    assert(unfolded(redirect.doc()));
    assert(unfolded(document.doc()));
    law_word_text(document.here_end, r);
    let operator = if document.remove_tabs {
        "<<-"@
    } else {
        "<<"@
    };
    assert(layout(redirect.doc(), r).text =~= numbered(fd, operator, r).verbatim(
        document.here_end.value@,
    ).text);
}

/// The text of a here-document redirection ends with `<<`, a `-` just where tabs are removed, and
/// the delimiter word, and so do the lines that wait for the end of the line end with that word.
pub proof fn law_here_document_tag(fd: Option<IoFd>, document: IoHereDocument)
    ensures
        printed(IoRedirect::HereDocument(fd, document).doc()) == (match fd {
            Some(n) => decimal(n as int),
            None => Seq::empty(),
        }) + (if document.remove_tabs {
            "<<-"@
        } else {
            "<<"@
        }) + document.here_end.value@,
        document.here_end.value@.is_suffix_of(document.lines()),
        printed(document.doc()) == (if document.remove_tabs {
            "-"@
        } else {
            Seq::empty()
        }) + document.here_end.value@,
{
    reveal(Rendering::plain);
    reveal(Rendering::verbatim);
    let r = Rendering::empty();
    law_here_document_on_its_line(fd, document, r);
    let tag = document.here_end.value@;
    let operator = if document.remove_tabs {
        "<<-"@
    } else {
        "<<"@
    };
    assert(printed(IoRedirect::HereDocument(fd, document).doc()) =~= (match fd {
        Some(n) => decimal(n as int),
        None => Seq::empty(),
    }) + operator + tag);
    let lines = document.lines();
    assert(lines.subrange(lines.len() - tag.len(), lines.len() as int) =~= tag);
    assert(unfolded(document.doc()));
    law_word_text(document.here_end, r);
    assert(printed(document.doc()) =~= (if document.remove_tabs {
        "-"@
    } else {
        Seq::empty()
    }) + tag);
}

/// Of two here-documents that differ in whether their contents are expanded alone, the texts are
/// the same, on the line and after it.
pub proof fn law_expansion_not_shown(
    fd: Option<IoFd>,
    a: IoHereDocument,
    b: IoHereDocument,
    r: Rendering,
)
    requires
        a.remove_tabs == b.remove_tabs,
        a.here_end == b.here_end,
        a.doc == b.doc,
    ensures
        layout(IoRedirect::HereDocument(fd, a).doc(), r) == layout(
            IoRedirect::HereDocument(fd, b).doc(),
            r,
        ),
{
    law_here_document_on_its_line(fd, a, r);
    law_here_document_on_its_line(fd, b, r);
}

/// An assignment is its name, `=` or `+=` as it appends or not, and its value.
pub proof fn law_assignment_text(assignment: Assignment, r: Rendering)
    ensures
        layout(assignment.doc(), r) == layout(
            assignment.value.doc(),
            layout(assignment.name.doc(), r).plain(
                if assignment.append {
                    "+="@
                } else {
                    "="@
                },
            ),
        ),
        layout(assignment.name.doc(), r) == match assignment.name {
            AssignmentName::VariableName(name) => r.plain(name@),
            AssignmentName::ArrayElementName(name, index) => r.plain(name@).plain("["@).plain(
                index@,
            ).plain("]"@),
        },
{
    reveal(Rendering::plain);
    reveal_strlit("+");
    reveal_strlit("=");
    reveal_strlit("+=");
    assert(unfolded(assignment.doc()));
    assert(unfolded(assignment.name.doc()));
    let named = layout(assignment.name.doc(), r);
    assert(named.plain("+"@).plain("="@).text =~= named.plain("+="@).text);
}

/// Of two array values that differ in a last element alone, the longer one goes on with that
/// element, after a space where it is not the first, and with its key in brackets where it has
/// one; the parenthesis that ends the value comes last.
pub proof fn law_array_one_more(
    array: Vec<(Option<Word>, Word)>,
    longer: Vec<(Option<Word>, Word)>,
    element: (Option<Word>, Word),
    r: Rendering,
) -> (before: Rendering)
    requires
        longer@ == array@.push(element),
    ensures
        array@.len() == 0 ==> before == r.plain("("@),
        layout(AssignmentValue::Array(array).doc(), r) == before.plain(")"@),
        layout(AssignmentValue::Array(longer).doc(), r) == ({
            let next = if array@.len() == 0 {
                before
            } else {
                before.plain(" "@)
            };
            (match element.0 {
                Some(key) => next.plain("["@).verbatim(key.value@).plain("]="@),
                None => next,
            }).verbatim(element.1.value@).plain(")"@)
        }),
{
    let n = array@.len() as int;
    let a = AssignmentValue::Array(array);
    let b = AssignmentValue::Array(longer);
    lemma_elements_prefix(array@, longer@, n);
    assert(elements_doc(longer@, n + 1) == elements_doc(longer@, n) + (if n + 1 > 1 {
        plain(" "@)
    } else {
        nothing()
    }) + element_doc(longer@[n]));
    assert(longer@[n] == element);
    assert(unfolded(a.doc()));
    assert(unfolded(b.doc()));
    assert(unfolded(elements_doc(longer@, n + 1)));
    assert(unfolded(element_doc(element)));
    layout(elements_doc(array@, n), r.plain("("@))
}

proof fn lemma_elements_prefix(
    a: Seq<(Option<Word>, Word)>,
    b: Seq<(Option<Word>, Word)>,
    n: int,
)
    requires
        n <= a.len() <= b.len(),
        forall|i: int| 0 <= i < a.len() ==> #[trigger] a[i] == b[i],
    ensures
        elements_doc(a, n) == elements_doc(b, n),
    decreases n,
{
    if n > 0 {
        lemma_elements_prefix(a, b, n - 1);
        assert(a[n - 1] == b[n - 1]);
    }
}

/// A scalar value is its word.
pub proof fn law_scalar_text(word: Word, r: Rendering)
    ensures
        layout(AssignmentValue::Scalar(word).doc(), r) == r.verbatim(word.value@),
{
}

} // verus!
