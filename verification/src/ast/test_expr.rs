//! Test expressions.

use vstd::prelude::*;

use super::{Node, SourceLocation, Word};
use crate::layout::{group_layout, nothing, plain, unfolded, Doc};
use crate::render::{Display, Formatter};
use crate::source::SourceSpan;

verus! {

broadcast use group_layout;

/// A (non-extended) test expression.
#[derive(Debug, PartialEq, Eq)]
pub enum TestExpr {
    /// Always evaluates to false.
    False,
    /// A literal string.
    Literal(String),
    /// Logical AND operation on two nested expressions.
    And(Box<TestExpr>, Box<TestExpr>),
    /// Logical OR operation on two nested expressions.
    Or(Box<TestExpr>, Box<TestExpr>),
    /// Logical NOT operation on a nested expression.
    Not(Box<TestExpr>),
    /// A parenthesized expression.
    Parenthesized(Box<TestExpr>),
    /// A unary test operation.
    UnaryTest(UnaryPredicate, String),
    /// A binary test operation.
    BinaryTest(BinaryPredicate, String, String),
}

/// An extended test expression.
#[derive(Debug, PartialEq, Eq)]
pub enum ExtendedTestExpr {
    /// Logical AND operation on two nested expressions.
    And(Box<ExtendedTestExpr>, Box<ExtendedTestExpr>),
    /// Logical OR operation on two nested expressions.
    Or(Box<ExtendedTestExpr>, Box<ExtendedTestExpr>),
    /// Logical NOT operation on a nested expression.
    Not(Box<ExtendedTestExpr>),
    /// A parenthesized expression.
    Parenthesized(Box<ExtendedTestExpr>),
    /// A unary test operation.
    UnaryTest(UnaryPredicate, Word),
    /// A binary test operation.
    BinaryTest(BinaryPredicate, Word, Word),
}

/// An extended test expression command.
#[derive(Debug, PartialEq, Eq)]
pub struct ExtendedTestExprCommand {
    /// The extended test expression
    pub expr: ExtendedTestExpr,
    /// Location of the expression
    pub loc: SourceSpan,
}

/// A unary predicate usable in an extended test expression.
#[derive(Clone, Copy, Debug, PartialEq, Eq)]
pub enum UnaryPredicate {
    /// Computes if the operand is a path to an existing file.
    FileExists,
    /// Computes if the operand is a path to an existing block device file.
    FileExistsAndIsBlockSpecialFile,
    /// Computes if the operand is a path to an existing character device file.
    FileExistsAndIsCharSpecialFile,
    /// Computes if the operand is a path to an existing directory.
    FileExistsAndIsDir,
    /// Computes if the operand is a path to an existing regular file.
    FileExistsAndIsRegularFile,
    /// Computes if the operand is a path to an existing file with the setgid bit set.
    FileExistsAndIsSetgid,
    /// Computes if the operand is a path to an existing symbolic link.
    FileExistsAndIsSymlink,
    /// Computes if the operand is a path to an existing file with the sticky bit set.
    FileExistsAndHasStickyBit,
    /// Computes if the operand is a path to an existing FIFO file.
    FileExistsAndIsFifo,
    /// Computes if the operand is a path to an existing file that is readable.
    FileExistsAndIsReadable,
    /// Computes if the operand is a path to an existing file with a non-zero length.
    FileExistsAndIsNotZeroLength,
    /// Computes if the operand is a file descriptor that is an open terminal.
    FdIsOpenTerminal,
    /// Computes if the operand is a path to an existing file with the setuid bit set.
    FileExistsAndIsSetuid,
    /// Computes if the operand is a path to an existing file that is writable.
    FileExistsAndIsWritable,
    /// Computes if the operand is a path to an existing file that is executable.
    FileExistsAndIsExecutable,
    /// Computes if the operand is a path to an existing file owned by the current context's
    /// effective group ID.
    FileExistsAndOwnedByEffectiveGroupId,
    /// Computes if the operand is a path to an existing file that has been modified since last
    /// being read.
    FileExistsAndModifiedSinceLastRead,
    /// Computes if the operand is a path to an existing file owned by the current context's
    /// effective user ID.
    FileExistsAndOwnedByEffectiveUserId,
    /// Computes if the operand is a path to an existing socket file.
    FileExistsAndIsSocket,
    /// Computes if the operand is a 'set -o' option that is enabled.
    ShellOptionEnabled,
    /// Computes if the operand names a shell variable that is set and assigned a value.
    ShellVariableIsSetAndAssigned,
    /// Computes if the operand names a shell variable that is set and of nameref type.
    ShellVariableIsSetAndNameRef,
    /// Computes if the operand is a string with zero length.
    StringHasZeroLength,
    /// Computes if the operand is a string with non-zero length.
    StringHasNonZeroLength,
}

/// A binary predicate usable in an extended test expression.
#[derive(Clone, Copy, Debug, PartialEq, Eq)]
pub enum BinaryPredicate {
    /// Computes if two files refer to the same device and inode numbers.
    FilesReferToSameDeviceAndInodeNumbers,
    /// Computes if the left file is newer than the right, or exists when the right does not.
    LeftFileIsNewerOrExistsWhenRightDoesNot,
    /// Computes if the left file is older than the right, or does not exist when the right does.
    LeftFileIsOlderOrDoesNotExistWhenRightDoes,
    /// Computes if a string exactly matches a pattern.
    StringExactlyMatchesPattern,
    /// Computes if a string does not exactly match a pattern.
    StringDoesNotExactlyMatchPattern,
    /// Computes if a string matches a regular expression.
    StringMatchesRegex,
    /// Computes if a string exactly matches another string.
    StringExactlyMatchesString,
    /// Computes if a string does not exactly match another string.
    StringDoesNotExactlyMatchString,
    /// Computes if a string contains a substring.
    StringContainsSubstring,
    /// Computes if the left value sorts before the right.
    LeftSortsBeforeRight,
    /// Computes if the left value sorts after the right.
    LeftSortsAfterRight,
    /// Computes if two values are equal via arithmetic comparison.
    ArithmeticEqualTo,
    /// Computes if two values are not equal via arithmetic comparison.
    ArithmeticNotEqualTo,
    /// Computes if the left value is less than the right via arithmetic comparison.
    ArithmeticLessThan,
    /// Computes if the left value is less than or equal to the right via arithmetic comparison.
    ArithmeticLessThanOrEqualTo,
    /// Computes if the left value is greater than the right via arithmetic comparison.
    ArithmeticGreaterThan,
    /// Computes if the left value is greater than or equal to the right via arithmetic comparison.
    ArithmeticGreaterThanOrEqualTo,
}

impl Clone for TestExpr {
    fn clone(&self) -> (copy: TestExpr)
        ensures
            copy == *self,
        decreases self,
    {
        match self {
            TestExpr::False => TestExpr::False,
            TestExpr::Literal(s) => TestExpr::Literal(s.clone()),
            TestExpr::And(a, b) => TestExpr::And(Box::new((**a).clone()), Box::new((**b).clone())),
            TestExpr::Or(a, b) => TestExpr::Or(Box::new((**a).clone()), Box::new((**b).clone())),
            TestExpr::Not(a) => TestExpr::Not(Box::new((**a).clone())),
            TestExpr::Parenthesized(a) => TestExpr::Parenthesized(Box::new((**a).clone())),
            TestExpr::UnaryTest(p, a) => TestExpr::UnaryTest(*p, a.clone()),
            TestExpr::BinaryTest(p, a, b) => TestExpr::BinaryTest(*p, a.clone(), b.clone()),
        }
    }
}

impl Node for TestExpr {

}

impl SourceLocation for TestExpr {
    open spec fn span(&self) -> Option<SourceSpan> {
        None
    }

    fn location(&self) -> (r: Option<SourceSpan>) {
        None
    }
}

impl Display for TestExpr {
    open spec fn doc(&self) -> Doc
        decreases self,
    {
        match self {
            TestExpr::False => nothing(),
            TestExpr::Literal(s) => plain(s@),
            TestExpr::And(left, right) => left.doc() + plain(" -a "@) + right.doc(),
            TestExpr::Or(left, right) => left.doc() + plain(" -o "@) + right.doc(),
            TestExpr::Not(expr) => plain("! "@) + expr.doc(),
            TestExpr::Parenthesized(expr) => plain("( "@) + expr.doc() + plain(" )"@),
            TestExpr::UnaryTest(pred, word) => pred.doc() + plain(" "@) + plain(word@),
            TestExpr::BinaryTest(pred, left, right) => pred.doc() + plain(" "@) + plain(left@)
                + plain(" "@) + plain(right@),
        }
    }

    fn fmt(&self, f: &mut Formatter)
        decreases self,
    {
        assert(unfolded(self.doc()));
        match self {
            TestExpr::False => {},
            TestExpr::Literal(s) => f.write_str(s.as_str()),
            TestExpr::And(left, right) => {
                left.fmt(f);
                f.write_str(" -a ");
                right.fmt(f);
            },
            TestExpr::Or(left, right) => {
                left.fmt(f);
                f.write_str(" -o ");
                right.fmt(f);
            },
            TestExpr::Not(expr) => {
                f.write_str("! ");
                expr.fmt(f);
            },
            TestExpr::Parenthesized(expr) => {
                f.write_str("( ");
                expr.fmt(f);
                f.write_str(" )");
            },
            TestExpr::UnaryTest(pred, word) => {
                pred.fmt(f);
                f.write_str(" ");
                f.write_str(word.as_str());
            },
            TestExpr::BinaryTest(pred, left, right) => {
                pred.fmt(f);
                f.write_str(" ");
                f.write_str(left.as_str());
                f.write_str(" ");
                f.write_str(right.as_str());
            },
        }
    }
}

impl Clone for ExtendedTestExpr {
    fn clone(&self) -> (copy: ExtendedTestExpr)
        ensures
            copy == *self,
        decreases self,
    {
        match self {
            ExtendedTestExpr::And(a, b) => ExtendedTestExpr::And(
                Box::new((**a).clone()),
                Box::new((**b).clone()),
            ),
            ExtendedTestExpr::Or(a, b) => ExtendedTestExpr::Or(
                Box::new((**a).clone()),
                Box::new((**b).clone()),
            ),
            ExtendedTestExpr::Not(a) => ExtendedTestExpr::Not(Box::new((**a).clone())),
            ExtendedTestExpr::Parenthesized(a) => {
                ExtendedTestExpr::Parenthesized(Box::new((**a).clone()))
            },
            ExtendedTestExpr::UnaryTest(p, a) => ExtendedTestExpr::UnaryTest(*p, a.clone()),
            ExtendedTestExpr::BinaryTest(p, a, b) => ExtendedTestExpr::BinaryTest(
                *p,
                a.clone(),
                b.clone(),
            ),
        }
    }
}

impl Display for ExtendedTestExpr {
    open spec fn doc(&self) -> Doc
        decreases self,
    {
        match self {
            ExtendedTestExpr::And(left, right) => left.doc() + plain(" && "@) + right.doc(),
            ExtendedTestExpr::Or(left, right) => left.doc() + plain(" || "@) + right.doc(),
            ExtendedTestExpr::Not(expr) => plain("! "@) + expr.doc(),
            ExtendedTestExpr::Parenthesized(expr) => plain("( "@) + expr.doc() + plain(" )"@),
            ExtendedTestExpr::UnaryTest(pred, word) => pred.doc() + plain(" "@) + word.doc(),
            ExtendedTestExpr::BinaryTest(pred, left, right) => left.doc() + plain(" "@)
                + pred.doc() + plain(" "@) + right.doc(),
        }
    }

    fn fmt(&self, f: &mut Formatter)
        decreases self,
    {
        assert(unfolded(self.doc()));
        match self {
            ExtendedTestExpr::And(left, right) => {
                left.fmt(f);
                f.write_str(" && ");
                right.fmt(f);
            },
            ExtendedTestExpr::Or(left, right) => {
                left.fmt(f);
                f.write_str(" || ");
                right.fmt(f);
            },
            ExtendedTestExpr::Not(expr) => {
                f.write_str("! ");
                expr.fmt(f);
            },
            ExtendedTestExpr::Parenthesized(expr) => {
                f.write_str("( ");
                expr.fmt(f);
                f.write_str(" )");
            },
            ExtendedTestExpr::UnaryTest(pred, word) => {
                pred.fmt(f);
                f.write_str(" ");
                word.fmt(f);
            },
            ExtendedTestExpr::BinaryTest(pred, left, right) => {
                left.fmt(f);
                f.write_str(" ");
                pred.fmt(f);
                f.write_str(" ");
                right.fmt(f);
            },
        }
    }
}

impl Clone for ExtendedTestExprCommand {
    fn clone(&self) -> (copy: ExtendedTestExprCommand)
        ensures
            copy == *self,
    {
        ExtendedTestExprCommand { expr: self.expr.clone(), loc: self.loc.clone() }
    }
}

impl Node for ExtendedTestExprCommand {

}

impl SourceLocation for ExtendedTestExprCommand {
    open spec fn span(&self) -> Option<SourceSpan> {
        Some(self.loc)
    }

    fn location(&self) -> (r: Option<SourceSpan>) {
        Some(self.loc.clone())
    }
}

impl Display for ExtendedTestExprCommand {
    open spec fn doc(&self) -> Doc {
        self.expr.doc()
    }

    fn fmt(&self, f: &mut Formatter) {
        self.expr.fmt(f);
    }
}

impl UnaryPredicate {
    /// The operator, as written before its operand.
    pub open spec fn text(&self) -> Seq<char> {
        match self {
            UnaryPredicate::FileExists => "-e"@,
            UnaryPredicate::FileExistsAndIsBlockSpecialFile => "-b"@,
            UnaryPredicate::FileExistsAndIsCharSpecialFile => "-c"@,
            UnaryPredicate::FileExistsAndIsDir => "-d"@,
            UnaryPredicate::FileExistsAndIsRegularFile => "-f"@,
            UnaryPredicate::FileExistsAndIsSetgid => "-g"@,
            UnaryPredicate::FileExistsAndIsSymlink => "-h"@,
            UnaryPredicate::FileExistsAndHasStickyBit => "-k"@,
            UnaryPredicate::FileExistsAndIsFifo => "-p"@,
            UnaryPredicate::FileExistsAndIsReadable => "-r"@,
            UnaryPredicate::FileExistsAndIsNotZeroLength => "-s"@,
            UnaryPredicate::FdIsOpenTerminal => "-t"@,
            UnaryPredicate::FileExistsAndIsSetuid => "-u"@,
            UnaryPredicate::FileExistsAndIsWritable => "-w"@,
            UnaryPredicate::FileExistsAndIsExecutable => "-x"@,
            UnaryPredicate::FileExistsAndOwnedByEffectiveGroupId => "-G"@,
            UnaryPredicate::FileExistsAndModifiedSinceLastRead => "-N"@,
            UnaryPredicate::FileExistsAndOwnedByEffectiveUserId => "-O"@,
            UnaryPredicate::FileExistsAndIsSocket => "-S"@,
            UnaryPredicate::ShellOptionEnabled => "-o"@,
            UnaryPredicate::ShellVariableIsSetAndAssigned => "-v"@,
            UnaryPredicate::ShellVariableIsSetAndNameRef => "-R"@,
            UnaryPredicate::StringHasZeroLength => "-z"@,
            UnaryPredicate::StringHasNonZeroLength => "-n"@,
        }
    }
}

impl Display for UnaryPredicate {
    open spec fn doc(&self) -> Doc {
        plain(self.text())
    }

    fn fmt(&self, f: &mut Formatter) {
        match self {
            UnaryPredicate::FileExists => f.write_str("-e"),
            UnaryPredicate::FileExistsAndIsBlockSpecialFile => f.write_str("-b"),
            UnaryPredicate::FileExistsAndIsCharSpecialFile => f.write_str("-c"),
            UnaryPredicate::FileExistsAndIsDir => f.write_str("-d"),
            UnaryPredicate::FileExistsAndIsRegularFile => f.write_str("-f"),
            UnaryPredicate::FileExistsAndIsSetgid => f.write_str("-g"),
            UnaryPredicate::FileExistsAndIsSymlink => f.write_str("-h"),
            UnaryPredicate::FileExistsAndHasStickyBit => f.write_str("-k"),
            UnaryPredicate::FileExistsAndIsFifo => f.write_str("-p"),
            UnaryPredicate::FileExistsAndIsReadable => f.write_str("-r"),
            UnaryPredicate::FileExistsAndIsNotZeroLength => f.write_str("-s"),
            UnaryPredicate::FdIsOpenTerminal => f.write_str("-t"),
            UnaryPredicate::FileExistsAndIsSetuid => f.write_str("-u"),
            UnaryPredicate::FileExistsAndIsWritable => f.write_str("-w"),
            UnaryPredicate::FileExistsAndIsExecutable => f.write_str("-x"),
            UnaryPredicate::FileExistsAndOwnedByEffectiveGroupId => f.write_str("-G"),
            UnaryPredicate::FileExistsAndModifiedSinceLastRead => f.write_str("-N"),
            UnaryPredicate::FileExistsAndOwnedByEffectiveUserId => f.write_str("-O"),
            UnaryPredicate::FileExistsAndIsSocket => f.write_str("-S"),
            UnaryPredicate::ShellOptionEnabled => f.write_str("-o"),
            UnaryPredicate::ShellVariableIsSetAndAssigned => f.write_str("-v"),
            UnaryPredicate::ShellVariableIsSetAndNameRef => f.write_str("-R"),
            UnaryPredicate::StringHasZeroLength => f.write_str("-z"),
            UnaryPredicate::StringHasNonZeroLength => f.write_str("-n"),
        }
    }
}

impl BinaryPredicate {
    /// The operator, as written between its operands.
    pub open spec fn text(&self) -> Seq<char> {
        match self {
            BinaryPredicate::FilesReferToSameDeviceAndInodeNumbers => "-ef"@,
            BinaryPredicate::LeftFileIsNewerOrExistsWhenRightDoesNot => "-nt"@,
            BinaryPredicate::LeftFileIsOlderOrDoesNotExistWhenRightDoes => "-ot"@,
            BinaryPredicate::StringExactlyMatchesPattern => "=="@,
            BinaryPredicate::StringDoesNotExactlyMatchPattern => "!="@,
            BinaryPredicate::StringMatchesRegex => "=~"@,
            BinaryPredicate::StringContainsSubstring => "=~"@,
            BinaryPredicate::StringExactlyMatchesString => "=="@,
            BinaryPredicate::StringDoesNotExactlyMatchString => "!="@,
            BinaryPredicate::LeftSortsBeforeRight => "<"@,
            BinaryPredicate::LeftSortsAfterRight => ">"@,
            BinaryPredicate::ArithmeticEqualTo => "-eq"@,
            BinaryPredicate::ArithmeticNotEqualTo => "-ne"@,
            BinaryPredicate::ArithmeticLessThan => "-lt"@,
            BinaryPredicate::ArithmeticLessThanOrEqualTo => "-le"@,
            BinaryPredicate::ArithmeticGreaterThan => "-gt"@,
            BinaryPredicate::ArithmeticGreaterThanOrEqualTo => "-ge"@,
        }
    }
}

impl Display for BinaryPredicate {
    open spec fn doc(&self) -> Doc {
        plain(self.text())
    }

    fn fmt(&self, f: &mut Formatter) {
        match self {
            BinaryPredicate::FilesReferToSameDeviceAndInodeNumbers => f.write_str("-ef"),
            BinaryPredicate::LeftFileIsNewerOrExistsWhenRightDoesNot => f.write_str("-nt"),
            BinaryPredicate::LeftFileIsOlderOrDoesNotExistWhenRightDoes => f.write_str("-ot"),
            BinaryPredicate::StringExactlyMatchesPattern => f.write_str("=="),
            BinaryPredicate::StringDoesNotExactlyMatchPattern => f.write_str("!="),
            BinaryPredicate::StringMatchesRegex => f.write_str("=~"),
            BinaryPredicate::StringContainsSubstring => f.write_str("=~"),
            BinaryPredicate::StringExactlyMatchesString => f.write_str("=="),
            BinaryPredicate::StringDoesNotExactlyMatchString => f.write_str("!="),
            BinaryPredicate::LeftSortsBeforeRight => f.write_str("<"),
            BinaryPredicate::LeftSortsAfterRight => f.write_str(">"),
            BinaryPredicate::ArithmeticEqualTo => f.write_str("-eq"),
            BinaryPredicate::ArithmeticNotEqualTo => f.write_str("-ne"),
            BinaryPredicate::ArithmeticLessThan => f.write_str("-lt"),
            BinaryPredicate::ArithmeticLessThanOrEqualTo => f.write_str("-le"),
            BinaryPredicate::ArithmeticGreaterThan => f.write_str("-gt"),
            BinaryPredicate::ArithmeticGreaterThanOrEqualTo => f.write_str("-ge"),
        }
    }
}

} // verus!
