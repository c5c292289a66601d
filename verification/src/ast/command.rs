//! Commands: the nodes of the syntax tree that hold one another.

use vstd::prelude::*;

use super::{ExtendedTestExprCommand, UnexpandedArithmeticExpr, Word};
use crate::source::SourceSpan;

verus! {

/// Represents a complete shell program.
#[derive(Debug, PartialEq, Eq)]
pub struct Program {
    /// A sequence of complete shell commands.
    pub complete_commands: Vec<CompleteCommand>,
}

/// Represents a complete shell command.
pub type CompleteCommand = CompoundList;

/// Represents a complete shell command item.
pub type CompleteCommandItem = CompoundListItem;

/// Indicates whether the preceding command is executed synchronously or asynchronously.
#[derive(Clone, Copy, Debug, PartialEq, Eq)]
pub enum SeparatorOperator {
    /// The preceding command is executed asynchronously.
    Async,
    /// The preceding command is executed synchronously.
    Sequence,
}

/// Represents a sequence of command pipelines connected by boolean operators.
#[derive(Debug, PartialEq, Eq)]
pub struct AndOrList {
    /// The first command pipeline.
    pub first: Pipeline,
    /// Any additional command pipelines, in sequence order.
    pub additional: Vec<AndOr>,
}

/// Represents a boolean operator used to connect command pipelines, along with the
/// succeeding pipeline.
#[derive(Debug, PartialEq, Eq)]
pub enum AndOr {
    /// Boolean AND operator; the embedded pipeline is only to be executed if the
    /// preceding command has succeeded.
    And(Pipeline),
    /// Boolean OR operator; the embedded pipeline is only to be executed if the
    /// preceding command has not succeeded.
    Or(Pipeline),
}

/// The type of timing requested for a pipeline.
#[derive(Debug, PartialEq, Eq)]
pub enum PipelineTimed {
    /// The pipeline should be timed with bash-like output.
    Timed(SourceSpan),
    /// The pipeline should be timed with POSIX-like output.
    TimedWithPosixOutput(SourceSpan),
}

/// A pipeline of commands, where each command's output is passed as standard input
/// to the command that follows it.
#[derive(Debug, PartialEq, Eq)]
pub struct Pipeline {
    /// Indicates whether the pipeline's execution should be timed with reported
    /// timings in output.
    pub timed: Option<PipelineTimed>,
    /// Indicates whether the result of the overall pipeline should be the logical
    /// negation of the result of the pipeline.
    pub bang: bool,
    /// The sequence of commands in the pipeline.
    pub seq: Vec<Command>,
}

/// Represents a shell command.
#[derive(Debug, PartialEq, Eq)]
pub enum Command {
    /// A simple command, directly invoking an external command, a built-in command,
    /// a shell function, or similar.
    Simple(SimpleCommand),
    /// A compound command, composed of multiple commands.
    Compound(CompoundCommand, Option<RedirectList>),
    /// A command whose side effect is to define a shell function.
    Function(FunctionDefinition),
}

/// Represents a compound command, potentially made up of multiple nested commands.
#[derive(Debug, PartialEq, Eq)]
pub enum CompoundCommand {
    /// An arithmetic command, evaluating an arithmetic expression.
    Arithmetic(ArithmeticCommand),
    /// An arithmetic for clause, which loops until an arithmetic condition is reached.
    ArithmeticForClause(ArithmeticForClauseCommand),
    /// A brace group, which groups commands together.
    BraceGroup(BraceGroupCommand),
    /// A subshell, which executes commands in a subshell.
    Subshell(SubshellCommand),
    /// A for clause, which loops over a set of values.
    ForClause(ForClauseCommand),
    /// A case clause, which selects a command based on a value and a set of
    /// pattern-based filters.
    CaseClause(CaseClauseCommand),
    /// An if clause, which conditionally executes a command.
    IfClause(IfClauseCommand),
    /// A while clause, which loops while a condition is met.
    WhileClause(WhileOrUntilClauseCommand),
    /// An until clause, which loops until a condition is met.
    UntilClause(WhileOrUntilClauseCommand),
    /// A coprocess, which runs a command asynchronously in a subshell.
    Coprocess(CoprocessCommand),
    /// An extended test command, evaluating an extended test expression.
    ExtendedTest(ExtendedTestExprCommand),
}

/// An arithmetic command, evaluating an arithmetic expression.
#[derive(Debug, PartialEq, Eq)]
pub struct ArithmeticCommand {
    /// The raw, unparsed and unexpanded arithmetic expression.
    pub expr: UnexpandedArithmeticExpr,
    /// Location of the command
    pub loc: SourceSpan,
}

/// A subshell, which executes commands in a subshell.
#[derive(Debug, PartialEq, Eq)]
pub struct SubshellCommand {
    /// Command list in the subshell
    pub list: CompoundList,
    /// Location of the subshell
    pub loc: SourceSpan,
}

/// A for clause, which loops over a set of values.
#[derive(Debug, PartialEq, Eq)]
pub struct ForClauseCommand {
    /// The name of the iterator variable.
    pub variable_name: String,
    /// The values being iterated over.
    pub values: Option<Vec<Word>>,
    /// The command to run for each iteration of the loop.
    pub body: DoGroupCommand,
    /// Location of the for command.
    pub loc: SourceSpan,
}

/// An arithmetic for clause, which loops until an arithmetic condition is reached.
#[derive(Debug, PartialEq, Eq)]
pub struct ArithmeticForClauseCommand {
    /// Optionally, the initializer expression evaluated before the first iteration of the loop.
    pub initializer: Option<UnexpandedArithmeticExpr>,
    /// Optionally, the expression evaluated as the exit condition of the loop.
    pub condition: Option<UnexpandedArithmeticExpr>,
    /// Optionally, the expression evaluated after each iteration of the loop.
    pub updater: Option<UnexpandedArithmeticExpr>,
    /// The command to run for each iteration of the loop.
    pub body: DoGroupCommand,
    /// Location of the clause
    pub loc: SourceSpan,
}

/// A case clause, which selects a command based on a value and a set of
/// pattern-based filters.
#[derive(Debug, PartialEq, Eq)]
pub struct CaseClauseCommand {
    /// The value being matched on.
    pub value: Word,
    /// The individual case branches.
    pub cases: Vec<CaseItem>,
    /// Location of the case command.
    pub loc: SourceSpan,
}

/// A sequence of commands.
#[derive(Debug, PartialEq, Eq)]
pub struct CompoundList(pub Vec<CompoundListItem>);

/// An element of a compound command list.
#[derive(Debug, PartialEq, Eq)]
pub struct CompoundListItem(pub AndOrList, pub SeparatorOperator);

/// An if clause, which conditionally executes a command.
#[derive(Debug, PartialEq, Eq)]
pub struct IfClauseCommand {
    /// The command whose execution result is inspected.
    pub condition: CompoundList,
    /// The command to execute if the condition is true.
    pub then: CompoundList,
    /// Optionally, `else` clauses that will be evaluated if the condition is false.
    pub elses: Option<Vec<ElseClause>>,
    /// Location of the if clause
    pub loc: SourceSpan,
}

/// Represents the `else` clause of a conditional command.
#[derive(Debug, PartialEq, Eq)]
pub struct ElseClause {
    /// If present, the condition that must be met for this `else` clause to be executed.
    pub condition: Option<CompoundList>,
    /// The commands to execute if this `else` clause is selected.
    pub body: CompoundList,
}

/// A coprocess command, which runs a command asynchronously in a subshell.
#[derive(Debug, PartialEq, Eq)]
pub struct CoprocessCommand {
    /// The optional name for the coprocess.
    pub name: Option<Word>,
    /// The command to run as a coprocess (can be simple or compound).
    pub body: Box<Command>,
    /// The location of this command in the source.
    pub loc: SourceSpan,
}

/// An individual matching case item in a case clause.
#[derive(Debug, PartialEq, Eq)]
pub struct CaseItem {
    /// The patterns that select this case branch.
    pub patterns: Vec<Word>,
    /// The commands to execute if this case branch is selected.
    pub cmd: Option<CompoundList>,
    /// When the case branch is selected, the action to take after the command is executed.
    pub post_action: CaseItemPostAction,
    /// Location of the item
    pub loc: Option<SourceSpan>,
}

/// Describes the action to take after executing the body command of a case clause.
#[derive(Clone, Copy, Debug, PartialEq, Eq)]
pub enum CaseItemPostAction {
    /// The containing case should be exited.
    ExitCase,
    /// If one is present, the command body of the succeeding case item should be
    /// executed (without evaluating its pattern).
    UnconditionallyExecuteNextCaseItem,
    /// The case should continue evaluating the remaining case items, as if this
    /// item had not been executed.
    ContinueEvaluatingCases,
}

/// A while or until clause, whose looping is controlled by a condition.
#[derive(Debug, PartialEq, Eq)]
pub struct WhileOrUntilClauseCommand(pub CompoundList, pub DoGroupCommand, pub SourceSpan);

/// Encapsulates the definition of a shell function.
#[derive(Debug, PartialEq, Eq)]
pub struct FunctionDefinition {
    /// The name of the function.
    pub fname: Word,
    /// The body of the function.
    pub body: FunctionBody,
}

/// Encapsulates the body of a function definition.
#[derive(Debug, PartialEq, Eq)]
pub struct FunctionBody(pub CompoundCommand, pub Option<RedirectList>);

/// A brace group, which groups commands together.
#[derive(Debug, PartialEq, Eq)]
pub struct BraceGroupCommand {
    /// List of commands
    pub list: CompoundList,
    /// Location of the group
    pub loc: SourceSpan,
}

/// A do group, which groups commands together.
#[derive(Debug, PartialEq, Eq)]
pub struct DoGroupCommand {
    /// List of commands
    pub list: CompoundList,
    /// Location of the group
    pub loc: SourceSpan,
}

/// Represents the invocation of a simple command.
#[derive(Debug, PartialEq, Eq)]
pub struct SimpleCommand {
    /// Optionally, a prefix to the command.
    pub prefix: Option<CommandPrefix>,
    /// The name of the command to execute.
    pub word_or_name: Option<Word>,
    /// Optionally, a suffix to the command.
    pub suffix: Option<CommandSuffix>,
}

/// Represents a prefix to a simple command.
#[derive(Debug, PartialEq, Eq)]
pub struct CommandPrefix(pub Vec<CommandPrefixOrSuffixItem>);

/// Represents a suffix to a simple command; a word argument, declaration, or I/O redirection.
#[derive(Debug, PartialEq, Eq)]
pub struct CommandSuffix(pub Vec<CommandPrefixOrSuffixItem>);

/// Represents the I/O direction of a process substitution.
#[derive(Clone, Copy, Debug, PartialEq, Eq)]
pub enum ProcessSubstitutionKind {
    /// The process is read from.
    Read,
    /// The process is written to.
    Write,
}

/// A prefix or suffix for a simple command.
#[derive(Debug, PartialEq, Eq)]
pub enum CommandPrefixOrSuffixItem {
    /// An I/O redirection.
    IoRedirect(IoRedirect),
    /// A word.
    Word(Word),
    /// An assignment/declaration word.
    AssignmentWord(Assignment, Word),
    /// A process substitution.
    ProcessSubstitution(ProcessSubstitutionKind, SubshellCommand),
}

/// Encapsulates an assignment declaration.
#[derive(Debug, PartialEq, Eq)]
pub struct Assignment {
    /// Name being assigned to.
    pub name: AssignmentName,
    /// Value being assigned.
    pub value: AssignmentValue,
    /// Whether or not to append to the preexisting value associated with the named variable.
    pub append: bool,
    /// Location of the assignment
    pub loc: SourceSpan,
}

/// The target of an assignment.
#[derive(Debug, PartialEq, Eq)]
pub enum AssignmentName {
    /// A named variable.
    VariableName(String),
    /// An element in a named array.
    ArrayElementName(String, String),
}

/// A value being assigned to a variable.
#[derive(Debug, PartialEq, Eq)]
pub enum AssignmentValue {
    /// A scalar (word) value.
    Scalar(Word),
    /// An array of elements.
    Array(Vec<(Option<Word>, Word)>),
}

/// A list of I/O redirections to be applied to a command.
#[derive(Debug, PartialEq, Eq)]
pub struct RedirectList(pub Vec<IoRedirect>);

/// A file descriptor number.
pub type IoFd = i32;

/// An I/O redirection.
#[derive(Debug, PartialEq, Eq)]
pub enum IoRedirect {
    /// Redirection to a file.
    File(Option<IoFd>, IoFileRedirectKind, IoFileRedirectTarget),
    /// Redirection from a here-document.
    HereDocument(Option<IoFd>, IoHereDocument),
    /// Redirection from a here-string.
    HereString(Option<IoFd>, Word),
    /// Redirection of both standard output and standard error (with optional append).
    OutputAndError(Word, bool),
}

/// Kind of file I/O redirection.
#[derive(Clone, Copy, Debug, PartialEq, Eq)]
pub enum IoFileRedirectKind {
    /// Read (`<`).
    Read,
    /// Write (`>`).
    Write,
    /// Append (`>>`).
    Append,
    /// Read and write (`<>`).
    ReadAndWrite,
    /// Clobber (`>|`).
    Clobber,
    /// Duplicate input (`<&`).
    DuplicateInput,
    /// Duplicate output (`>&`).
    DuplicateOutput,
}

/// Target for an I/O file redirection.
#[derive(Debug, PartialEq, Eq)]
pub enum IoFileRedirectTarget {
    /// Path to a file.
    Filename(Word),
    /// File descriptor number.
    Fd(IoFd),
    /// Process substitution: substitution with the results of executing the given
    /// command in a subshell.
    ProcessSubstitution(ProcessSubstitutionKind, SubshellCommand),
    /// Item to duplicate in a word redirection. After expansion, this could be a
    /// filename, a file descriptor, or a file descriptor and a "-" to indicate
    /// requested closure.
    Duplicate(Word),
}

/// Represents an I/O here document.
#[derive(Debug, PartialEq, Eq)]
pub struct IoHereDocument {
    /// Whether to remove leading tabs from the here document.
    pub remove_tabs: bool,
    /// Whether to basic-expand the contents of the here document.
    pub requires_expansion: bool,
    /// The delimiter marking the end of the here document.
    pub here_end: Word,
    /// The contents of the here document.
    pub doc: Word,
}

impl Clone for PipelineTimed {
    fn clone(&self) -> (copy: PipelineTimed)
        ensures
            copy == *self,
    {
        match self {
            PipelineTimed::Timed(t) => PipelineTimed::Timed(t.clone()),
            PipelineTimed::TimedWithPosixOutput(t) => PipelineTimed::TimedWithPosixOutput(
                t.clone(),
            ),
        }
    }
}

impl Clone for ArithmeticCommand {
    fn clone(&self) -> (copy: ArithmeticCommand)
        ensures
            copy == *self,
    {
        ArithmeticCommand { expr: self.expr.clone(), loc: self.loc.clone() }
    }
}

impl Clone for AssignmentName {
    fn clone(&self) -> (copy: AssignmentName)
        ensures
            copy == *self,
    {
        match self {
            AssignmentName::VariableName(name) => AssignmentName::VariableName(name.clone()),
            AssignmentName::ArrayElementName(name, index) => AssignmentName::ArrayElementName(
                name.clone(),
                index.clone(),
            ),
        }
    }
}

impl Clone for IoHereDocument {
    fn clone(&self) -> (copy: IoHereDocument)
        ensures
            copy == *self,
    {
        IoHereDocument {
            remove_tabs: self.remove_tabs,
            requires_expansion: self.requires_expansion,
            here_end: self.here_end.clone(),
            doc: self.doc.clone(),
        }
    }
}

impl PipelineTimed {
    /// Returns true if the pipeline should be timed with POSIX-like output.
    pub fn is_posix_output(&self) -> (b: bool)
        ensures
            b == (self is TimedWithPosixOutput),
    {
        matches!(self, PipelineTimed::TimedWithPosixOutput(_))
    }
}

impl AssignmentName {
    /// The name without any array indexing.
    pub open spec fn base(&self) -> String {
        match self {
            AssignmentName::VariableName(name) => *name,
            AssignmentName::ArrayElementName(name, _index) => *name,
        }
    }

    /// Returns the base name of the assignment, without any array indexing if present.
    pub fn base_name(&self) -> (name: &str)
        ensures
            name@ == self.base()@,
    {
        match self {
            AssignmentName::VariableName(name) => name.as_str(),
            AssignmentName::ArrayElementName(name, _index) => name.as_str(),
        }
    }
}

impl Default for CommandPrefix {
    fn default() -> (prefix: CommandPrefix)
        ensures
            prefix.0@.len() == 0,
    {
        CommandPrefix(Vec::new())
    }
}

impl Default for CommandSuffix {
    fn default() -> (suffix: CommandSuffix)
        ensures
            suffix.0@.len() == 0,
    {
        CommandSuffix(Vec::new())
    }
}

} // verus!
