//! How commands are printed.

use vstd::prelude::*;

use super::{
    AndOr, AndOrList, ArithmeticCommand, ArithmeticForClauseCommand, Assignment, AssignmentName,
    AssignmentValue, BraceGroupCommand, CaseClauseCommand, CaseItem, CaseItemPostAction, Command,
    CommandPrefix, CommandPrefixOrSuffixItem, CommandSuffix, CompoundCommand, CompoundList,
    CompoundListItem, CoprocessCommand, DoGroupCommand, ElseClause, ForClauseCommand, FunctionBody,
    FunctionDefinition, IfClauseCommand, IoFd, IoFileRedirectKind, IoFileRedirectTarget,
    IoHereDocument, IoRedirect, Pipeline, PipelineTimed, ProcessSubstitutionKind, Program,
    RedirectList, SeparatorOperator, SimpleCommand, SubshellCommand, UnexpandedArithmeticExpr,
    WhileOrUntilClauseCommand, Word,
};
use crate::decimal::{decimal, decimal_string};
use crate::layout::{
    block, group_layout, here_doc, layout, line_end, newline_terminated, nothing, plain,
    unfolded, Doc,
};
use crate::render::{Display, Formatter};

verus! {

broadcast use group_layout;

/// Words with a separator between them.
pub open spec fn words_doc(words: Seq<Word>, n: int, separator: Seq<char>) -> Doc
    decreases n,
{
    if n <= 0 || n > words.len() {
        nothing()
    } else {
        words_doc(words, n - 1, separator) + (if n > 1 {
            plain(separator)
        } else {
            nothing()
        }) + words[n - 1].doc()
    }
}

fn fmt_words(words: &Vec<Word>, separator: &str, f: &mut Formatter)
    requires
        old(f).ready(),
    ensures
        final(f).ready(),
        final(f)@ == layout(words_doc(words@, words@.len() as int, separator@), old(f)@),
        final(f).enclosing() == old(f).enclosing(),
{
    let n: usize = words.len();
    for i in 0..n
        invariant
            n == words@.len(),
            f.ready(),
            f@ == layout(words_doc(words@, i as int, separator@), old(f)@),
            f.enclosing() == old(f).enclosing(),
    {
        assert(unfolded(words_doc(words@, i + 1, separator@)));
        if i > 0 {
            f.write_str(separator);
        }
        words[i].fmt(f);
    }
}

/// A file descriptor number, if there is one.
pub open spec fn fd_doc(fd: Option<IoFd>) -> Doc {
    match fd {
        Some(n) => plain(decimal(n as int)),
        None => nothing(),
    }
}

fn fmt_fd(fd: &Option<IoFd>, f: &mut Formatter)
    requires
        old(f).ready(),
    ensures
        final(f).ready(),
        final(f)@ == layout(fd_doc(*fd), old(f)@),
        final(f).enclosing() == old(f).enclosing(),
{
    if let Some(n) = fd {
        f.write_str(decimal_string(*n as i64).as_str());
    }
}

impl Display for Program {
    /// The complete commands one after the other, and at the end whatever here-document bodies
    /// are still waiting.
    open spec fn doc(&self) -> Doc {
        complete_commands_doc(self.complete_commands@, self.complete_commands@.len() as int)
            + line_end(Seq::empty())
    }

    fn fmt(&self, f: &mut Formatter) {
        assert(unfolded(self.doc()));
        let n: usize = self.complete_commands.len();
        for i in 0..n
            invariant
                n == self.complete_commands@.len(),
                f.ready(),
                f@ == layout(complete_commands_doc(self.complete_commands@, i as int), old(f)@),
                f.enclosing() == old(f).enclosing(),
        {
            assert(unfolded(complete_commands_doc(self.complete_commands@, i + 1)));
            self.complete_commands[i].fmt(f);
        }
        // No here-document body is to leak into what is printed later.
        f.flush_deferred_heredocs();
    }
}

/// The first `n` complete commands one after the other.
pub open spec fn complete_commands_doc(commands: Seq<CompoundList>, n: int) -> Doc
    decreases n,
{
    if n <= 0 || n > commands.len() {
        nothing()
    } else {
        complete_commands_doc(commands, n - 1) + commands[n - 1].doc()
    }
}

impl Display for AndOrList {
    open spec fn doc(&self) -> Doc
        decreases self, 0int,
    {
        self.first.doc() + and_ors_doc(self.additional@, self.additional@.len() as int)
    }

    fn fmt(&self, f: &mut Formatter)
        decreases self, 0int,
    {
        assert(unfolded(self.doc()));
        self.first.fmt(f);
        let ghost start = f@;
        let n: usize = self.additional.len();
        for i in 0..n
            invariant
                n == self.additional@.len(),
                f.ready(),
                f@ == layout(and_ors_doc(self.additional@, i as int), start),
                f.enclosing() == old(f).enclosing(),
        {
            assert(unfolded(and_ors_doc(self.additional@, i + 1)));
            self.additional[i].fmt(f);
        }
    }
}

/// The first `n` additional pipelines, each after its operator.
pub open spec fn and_ors_doc(items: Seq<AndOr>, n: int) -> Doc
    decreases items, n,
{
    if n <= 0 || n > items.len() {
        nothing()
    } else {
        and_ors_doc(items, n - 1) + items[n - 1].doc()
    }
}

impl Display for AndOr {
    open spec fn doc(&self) -> Doc
        decreases self, 0int,
    {
        match self {
            AndOr::And(pipeline) => plain(" && "@) + pipeline.doc(),
            AndOr::Or(pipeline) => plain(" || "@) + pipeline.doc(),
        }
    }

    fn fmt(&self, f: &mut Formatter)
        decreases self, 0int,
    {
        assert(unfolded(self.doc()));
        match self {
            AndOr::And(pipeline) => {
                f.write_str(" && ");
                pipeline.fmt(f);
            },
            AndOr::Or(pipeline) => {
                f.write_str(" || ");
                pipeline.fmt(f);
            },
        }
    }
}

impl PipelineTimed {
    /// The reserved word that asks for the timing, with its option.
    pub open spec fn text(&self) -> Seq<char> {
        match self {
            PipelineTimed::Timed(_) => "time"@,
            PipelineTimed::TimedWithPosixOutput(_) => "time -p"@,
        }
    }
}

impl Display for PipelineTimed {
    open spec fn doc(&self) -> Doc {
        plain(self.text())
    }

    fn fmt(&self, f: &mut Formatter) {
        assert(unfolded(self.doc()));
        match self {
            PipelineTimed::Timed(_) => f.write_str("time"),
            PipelineTimed::TimedWithPosixOutput(_) => f.write_str("time -p"),
        }
    }
}

impl Display for Pipeline {
    open spec fn doc(&self) -> Doc
        decreases self, 0int,
    {
        (match &self.timed {
            Some(timed) => timed.doc() + plain(" "@),
            None => nothing(),
        }) + (if self.bang {
            plain("! "@)
        } else {
            nothing()
        }) + commands_doc(self.seq@, self.seq@.len() as int)
    }

    fn fmt(&self, f: &mut Formatter)
        decreases self, 0int,
    {
        assert(unfolded(self.doc()));
        if let Some(timed) = &self.timed {
            timed.fmt(f);
            f.write_str(" ");
        }
        if self.bang {
            f.write_str("! ");
        }
        let ghost start = f@;
        let n: usize = self.seq.len();
        for i in 0..n
            invariant
                n == self.seq@.len(),
                f.ready(),
                f@ == layout(commands_doc(self.seq@, i as int), start),
                f.enclosing() == old(f).enclosing(),
        {
            assert(unfolded(commands_doc(self.seq@, i + 1)));
            if i > 0 {
                // Note the surrounding spaces, which a shell puts around the pipe when it prints
                // a pipeline.
                f.write_str(" | ");
            }
            self.seq[i].fmt(f);
        }
    }
}

/// The first `n` commands of a pipeline.
pub open spec fn commands_doc(commands: Seq<Command>, n: int) -> Doc
    decreases commands, n,
{
    if n <= 0 || n > commands.len() {
        nothing()
    } else {
        commands_doc(commands, n - 1) + (if n > 1 {
            plain(" | "@)
        } else {
            nothing()
        }) + commands[n - 1].doc()
    }
}

impl Display for Command {
    open spec fn doc(&self) -> Doc
        decreases self, 0int,
    {
        match self {
            Command::Simple(simple_command) => simple_command.doc(),
            Command::Compound(compound_command, redirect_list) => compound_command.doc() + (
            match redirect_list {
                Some(redirect_list) => redirect_list.doc(),
                None => nothing(),
            }),
            Command::Function(function_definition) => function_definition.doc(),
        }
    }

    fn fmt(&self, f: &mut Formatter)
        decreases self, 0int,
    {
        assert(unfolded(self.doc()));
        match self {
            Command::Simple(simple_command) => simple_command.fmt(f),
            Command::Compound(compound_command, redirect_list) => {
                compound_command.fmt(f);
                if let Some(redirect_list) = redirect_list {
                    redirect_list.fmt(f);
                }
            },
            Command::Function(function_definition) => function_definition.fmt(f),
        }
    }
}

impl Display for CompoundCommand {
    open spec fn doc(&self) -> Doc
        decreases self, 0int,
    {
        match self {
            CompoundCommand::Arithmetic(c) => c.doc(),
            CompoundCommand::ArithmeticForClause(c) => c.doc(),
            CompoundCommand::BraceGroup(c) => c.doc(),
            CompoundCommand::Subshell(c) => c.doc(),
            CompoundCommand::ForClause(c) => c.doc(),
            CompoundCommand::CaseClause(c) => c.doc(),
            CompoundCommand::IfClause(c) => c.doc(),
            CompoundCommand::WhileClause(c) => plain("while "@) + c.doc(),
            CompoundCommand::UntilClause(c) => plain("until "@) + c.doc(),
            CompoundCommand::Coprocess(c) => c.doc(),
            CompoundCommand::ExtendedTest(c) => plain("[[ "@) + c.doc() + plain(" ]]"@),
        }
    }

    fn fmt(&self, f: &mut Formatter)
        decreases self, 0int,
    {
        assert(unfolded(self.doc()));
        match self {
            CompoundCommand::Arithmetic(arithmetic_command) => arithmetic_command.fmt(f),
            CompoundCommand::ArithmeticForClause(arithmetic_for_clause_command) => {
                arithmetic_for_clause_command.fmt(f)
            },
            CompoundCommand::BraceGroup(brace_group_command) => brace_group_command.fmt(f),
            CompoundCommand::Subshell(subshell_command) => subshell_command.fmt(f),
            CompoundCommand::ForClause(for_clause_command) => for_clause_command.fmt(f),
            CompoundCommand::CaseClause(case_clause_command) => case_clause_command.fmt(f),
            CompoundCommand::IfClause(if_clause_command) => if_clause_command.fmt(f),
            CompoundCommand::WhileClause(while_or_until_clause_command) => {
                f.write_str("while ");
                while_or_until_clause_command.fmt(f);
            },
            CompoundCommand::UntilClause(while_or_until_clause_command) => {
                f.write_str("until ");
                while_or_until_clause_command.fmt(f);
            },
            CompoundCommand::Coprocess(coproc_clause_command) => coproc_clause_command.fmt(f),
            CompoundCommand::ExtendedTest(extended_test_expr_command) => {
                f.write_str("[[ ");
                extended_test_expr_command.fmt(f);
                f.write_str(" ]]");
            },
        }
    }
}

impl Display for ArithmeticCommand {
    open spec fn doc(&self) -> Doc {
        plain("(("@) + self.expr.doc() + plain("))"@)
    }

    fn fmt(&self, f: &mut Formatter) {
        assert(unfolded(self.doc()));
        f.write_str("((");
        self.expr.fmt(f);
        f.write_str("))");
    }
}

impl Display for SubshellCommand {
    open spec fn doc(&self) -> Doc
        decreases self, 0int,
    {
        plain("( "@) + self.list.doc() + plain(" )"@)
    }

    fn fmt(&self, f: &mut Formatter)
        decreases self, 0int,
    {
        assert(unfolded(self.doc()));
        f.write_str("( ");
        self.list.fmt(f);
        f.write_str(" )");
    }
}

impl Display for ForClauseCommand {
    open spec fn doc(&self) -> Doc
        decreases self, 0int,
    {
        plain("for "@) + plain(self.variable_name@) + plain(" in "@) + (match &self.values {
            Some(values) => words_doc(values@, values@.len() as int, " "@),
            None => nothing(),
        }) + plain(";\n"@) + self.body.doc()
    }

    fn fmt(&self, f: &mut Formatter)
        decreases self, 0int,
    {
        assert(unfolded(self.doc()));
        f.write_str("for ");
        f.write_str(self.variable_name.as_str());
        f.write_str(" in ");
        if let Some(values) = &self.values {
            fmt_words(values, " ", f);
        }
        f.write_str(";\n");
        self.body.fmt(f);
    }
}

/// An arithmetic expression, if there is one.
pub open spec fn optional_expr_doc(expr: Option<UnexpandedArithmeticExpr>) -> Doc {
    match expr {
        Some(expr) => expr.doc(),
        None => nothing(),
    }
}

impl Display for ArithmeticForClauseCommand {
    open spec fn doc(&self) -> Doc
        decreases self, 0int,
    {
        plain("for (("@) + optional_expr_doc(self.initializer) + plain("; "@) + optional_expr_doc(
            self.condition,
        ) + plain("; "@) + optional_expr_doc(self.updater) + plain("))\n"@) + self.body.doc()
    }

    fn fmt(&self, f: &mut Formatter)
        decreases self, 0int,
    {
        assert(unfolded(self.doc()));
        f.write_str("for ((");
        if let Some(initializer) = &self.initializer {
            initializer.fmt(f);
        }
        f.write_str("; ");
        if let Some(condition) = &self.condition {
            condition.fmt(f);
        }
        f.write_str("; ");
        if let Some(updater) = &self.updater {
            updater.fmt(f);
        }
        f.write_str("))\n");
        self.body.fmt(f);
    }
}

impl Display for CaseClauseCommand {
    open spec fn doc(&self) -> Doc
        decreases self, 0int,
    {
        plain("case "@) + self.value.doc() + plain(" in "@) + cases_doc(
            self.cases@,
            self.cases@.len() as int,
        ) + plain("\n"@) + plain("esac"@)
    }

    fn fmt(&self, f: &mut Formatter)
        decreases self, 0int,
    {
        assert(unfolded(self.doc()));
        // Note the trailing space, which the shell emits when printing a case clause.
        f.write_str("case ");
        self.value.fmt(f);
        f.write_str(" in ");
        let ghost start = f@;
        let n: usize = self.cases.len();
        for i in 0..n
            invariant
                n == self.cases@.len(),
                f.ready(),
                f@ == layout(cases_doc(self.cases@, i as int), start),
                f.enclosing() == old(f).enclosing(),
        {
            assert(unfolded(cases_doc(self.cases@, i + 1)));
            f.open_block();
            self.cases[i].fmt(f);
            f.close_block();
        }
        f.write_str("\n");
        f.write_str("esac");
    }
}

/// The first `n` items of a case clause, each of them indented.
pub open spec fn cases_doc(cases: Seq<CaseItem>, n: int) -> Doc
    decreases cases, n,
{
    if n <= 0 || n > cases.len() {
        nothing()
    } else {
        cases_doc(cases, n - 1) + block(cases[n - 1].doc())
    }
}

/// What follows an item of a list that ends a line without a here-document: its separator, unless
/// it is the last item and that is a `;` that the enclosing construct does not want.
pub open spec fn separator_after(
    items: Seq<CompoundListItem>,
    i: int,
    keep_trailing_separator: bool,
) -> Seq<char> {
    if keep_trailing_separator || i < items.len() - 1 || items[i].1 !is Sequence {
        items[i].1.text()
    } else {
        Seq::empty()
    }
}

/// The first `n` items of a list, each on a line of its own.
pub open spec fn items_doc(
    items: Seq<CompoundListItem>,
    n: int,
    keep_trailing_separator: bool,
) -> Doc
    decreases items, n,
{
    if n <= 0 || n > items.len() {
        nothing()
    } else {
        items_doc(items, n - 1, keep_trailing_separator) + (if n > 1 {
            plain("\n"@)
        } else {
            nothing()
        }) + items[n - 1].0.doc() + line_end(separator_after(items, n - 1, keep_trailing_separator))
    }
}

impl CompoundList {
    /// The list with its trailing `;` retained, the way the shell prints the body of a block
    /// closed by a reserved word (`fi`, `else`, `done`).
    pub open spec fn terminated_doc(&self) -> Doc
        decreases self, 0int,
    {
        items_doc(self.0@, self.0@.len() as int, true)
    }

    /// Displays the list with its trailing `;` retained, the way the shell prints the body of a
    /// block closed by a reserved word (`fi`, `else`, `done`).
    pub fn terminated(&self) -> (t: TerminatedCompoundList<'_>)
        ensures
            t.0 == self,
    {
        TerminatedCompoundList(self)
    }

    fn fmt_items(&self, f: &mut Formatter, keep_trailing_separator: bool)
        requires
            old(f).ready(),
        ensures
            final(f).ready(),
            final(f)@ == layout(
                items_doc(self.0@, self.0@.len() as int, keep_trailing_separator),
                old(f)@,
            ),
            final(f).enclosing() == old(f).enclosing(),
        decreases self, 0int,
    {
        let n: usize = self.0.len();
        for i in 0..n
            invariant
                n == self.0@.len(),
                f.ready(),
                f@ == layout(items_doc(self.0@, i as int, keep_trailing_separator), old(f)@),
                f.enclosing() == old(f).enclosing(),
        {
            assert(unfolded(items_doc(self.0@, i + 1, keep_trailing_separator)));
            if i > 0 {
                f.write_str("\n");
            }
            let item = &self.0[i];
            item.0.fmt(f);
            if f.has_deferred_heredocs() {
                // The command opened a here-document. Its separator is replaced by the newline
                // that ends the command's line plus the here-document body and terminator (at
                // column 0); the next item's leading newline then supplies the blank line a shell
                // leaves after a here-document body.
                f.flush_deferred_heredocs();
            } else if keep_trailing_separator || i < n - 1 || !matches!(
                item.1,
                SeparatorOperator::Sequence
            ) {
                // Write the separator... unless we're on the last list item and it's a ';' that
                // the enclosing construct doesn't want.
                item.1.fmt(f);
            }
        }
    }
}

impl Display for CompoundList {
    open spec fn doc(&self) -> Doc
        decreases self, 0int,
    {
        items_doc(self.0@, self.0@.len() as int, false)
    }

    fn fmt(&self, f: &mut Formatter)
        decreases self, 1int,
    {
        assert(unfolded(self.doc()));
        self.fmt_items(f, false);
    }
}

/// A list whose trailing `;` is printed.
pub struct TerminatedCompoundList<'a>(pub &'a CompoundList);

impl<'a> Display for TerminatedCompoundList<'a> {
    open spec fn doc(&self) -> Doc {
        self.0.terminated_doc()
    }

    fn fmt(&self, f: &mut Formatter)
        decreases self.0, 1int,
    {
        assert(unfolded(self.doc()));
        self.0.fmt_items(f, true);
    }
}

impl Display for CompoundListItem {
    open spec fn doc(&self) -> Doc {
        self.0.doc() + self.1.doc()
    }

    fn fmt(&self, f: &mut Formatter) {
        assert(unfolded(self.doc()));
        self.0.fmt(f);
        self.1.fmt(f);
    }
}

impl Display for IfClauseCommand {
    open spec fn doc(&self) -> Doc
        decreases self, 0int,
    {
        match self {
            IfClauseCommand { condition, then: body, elses, loc: _ } => plain("if "@)
                + condition.doc() + plain("; then\n"@) + block(body.terminated_doc()) + (
            match elses {
                Some(elses) => elses_doc(elses@, elses@.len() as int),
                None => nothing(),
            }) + plain("\n"@) + plain("fi"@),
        }
    }

    fn fmt(&self, f: &mut Formatter)
        decreases self, 0int,
    {
        assert(unfolded(self.doc()));
        f.write_str("if ");
        self.condition.fmt(f);
        f.write_str("; then\n");
        f.open_block();
        match self {
            IfClauseCommand { then: body, .. } => body.terminated().fmt(f),
        }
        f.close_block();
        if let Some(elses) = &self.elses {
            let ghost start = f@;
            assert(decreases_to!(self => self.elses->0));
            let n: usize = elses.len();
            for i in 0..n
                invariant
                    decreases_to!(self => elses),
                    n == elses@.len(),
                    f.ready(),
                    f@ == layout(elses_doc(elses@, i as int), start),
                    f.enclosing() == old(f).enclosing(),
            {
                assert(unfolded(elses_doc(elses@, i + 1)));
                elses[i].fmt(f);
            }
        }
        f.write_str("\n");
        f.write_str("fi");
    }
}

/// The first `n` else clauses.
pub open spec fn elses_doc(elses: Seq<ElseClause>, n: int) -> Doc
    decreases elses, n,
{
    if n <= 0 || n > elses.len() {
        nothing()
    } else {
        elses_doc(elses, n - 1) + elses[n - 1].doc()
    }
}

impl Display for ElseClause {
    open spec fn doc(&self) -> Doc
        decreases self, 0int,
    {
        (match &self.condition {
            Some(condition) => plain("\n"@) + plain("elif "@) + condition.doc() + plain(
                "; then\n"@,
            ),
            None => plain("\n"@) + plain("else\n"@),
        }) + block(self.body.terminated_doc())
    }

    fn fmt(&self, f: &mut Formatter)
        decreases self, 0int,
    {
        assert(unfolded(self.doc()));
        f.write_str("\n");
        if let Some(condition) = &self.condition {
            f.write_str("elif ");
            condition.fmt(f);
            f.write_str("; then\n");
        } else {
            f.write_str("else\n");
        }
        f.open_block();
        self.body.terminated().fmt(f);
        f.close_block();
    }
}

impl Display for CoprocessCommand {
    open spec fn doc(&self) -> Doc
        decreases self, 0int,
    {
        (match &self.name {
            Some(name) => plain("coproc"@) + plain(" "@) + name.doc(),
            None => plain("coproc"@),
        }) + plain(" "@) + self.body.doc()
    }

    fn fmt(&self, f: &mut Formatter)
        decreases self, 0int,
    {
        assert(unfolded(self.doc()));
        f.write_str("coproc");
        if let Some(name) = &self.name {
            f.write_str(" ");
            name.fmt(f);
        }
        f.write_str(" ");
        self.body.fmt(f);
    }
}

impl Display for CaseItem {
    open spec fn doc(&self) -> Doc
        decreases self, 0int,
    {
        plain("\n"@) + words_doc(self.patterns@, self.patterns@.len() as int, " | "@) + plain(
            ")\n"@,
        ) + (match &self.cmd {
            Some(cmd) => block(cmd.doc()),
            None => nothing(),
        }) + plain("\n"@) + self.post_action.doc()
    }

    fn fmt(&self, f: &mut Formatter)
        decreases self, 0int,
    {
        assert(unfolded(self.doc()));
        f.write_str("\n");
        // Note the spaces, which the shell puts around the pattern separator.
        fmt_words(&self.patterns, " | ", f);
        f.write_str(")\n");
        if let Some(cmd) = &self.cmd {
            f.open_block();
            cmd.fmt(f);
            f.close_block();
        }
        f.write_str("\n");
        self.post_action.fmt(f);
    }
}

impl Display for WhileOrUntilClauseCommand {
    open spec fn doc(&self) -> Doc
        decreases self, 0int,
    {
        self.0.doc() + plain("; "@) + self.1.doc()
    }

    fn fmt(&self, f: &mut Formatter)
        decreases self, 0int,
    {
        assert(unfolded(self.doc()));
        self.0.fmt(f);
        f.write_str("; ");
        self.1.fmt(f);
    }
}

impl Display for FunctionDefinition {
    /// The name and the body, and then whatever here-document bodies are waiting, such as one
    /// that a redirection of the function body itself opened.
    open spec fn doc(&self) -> Doc
        decreases self, 0int,
    {
        plain(self.fname.value@) + plain(" () \n"@) + self.body.doc() + line_end(Seq::empty())
    }

    fn fmt(&self, f: &mut Formatter)
        decreases self, 0int,
    {
        assert(unfolded(self.doc()));
        f.write_str(self.fname.value.as_str());
        f.write_str(" () \n");
        self.body.fmt(f);
        // Drain any here-document opened by a redirection on the function body itself
        // (`f() { ...; } <<EOF`), and guard against a body block leaking into what is printed
        // later.
        f.flush_deferred_heredocs();
    }
}

impl Display for FunctionBody {
    open spec fn doc(&self) -> Doc
        decreases self, 0int,
    {
        self.0.doc() + (match &self.1 {
            Some(redirect_list) => redirect_list.doc(),
            None => nothing(),
        })
    }

    fn fmt(&self, f: &mut Formatter)
        decreases self, 0int,
    {
        assert(unfolded(self.doc()));
        self.0.fmt(f);
        if let Some(redirect_list) = &self.1 {
            redirect_list.fmt(f);
        }
    }
}

impl Display for BraceGroupCommand {
    open spec fn doc(&self) -> Doc
        decreases self, 0int,
    {
        plain("{ \n"@) + block(self.list.doc()) + plain("\n"@) + plain("}"@)
    }

    fn fmt(&self, f: &mut Formatter)
        decreases self, 0int,
    {
        assert(unfolded(self.doc()));
        f.write_str("{ \n");
        f.open_block();
        self.list.fmt(f);
        f.close_block();
        f.write_str("\n");
        f.write_str("}");
    }
}

impl Display for DoGroupCommand {
    open spec fn doc(&self) -> Doc
        decreases self, 0int,
    {
        plain("do\n"@) + block(self.list.terminated_doc()) + plain("\n"@) + plain("done"@)
    }

    fn fmt(&self, f: &mut Formatter)
        decreases self, 0int,
    {
        assert(unfolded(self.doc()));
        f.write_str("do\n");
        f.open_block();
        self.list.terminated().fmt(f);
        f.close_block();
        f.write_str("\n");
        f.write_str("done");
    }
}

impl Display for SimpleCommand {
    /// Those of prefix, name and suffix that are present, with a space between each two.
    open spec fn doc(&self) -> Doc
        decreases self, 0int,
    {
        let space = plain(" "@);
        let named = match (&self.prefix, &self.word_or_name) {
            (Some(prefix), Some(word_or_name)) => prefix.doc() + space + word_or_name.doc(),
            (Some(prefix), None) => prefix.doc(),
            (None, Some(word_or_name)) => word_or_name.doc(),
            (None, None) => nothing(),
        };
        match &self.suffix {
            Some(suffix) => if self.prefix is Some || self.word_or_name is Some {
                named + space + suffix.doc()
            } else {
                suffix.doc()
            },
            None => named,
        }
    }

    fn fmt(&self, f: &mut Formatter)
        decreases self, 0int,
    {
        assert(unfolded(self.doc()));
        let mut wrote_something: bool = false;
        if let Some(prefix) = &self.prefix {
            prefix.fmt(f);
            wrote_something = true;
        }
        if let Some(word_or_name) = &self.word_or_name {
            if wrote_something {
                f.write_str(" ");
            }
            word_or_name.fmt(f);
            wrote_something = true;
        }
        if let Some(suffix) = &self.suffix {
            if wrote_something {
                f.write_str(" ");
            }
            suffix.fmt(f);
        }
    }
}

/// The first `n` items of a prefix or suffix.
pub open spec fn affix_doc(items: Seq<CommandPrefixOrSuffixItem>, n: int) -> Doc
    decreases items, n,
{
    if n <= 0 || n > items.len() {
        nothing()
    } else {
        affix_doc(items, n - 1) + (if n > 1 {
            plain(" "@)
        } else {
            nothing()
        }) + items[n - 1].doc()
    }
}

impl Display for CommandPrefix {
    open spec fn doc(&self) -> Doc
        decreases self, 0int,
    {
        affix_doc(self.0@, self.0@.len() as int)
    }

    fn fmt(&self, f: &mut Formatter)
        decreases self, 0int,
    {
        assert(unfolded(self.doc()));
        let n: usize = self.0.len();
        for i in 0..n
            invariant
                n == self.0@.len(),
                f.ready(),
                f@ == layout(affix_doc(self.0@, i as int), old(f)@),
                f.enclosing() == old(f).enclosing(),
        {
            assert(unfolded(affix_doc(self.0@, i + 1)));
            if i > 0 {
                f.write_str(" ");
            }
            self.0[i].fmt(f);
        }
    }
}

impl Display for CommandSuffix {
    open spec fn doc(&self) -> Doc
        decreases self, 0int,
    {
        affix_doc(self.0@, self.0@.len() as int)
    }

    fn fmt(&self, f: &mut Formatter)
        decreases self, 0int,
    {
        assert(unfolded(self.doc()));
        let n: usize = self.0.len();
        for i in 0..n
            invariant
                n == self.0@.len(),
                f.ready(),
                f@ == layout(affix_doc(self.0@, i as int), old(f)@),
                f.enclosing() == old(f).enclosing(),
        {
            assert(unfolded(affix_doc(self.0@, i + 1)));
            if i > 0 {
                f.write_str(" ");
            }
            self.0[i].fmt(f);
        }
    }
}

impl Display for CommandPrefixOrSuffixItem {
    open spec fn doc(&self) -> Doc
        decreases self, 0int,
    {
        match self {
            CommandPrefixOrSuffixItem::IoRedirect(io_redirect) => io_redirect.doc(),
            CommandPrefixOrSuffixItem::Word(word) => word.doc(),
            CommandPrefixOrSuffixItem::AssignmentWord(_assignment, word) => word.doc(),
            CommandPrefixOrSuffixItem::ProcessSubstitution(kind, subshell_command) => kind.doc()
                + plain("("@) + subshell_command.list.doc() + plain(")"@),
        }
    }

    fn fmt(&self, f: &mut Formatter)
        decreases self, 0int,
    {
        assert(unfolded(self.doc()));
        match self {
            CommandPrefixOrSuffixItem::IoRedirect(io_redirect) => io_redirect.fmt(f),
            CommandPrefixOrSuffixItem::Word(word) => word.fmt(f),
            CommandPrefixOrSuffixItem::AssignmentWord(_assignment, word) => word.fmt(f),
            CommandPrefixOrSuffixItem::ProcessSubstitution(kind, subshell_command) => {
                // `>(list)` / `<(list)` -- the parentheses belong to the process-substitution
                // syntax itself, so print the inner list directly rather than as a subshell with
                // its own `( ... )` (which would double the parentheses).
                kind.fmt(f);
                f.write_str("(");
                subshell_command.list.fmt(f);
                f.write_str(")");
            },
        }
    }
}

impl Display for Assignment {
    open spec fn doc(&self) -> Doc {
        self.name.doc() + (if self.append {
            plain("+"@)
        } else {
            nothing()
        }) + plain("="@) + self.value.doc()
    }

    fn fmt(&self, f: &mut Formatter) {
        assert(unfolded(self.doc()));
        self.name.fmt(f);
        if self.append {
            f.write_str("+");
        }
        f.write_str("=");
        self.value.fmt(f);
    }
}

impl Display for AssignmentName {
    open spec fn doc(&self) -> Doc {
        match self {
            AssignmentName::VariableName(name) => plain(name@),
            AssignmentName::ArrayElementName(name, index) => plain(name@) + plain("["@) + plain(
                index@,
            ) + plain("]"@),
        }
    }

    fn fmt(&self, f: &mut Formatter) {
        assert(unfolded(self.doc()));
        match self {
            AssignmentName::VariableName(name) => f.write_str(name.as_str()),
            AssignmentName::ArrayElementName(name, index) => {
                f.write_str(name.as_str());
                f.write_str("[");
                f.write_str(index.as_str());
                f.write_str("]");
            },
        }
    }
}

/// An element of an array value, with its key if it has one.
pub open spec fn element_doc(element: (Option<Word>, Word)) -> Doc {
    match element.0 {
        Some(key) => plain("["@) + key.doc() + plain("]="@) + element.1.doc(),
        None => element.1.doc(),
    }
}

/// The first `n` elements of an array value.
pub open spec fn elements_doc(elements: Seq<(Option<Word>, Word)>, n: int) -> Doc
    decreases n,
{
    if n <= 0 || n > elements.len() {
        nothing()
    } else {
        elements_doc(elements, n - 1) + (if n > 1 {
            plain(" "@)
        } else {
            nothing()
        }) + element_doc(elements[n - 1])
    }
}

impl Display for AssignmentValue {
    open spec fn doc(&self) -> Doc {
        match self {
            AssignmentValue::Scalar(word) => word.doc(),
            AssignmentValue::Array(words) => plain("("@) + elements_doc(
                words@,
                words@.len() as int,
            ) + plain(")"@),
        }
    }

    fn fmt(&self, f: &mut Formatter) {
        assert(unfolded(self.doc()));
        match self {
            AssignmentValue::Scalar(word) => word.fmt(f),
            AssignmentValue::Array(words) => {
                f.write_str("(");
                let ghost start = f@;
                let n: usize = words.len();
                for i in 0..n
                    invariant
                        n == words@.len(),
                        f.ready(),
                        f@ == layout(elements_doc(words@, i as int), start),
                        f.enclosing() == old(f).enclosing(),
                {
                    assert(unfolded(elements_doc(words@, i + 1)));
                    assert(unfolded(element_doc(words@[i as int])));
                    if i > 0 {
                        f.write_str(" ");
                    }
                    let element = &words[i];
                    if let Some(key) = &element.0 {
                        f.write_str("[");
                        key.fmt(f);
                        f.write_str("]=");
                    }
                    element.1.fmt(f);
                }
                f.write_str(")");
            },
        }
    }
}

/// The first `n` redirections of a list.
pub open spec fn redirects_doc(redirects: Seq<IoRedirect>, n: int) -> Doc
    decreases redirects, n,
{
    if n <= 0 || n > redirects.len() {
        nothing()
    } else {
        redirects_doc(redirects, n - 1) + redirects[n - 1].doc()
    }
}

impl Display for RedirectList {
    open spec fn doc(&self) -> Doc
        decreases self, 0int,
    {
        redirects_doc(self.0@, self.0@.len() as int)
    }

    fn fmt(&self, f: &mut Formatter)
        decreases self, 0int,
    {
        assert(unfolded(self.doc()));
        let n: usize = self.0.len();
        for i in 0..n
            invariant
                n == self.0@.len(),
                f.ready(),
                f@ == layout(redirects_doc(self.0@, i as int), old(f)@),
                f.enclosing() == old(f).enclosing(),
        {
            assert(unfolded(redirects_doc(self.0@, i + 1)));
            self.0[i].fmt(f);
        }
    }
}

impl Display for IoRedirect {
    open spec fn doc(&self) -> Doc
        decreases self, 0int,
    {
        match self {
            IoRedirect::File(fd_num, kind, target) => fd_doc(*fd_num) + kind.doc() + plain(
                kind.separator(),
            ) + target.doc(),
            IoRedirect::OutputAndError(target, append) => plain("&>"@) + (if *append {
                plain(">"@)
            } else {
                nothing()
            }) + plain(" "@) + target.doc(),
            IoRedirect::HereDocument(fd_num, document) => fd_doc(*fd_num) + plain("<<"@)
                + document.doc() + here_doc(document.lines()),
            IoRedirect::HereString(fd_num, s) => fd_doc(*fd_num) + plain("<<< "@) + s.doc(),
        }
    }

    fn fmt(&self, f: &mut Formatter)
        decreases self, 0int,
    {
        assert(unfolded(self.doc()));
        match self {
            IoRedirect::File(fd_num, kind, target) => {
                fmt_fd(fd_num, f);
                // A shell prints a file-descriptor duplication (`>&1`, `<&-`) with no space
                // between the operator and its target; every other file redirection gets one.
                let sep: &str = match kind {
                    IoFileRedirectKind::DuplicateInput | IoFileRedirectKind::DuplicateOutput => "",
                    _ => " ",
                };
                kind.fmt(f);
                f.write_str(sep);
                target.fmt(f);
            },
            IoRedirect::OutputAndError(target, append) => {
                f.write_str("&>");
                if *append {
                    f.write_str(">");
                }
                f.write_str(" ");
                target.fmt(f);
            },
            IoRedirect::HereDocument(fd_num, document) => {
                fmt_fd(fd_num, f);
                // Only the operator and the tag go on the command line here; the body and
                // terminator are queued and written, unindented, once the line ends.
                f.write_str("<<");
                document.fmt(f);
                let block = document.block();
                f.defer_heredoc_body(block);
            },
            IoRedirect::HereString(fd_num, s) => {
                fmt_fd(fd_num, f);
                f.write_str("<<< ");
                s.fmt(f);
            },
        }
    }
}

impl IoFileRedirectKind {
    /// What stands between the operator and its target: nothing for a file-descriptor
    /// duplication, otherwise a space.
    pub open spec fn separator(&self) -> Seq<char> {
        match self {
            IoFileRedirectKind::DuplicateInput | IoFileRedirectKind::DuplicateOutput => ""@,
            _ => " "@,
        }
    }
}

impl Display for IoFileRedirectTarget {
    open spec fn doc(&self) -> Doc
        decreases self, 0int,
    {
        match self {
            IoFileRedirectTarget::Filename(word) => word.doc(),
            IoFileRedirectTarget::Fd(fd) => plain(decimal(*fd as int)),
            IoFileRedirectTarget::ProcessSubstitution(kind, subshell_command) => kind.doc()
                + plain("("@) + subshell_command.list.doc() + plain(")"@),
            IoFileRedirectTarget::Duplicate(word) => word.doc(),
        }
    }

    fn fmt(&self, f: &mut Formatter)
        decreases self, 0int,
    {
        assert(unfolded(self.doc()));
        match self {
            IoFileRedirectTarget::Filename(word) => word.fmt(f),
            IoFileRedirectTarget::Fd(fd) => f.write_str(decimal_string(*fd as i64).as_str()),
            IoFileRedirectTarget::ProcessSubstitution(kind, subshell_command) => {
                // As for a process substitution among the words of a command.
                kind.fmt(f);
                f.write_str("(");
                subshell_command.list.fmt(f);
                f.write_str(")");
            },
            IoFileRedirectTarget::Duplicate(word) => word.fmt(f),
        }
    }
}

impl IoHereDocument {
    /// The lines of the body, and then the terminator on a line of its own.
    pub open spec fn lines(&self) -> Seq<char> {
        let body = self.doc.value@;
        body + (if body.len() > 0 && body.last() != '\n' {
            "\n"@
        } else {
            Seq::empty()
        }) + self.here_end.value@
    }

    /// The body and the terminator, each on lines of its own.
    fn block(&self) -> (block: String)
        ensures
            block@ == self.lines() + "\n"@,
            newline_terminated(block@),
    {
        let mut block = self.doc.value.clone();
        let n: usize = block.as_str().unicode_len();
        if n > 0 && block.as_str().get_char(n - 1) != '\n' {
            block.append("\n");
        }
        block.append(self.here_end.value.as_str());
        block.append("\n");
        proof {
            reveal_strlit("\n");
            assert(block@.last() == '\n');
        }
        block
    }
}

impl Display for IoHereDocument {
    /// Only the here tag as it appears right after `<<` on the command line (`-` for a
    /// tab-stripping `<<-`, then the delimiter word).
    open spec fn doc(&self) -> Doc {
        (if self.remove_tabs {
            plain("-"@)
        } else {
            nothing()
        }) + self.here_end.doc()
    }

    fn fmt(&self, f: &mut Formatter) {
        assert(unfolded(self.doc()));
        if self.remove_tabs {
            f.write_str("-");
        }
        self.here_end.fmt(f);
    }
}

impl SeparatorOperator {
    /// The separator, as written.
    pub open spec fn text(&self) -> Seq<char> {
        match self {
            SeparatorOperator::Async => "&"@,
            SeparatorOperator::Sequence => ";"@,
        }
    }
}

impl Display for SeparatorOperator {
    open spec fn doc(&self) -> Doc {
        plain(self.text())
    }

    fn fmt(&self, f: &mut Formatter) {
        assert(unfolded(self.doc()));
        match self {
            SeparatorOperator::Async => f.write_str("&"),
            SeparatorOperator::Sequence => f.write_str(";"),
        }
    }
}

impl CaseItemPostAction {
    /// The terminator that asks for the action.
    pub open spec fn text(&self) -> Seq<char> {
        match self {
            CaseItemPostAction::ExitCase => ";;"@,
            CaseItemPostAction::UnconditionallyExecuteNextCaseItem => ";&"@,
            CaseItemPostAction::ContinueEvaluatingCases => ";;&"@,
        }
    }
}

impl Display for CaseItemPostAction {
    open spec fn doc(&self) -> Doc {
        plain(self.text())
    }

    fn fmt(&self, f: &mut Formatter) {
        assert(unfolded(self.doc()));
        match self {
            CaseItemPostAction::ExitCase => f.write_str(";;"),
            CaseItemPostAction::UnconditionallyExecuteNextCaseItem => f.write_str(";&"),
            CaseItemPostAction::ContinueEvaluatingCases => f.write_str(";;&"),
        }
    }
}

impl ProcessSubstitutionKind {
    /// The operator, as written.
    pub open spec fn text(&self) -> Seq<char> {
        match self {
            ProcessSubstitutionKind::Read => "<"@,
            ProcessSubstitutionKind::Write => ">"@,
        }
    }
}

impl Display for ProcessSubstitutionKind {
    open spec fn doc(&self) -> Doc {
        plain(self.text())
    }

    fn fmt(&self, f: &mut Formatter) {
        assert(unfolded(self.doc()));
        match self {
            ProcessSubstitutionKind::Read => f.write_str("<"),
            ProcessSubstitutionKind::Write => f.write_str(">"),
        }
    }
}

impl IoFileRedirectKind {
    /// The operator, as written.
    pub open spec fn text(&self) -> Seq<char> {
        match self {
            IoFileRedirectKind::Read => "<"@,
            IoFileRedirectKind::Write => ">"@,
            IoFileRedirectKind::Append => ">>"@,
            IoFileRedirectKind::ReadAndWrite => "<>"@,
            IoFileRedirectKind::Clobber => ">|"@,
            IoFileRedirectKind::DuplicateInput => "<&"@,
            IoFileRedirectKind::DuplicateOutput => ">&"@,
        }
    }
}

impl Display for IoFileRedirectKind {
    open spec fn doc(&self) -> Doc {
        plain(self.text())
    }

    fn fmt(&self, f: &mut Formatter) {
        assert(unfolded(self.doc()));
        match self {
            IoFileRedirectKind::Read => f.write_str("<"),
            IoFileRedirectKind::Write => f.write_str(">"),
            IoFileRedirectKind::Append => f.write_str(">>"),
            IoFileRedirectKind::ReadAndWrite => f.write_str("<>"),
            IoFileRedirectKind::Clobber => f.write_str(">|"),
            IoFileRedirectKind::DuplicateInput => f.write_str("<&"),
            IoFileRedirectKind::DuplicateOutput => f.write_str(">&"),
        }
    }
}

} // verus!
