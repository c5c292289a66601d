//! The here-documents of commands, all of which are printed.

use vstd::prelude::*;

use super::display::{
    affix_doc, and_ors_doc, cases_doc, commands_doc, complete_commands_doc, elses_doc, items_doc,
    redirects_doc, separator_after,
};
use super::laws::{
    law_function_definition_leaves_nothing_waiting, law_program_leaves_nothing_waiting,
};
use super::{
    AndOr, AndOrList, ArithmeticForClauseCommand, BraceGroupCommand, CaseClauseCommand, CaseItem,
    Command, CommandPrefix, CommandPrefixOrSuffixItem, CommandSuffix, CompoundCommand, CompoundList,
    CompoundListItem, CoprocessCommand, DoGroupCommand, ElseClause, ForClauseCommand, FunctionBody,
    FunctionDefinition, IfClauseCommand, IoFileRedirectTarget, IoHereDocument, IoRedirect, Pipeline,
    Program, RedirectList, SimpleCommand, SubshellCommand, WhileOrUntilClauseCommand,
};
use crate::layout::{line_end, nothing, plain, printed, Rendering};
use crate::layout_laws::{at_line_start, group_opens, law_here_docs_printed, opens};
use crate::render::Display;

verus! {

broadcast use group_opens;

proof fn lemma_complete_commands_doc_opens(
    items: Seq<CompoundList>,
    n: int,
    i: int,
    lines: Seq<char>,
)
    requires
        0 <= i < n <= items.len(),
        opens(items[i].doc(), lines),
    ensures
        opens(complete_commands_doc(items, n), lines),
    decreases n,
{
    if i < n - 1 {
        lemma_complete_commands_doc_opens(items, n - 1, i, lines);
    }
}

proof fn lemma_and_ors_doc_opens(items: Seq<AndOr>, n: int, i: int, lines: Seq<char>)
    requires
        0 <= i < n <= items.len(),
        opens(items[i].doc(), lines),
    ensures
        opens(and_ors_doc(items, n), lines),
    decreases n,
{
    if i < n - 1 {
        lemma_and_ors_doc_opens(items, n - 1, i, lines);
    }
    assert(and_ors_doc(items, n) == and_ors_doc(items, n - 1) + items[n - 1].doc());
}

proof fn lemma_commands_doc_opens(items: Seq<Command>, n: int, i: int, lines: Seq<char>)
    requires
        0 <= i < n <= items.len(),
        opens(items[i].doc(), lines),
    ensures
        opens(commands_doc(items, n), lines),
    decreases n,
{
    if i < n - 1 {
        lemma_commands_doc_opens(items, n - 1, i, lines);
    }
    assert(commands_doc(items, n) == commands_doc(items, n - 1) + (if n > 1 {
        plain(" | "@)
    } else {
        nothing()
    }) + items[n - 1].doc());
}

proof fn lemma_cases_doc_opens(items: Seq<CaseItem>, n: int, i: int, lines: Seq<char>)
    requires
        0 <= i < n <= items.len(),
        opens(items[i].doc(), lines),
    ensures
        opens(cases_doc(items, n), lines),
    decreases n,
{
    if i < n - 1 {
        lemma_cases_doc_opens(items, n - 1, i, lines);
    }
}

proof fn lemma_elses_doc_opens(items: Seq<ElseClause>, n: int, i: int, lines: Seq<char>)
    requires
        0 <= i < n <= items.len(),
        opens(items[i].doc(), lines),
    ensures
        opens(elses_doc(items, n), lines),
    decreases n,
{
    if i < n - 1 {
        lemma_elses_doc_opens(items, n - 1, i, lines);
    }
    assert(elses_doc(items, n) == elses_doc(items, n - 1) + items[n - 1].doc());
}

proof fn lemma_affix_doc_opens(
    items: Seq<CommandPrefixOrSuffixItem>,
    n: int,
    i: int,
    lines: Seq<char>,
)
    requires
        0 <= i < n <= items.len(),
        opens(items[i].doc(), lines),
    ensures
        opens(affix_doc(items, n), lines),
    decreases n,
{
    if i < n - 1 {
        lemma_affix_doc_opens(items, n - 1, i, lines);
    }
    assert(affix_doc(items, n) == affix_doc(items, n - 1) + (if n > 1 {
        plain(" "@)
    } else {
        nothing()
    }) + items[n - 1].doc());
}

proof fn lemma_redirects_doc_opens(items: Seq<IoRedirect>, n: int, i: int, lines: Seq<char>)
    requires
        0 <= i < n <= items.len(),
        opens(items[i].doc(), lines),
    ensures
        opens(redirects_doc(items, n), lines),
    decreases n,
{
    if i < n - 1 {
        lemma_redirects_doc_opens(items, n - 1, i, lines);
    }
    assert(redirects_doc(items, n) == redirects_doc(items, n - 1) + items[n - 1].doc());
}

proof fn lemma_items_doc_opens(
    items: Seq<CompoundListItem>,
    n: int,
    keep: bool,
    i: int,
    lines: Seq<char>,
)
    requires
        0 <= i < n <= items.len(),
        opens(items[i].0.doc(), lines),
    ensures
        opens(items_doc(items, n, keep), lines),
    decreases n,
{
    if i < n - 1 {
        lemma_items_doc_opens(items, n - 1, keep, i, lines);
    }
    assert(items_doc(items, n, keep) == items_doc(items, n - 1, keep) + (if n > 1 {
        plain("\n"@)
    } else {
        nothing()
    }) + items[n - 1].0.doc() + line_end(separator_after(items, n - 1, keep)));
}

impl Program {
    /// Whether the here-document is a redirection of a command in this.
    pub open spec fn holds(&self, document: IoHereDocument) -> bool {
        exists|i: int|
            0 <= i < self.complete_commands@.len() && (
            #[trigger] self.complete_commands@[i]).holds(document)
    }

    /// A here-document that this holds is among what it is printed as.
    pub proof fn law_opens(&self, document: IoHereDocument)
        requires
            self.holds(document),
        ensures
            opens(self.doc(), document.lines()),
    {
        let commands = self.complete_commands@;
        let i = choose|i: int|
            0 <= i < commands.len() && (#[trigger] commands[i]).holds(document);
        commands[i].law_opens(document);
        lemma_complete_commands_doc_opens(commands, commands.len() as int, i, document.lines());
    }
}

impl AndOrList {
    /// Whether the here-document is a redirection of a command in this.
    pub open spec fn holds(&self, document: IoHereDocument) -> bool
        decreases self,
    {
        ||| self.first.holds(document)
        ||| exists|i: int|
            0 <= i < self.additional@.len() && (#[trigger] self.additional@[i]).holds(document)
    }

    /// A here-document that this holds is among what it is printed as.
    pub proof fn law_opens(&self, document: IoHereDocument)
        requires
            self.holds(document),
        ensures
            opens(self.doc(), document.lines()),
        decreases self,
    {
        if self.first.holds(document) {
            self.first.law_opens(document);
        } else {
            let i = choose|i: int|
                0 <= i < self.additional@.len() && (#[trigger] self.additional@[i]).holds(document);
            self.additional@[i].law_opens(document);
            let n = self.additional@.len() as int;
            lemma_and_ors_doc_opens(self.additional@, n, i, document.lines());
        }
    }
}

impl AndOr {
    /// Whether the here-document is a redirection of a command in this.
    pub open spec fn holds(&self, document: IoHereDocument) -> bool
        decreases self,
    {
        match self {
            AndOr::And(pipeline) => pipeline.holds(document),
            AndOr::Or(pipeline) => pipeline.holds(document),
        }
    }

    /// A here-document that this holds is among what it is printed as.
    pub proof fn law_opens(&self, document: IoHereDocument)
        requires
            self.holds(document),
        ensures
            opens(self.doc(), document.lines()),
        decreases self,
    {
        match self {
            AndOr::And(pipeline) => pipeline.law_opens(document),
            AndOr::Or(pipeline) => pipeline.law_opens(document),
        }
    }
}

impl Pipeline {
    /// Whether the here-document is a redirection of a command in this.
    pub open spec fn holds(&self, document: IoHereDocument) -> bool
        decreases self,
    {
        exists|i: int| 0 <= i < self.seq@.len() && (#[trigger] self.seq@[i]).holds(document)
    }

    /// A here-document that this holds is among what it is printed as.
    pub proof fn law_opens(&self, document: IoHereDocument)
        requires
            self.holds(document),
        ensures
            opens(self.doc(), document.lines()),
        decreases self,
    {
        let i = choose|i: int|
            0 <= i < self.seq@.len() && (#[trigger] self.seq@[i]).holds(document);
        self.seq@[i].law_opens(document);
        lemma_commands_doc_opens(self.seq@, self.seq@.len() as int, i, document.lines());
    }
}

impl Command {
    /// Whether the here-document is a redirection of a command in this.
    pub open spec fn holds(&self, document: IoHereDocument) -> bool
        decreases self,
    {
        match self {
            Command::Simple(c) => c.holds(document),
            Command::Compound(c, redirects) => {
                ||| c.holds(document)
                ||| redirects matches Some(r) && r.holds(document)
            },
            Command::Function(f) => f.holds(document),
        }
    }

    /// A here-document that this holds is among what it is printed as.
    pub proof fn law_opens(&self, document: IoHereDocument)
        requires
            self.holds(document),
        ensures
            opens(self.doc(), document.lines()),
        decreases self,
    {
        match self {
            Command::Simple(c) => c.law_opens(document),
            Command::Compound(c, redirects) => {
                if c.holds(document) {
                    c.law_opens(document);
                } else if let Some(r) = redirects {
                    r.law_opens(document);
                }
            },
            Command::Function(f) => f.law_opens(document),
        }
    }
}

impl CompoundCommand {
    /// Whether the here-document is a redirection of a command in this.
    pub open spec fn holds(&self, document: IoHereDocument) -> bool
        decreases self,
    {
        match self {
            CompoundCommand::Arithmetic(_) | CompoundCommand::ExtendedTest(_) => false,
            CompoundCommand::ArithmeticForClause(c) => c.holds(document),
            CompoundCommand::BraceGroup(c) => c.holds(document),
            CompoundCommand::Subshell(c) => c.holds(document),
            CompoundCommand::ForClause(c) => c.holds(document),
            CompoundCommand::CaseClause(c) => c.holds(document),
            CompoundCommand::IfClause(c) => c.holds(document),
            CompoundCommand::WhileClause(c) => c.holds(document),
            CompoundCommand::UntilClause(c) => c.holds(document),
            CompoundCommand::Coprocess(c) => c.holds(document),
        }
    }

    /// A here-document that this holds is among what it is printed as.
    pub proof fn law_opens(&self, document: IoHereDocument)
        requires
            self.holds(document),
        ensures
            opens(self.doc(), document.lines()),
        decreases self,
    {
        match self {
            CompoundCommand::Arithmetic(_) | CompoundCommand::ExtendedTest(_) => {},
            CompoundCommand::ArithmeticForClause(c) => c.law_opens(document),
            CompoundCommand::BraceGroup(c) => c.law_opens(document),
            CompoundCommand::Subshell(c) => c.law_opens(document),
            CompoundCommand::ForClause(c) => c.law_opens(document),
            CompoundCommand::CaseClause(c) => c.law_opens(document),
            CompoundCommand::IfClause(c) => c.law_opens(document),
            CompoundCommand::WhileClause(c) => c.law_opens(document),
            CompoundCommand::UntilClause(c) => c.law_opens(document),
            CompoundCommand::Coprocess(c) => c.law_opens(document),
        }
    }
}

impl SubshellCommand {
    /// Whether the here-document is a redirection of a command in this.
    pub open spec fn holds(&self, document: IoHereDocument) -> bool
        decreases self,
    {
        self.list.holds(document)
    }

    /// A here-document that this holds is among what it is printed as.
    pub proof fn law_opens(&self, document: IoHereDocument)
        requires
            self.holds(document),
        ensures
            opens(self.doc(), document.lines()),
        decreases self,
    {
        self.list.law_opens(document);
    }
}

impl ForClauseCommand {
    /// Whether the here-document is a redirection of a command in this.
    pub open spec fn holds(&self, document: IoHereDocument) -> bool
        decreases self,
    {
        self.body.holds(document)
    }

    /// A here-document that this holds is among what it is printed as.
    pub proof fn law_opens(&self, document: IoHereDocument)
        requires
            self.holds(document),
        ensures
            opens(self.doc(), document.lines()),
        decreases self,
    {
        self.body.law_opens(document);
    }
}

impl ArithmeticForClauseCommand {
    /// Whether the here-document is a redirection of a command in this.
    pub open spec fn holds(&self, document: IoHereDocument) -> bool
        decreases self,
    {
        self.body.holds(document)
    }

    /// A here-document that this holds is among what it is printed as.
    pub proof fn law_opens(&self, document: IoHereDocument)
        requires
            self.holds(document),
        ensures
            opens(self.doc(), document.lines()),
        decreases self,
    {
        self.body.law_opens(document);
    }
}

impl CaseClauseCommand {
    /// Whether the here-document is a redirection of a command in this.
    pub open spec fn holds(&self, document: IoHereDocument) -> bool
        decreases self,
    {
        exists|i: int| 0 <= i < self.cases@.len() && (#[trigger] self.cases@[i]).holds(document)
    }

    /// A here-document that this holds is among what it is printed as.
    pub proof fn law_opens(&self, document: IoHereDocument)
        requires
            self.holds(document),
        ensures
            opens(self.doc(), document.lines()),
        decreases self,
    {
        let i = choose|i: int|
            0 <= i < self.cases@.len() && (#[trigger] self.cases@[i]).holds(document);
        self.cases@[i].law_opens(document);
        lemma_cases_doc_opens(self.cases@, self.cases@.len() as int, i, document.lines());
    }
}

impl CompoundList {
    /// Whether the here-document is a redirection of a command in this.
    pub open spec fn holds(&self, document: IoHereDocument) -> bool
        decreases self,
    {
        exists|i: int| 0 <= i < self.0@.len() && (#[trigger] self.0@[i]).holds(document)
    }

    /// A here-document that this holds is among what it is printed as.
    pub proof fn law_opens(&self, document: IoHereDocument)
        requires
            self.holds(document),
        ensures
            opens(self.doc(), document.lines()),
            opens(self.terminated_doc(), document.lines()),
        decreases self,
    {
        let i = choose|i: int| 0 <= i < self.0@.len() && (#[trigger] self.0@[i]).holds(document);
        self.0@[i].0.law_opens(document);
        let n = self.0@.len() as int;
        lemma_items_doc_opens(self.0@, n, true, i, document.lines());
        lemma_items_doc_opens(self.0@, n, false, i, document.lines());
    }
}

impl CompoundListItem {
    /// Whether the here-document is a redirection of a command in this.
    pub open spec fn holds(&self, document: IoHereDocument) -> bool
        decreases self,
    {
        self.0.holds(document)
    }

    /// A here-document that this holds is among what it is printed as.
    pub proof fn law_opens(&self, document: IoHereDocument)
        requires
            self.holds(document),
        ensures
            opens(self.doc(), document.lines()),
        decreases self,
    {
        self.0.law_opens(document);
    }
}

impl IfClauseCommand {
    /// Whether the here-document is a redirection of a command in this.
    pub open spec fn holds(&self, document: IoHereDocument) -> bool
        decreases self,
    {
        match self {
            IfClauseCommand { condition, then: body, elses, loc: _ } => {
                ||| condition.holds(document)
                ||| body.holds(document)
                ||| elses matches Some(elses) && exists|i: int|
                    0 <= i < elses@.len() && (#[trigger] elses@[i]).holds(document)
            },
        }
    }

    /// A here-document that this holds is among what it is printed as.
    pub proof fn law_opens(&self, document: IoHereDocument)
        requires
            self.holds(document),
        ensures
            opens(self.doc(), document.lines()),
        decreases self,
    {
        match self {
            IfClauseCommand { condition, then: body, elses, loc: _ } => {
                if condition.holds(document) {
                    condition.law_opens(document);
                } else if body.holds(document) {
                    body.law_opens(document);
                } else if let Some(elses) = elses {
                    assert(decreases_to!(self => self.elses->0));
                    let i = choose|i: int|
                        0 <= i < elses@.len() && (#[trigger] elses@[i]).holds(document);
                    elses@[i].law_opens(document);
                    lemma_elses_doc_opens(elses@, elses@.len() as int, i, document.lines());
                }
            },
        }
    }
}

impl ElseClause {
    /// Whether the here-document is a redirection of a command in this.
    pub open spec fn holds(&self, document: IoHereDocument) -> bool
        decreases self,
    {
        ||| self.condition matches Some(condition) && condition.holds(document)
        ||| self.body.holds(document)
    }

    /// A here-document that this holds is among what it is printed as.
    pub proof fn law_opens(&self, document: IoHereDocument)
        requires
            self.holds(document),
        ensures
            opens(self.doc(), document.lines()),
        decreases self,
    {
        if self.body.holds(document) {
            self.body.law_opens(document);
        } else if let Some(condition) = &self.condition {
            condition.law_opens(document);
        }
    }
}

impl CoprocessCommand {
    /// Whether the here-document is a redirection of a command in this.
    pub open spec fn holds(&self, document: IoHereDocument) -> bool
        decreases self,
    {
        self.body.holds(document)
    }

    /// A here-document that this holds is among what it is printed as.
    pub proof fn law_opens(&self, document: IoHereDocument)
        requires
            self.holds(document),
        ensures
            opens(self.doc(), document.lines()),
        decreases self,
    {
        self.body.law_opens(document);
    }
}

impl CaseItem {
    /// Whether the here-document is a redirection of a command in this.
    pub open spec fn holds(&self, document: IoHereDocument) -> bool
        decreases self,
    {
        self.cmd matches Some(cmd) && cmd.holds(document)
    }

    /// A here-document that this holds is among what it is printed as.
    pub proof fn law_opens(&self, document: IoHereDocument)
        requires
            self.holds(document),
        ensures
            opens(self.doc(), document.lines()),
        decreases self,
    {
        if let Some(cmd) = &self.cmd {
            cmd.law_opens(document);
        }
    }
}

impl WhileOrUntilClauseCommand {
    /// Whether the here-document is a redirection of a command in this.
    pub open spec fn holds(&self, document: IoHereDocument) -> bool
        decreases self,
    {
        self.0.holds(document) || self.1.holds(document)
    }

    /// A here-document that this holds is among what it is printed as.
    pub proof fn law_opens(&self, document: IoHereDocument)
        requires
            self.holds(document),
        ensures
            opens(self.doc(), document.lines()),
        decreases self,
    {
        if self.0.holds(document) {
            self.0.law_opens(document);
        } else {
            self.1.law_opens(document);
        }
    }
}

impl FunctionDefinition {
    /// Whether the here-document is a redirection of a command in this.
    pub open spec fn holds(&self, document: IoHereDocument) -> bool
        decreases self,
    {
        self.body.holds(document)
    }

    /// A here-document that this holds is among what it is printed as.
    pub proof fn law_opens(&self, document: IoHereDocument)
        requires
            self.holds(document),
        ensures
            opens(self.doc(), document.lines()),
        decreases self,
    {
        self.body.law_opens(document);
    }
}

impl FunctionBody {
    /// Whether the here-document is a redirection of a command in this.
    pub open spec fn holds(&self, document: IoHereDocument) -> bool
        decreases self,
    {
        ||| self.0.holds(document)
        ||| self.1 matches Some(r) && r.holds(document)
    }

    /// A here-document that this holds is among what it is printed as.
    pub proof fn law_opens(&self, document: IoHereDocument)
        requires
            self.holds(document),
        ensures
            opens(self.doc(), document.lines()),
        decreases self,
    {
        if self.0.holds(document) {
            self.0.law_opens(document);
        } else if let Some(r) = &self.1 {
            r.law_opens(document);
        }
        assert(self.doc() == self.0.doc() + (match &self.1 {
            Some(r) => r.doc(),
            None => nothing(),
        }));
    }
}

impl BraceGroupCommand {
    /// Whether the here-document is a redirection of a command in this.
    pub open spec fn holds(&self, document: IoHereDocument) -> bool
        decreases self,
    {
        self.list.holds(document)
    }

    /// A here-document that this holds is among what it is printed as.
    pub proof fn law_opens(&self, document: IoHereDocument)
        requires
            self.holds(document),
        ensures
            opens(self.doc(), document.lines()),
        decreases self,
    {
        self.list.law_opens(document);
    }
}

impl DoGroupCommand {
    /// Whether the here-document is a redirection of a command in this.
    pub open spec fn holds(&self, document: IoHereDocument) -> bool
        decreases self,
    {
        self.list.holds(document)
    }

    /// A here-document that this holds is among what it is printed as.
    pub proof fn law_opens(&self, document: IoHereDocument)
        requires
            self.holds(document),
        ensures
            opens(self.doc(), document.lines()),
        decreases self,
    {
        self.list.law_opens(document);
    }
}

impl SimpleCommand {
    /// Whether the here-document is a redirection of a command in this.
    pub open spec fn holds(&self, document: IoHereDocument) -> bool
        decreases self,
    {
        ||| self.prefix matches Some(prefix) && prefix.holds(document)
        ||| self.suffix matches Some(suffix) && suffix.holds(document)
    }

    /// A here-document that this holds is among what it is printed as.
    pub proof fn law_opens(&self, document: IoHereDocument)
        requires
            self.holds(document),
        ensures
            opens(self.doc(), document.lines()),
        decreases self,
    {
        match (&self.prefix, &self.suffix) {
            (Some(prefix), _) if prefix.holds(document) => prefix.law_opens(document),
            (_, Some(suffix)) => suffix.law_opens(document),
            _ => {},
        }
    }
}

impl CommandPrefix {
    /// Whether the here-document is a redirection of a command in this.
    pub open spec fn holds(&self, document: IoHereDocument) -> bool
        decreases self,
    {
        exists|i: int| 0 <= i < self.0@.len() && (#[trigger] self.0@[i]).holds(document)
    }

    /// A here-document that this holds is among what it is printed as.
    pub proof fn law_opens(&self, document: IoHereDocument)
        requires
            self.holds(document),
        ensures
            opens(self.doc(), document.lines()),
        decreases self,
    {
        let i = choose|i: int|
            0 <= i < self.0@.len() && (#[trigger] self.0@[i]).holds(document);
        self.0@[i].law_opens(document);
        lemma_affix_doc_opens(self.0@, self.0@.len() as int, i, document.lines());
    }
}

impl CommandSuffix {
    /// Whether the here-document is a redirection of a command in this.
    pub open spec fn holds(&self, document: IoHereDocument) -> bool
        decreases self,
    {
        exists|i: int| 0 <= i < self.0@.len() && (#[trigger] self.0@[i]).holds(document)
    }

    /// A here-document that this holds is among what it is printed as.
    pub proof fn law_opens(&self, document: IoHereDocument)
        requires
            self.holds(document),
        ensures
            opens(self.doc(), document.lines()),
        decreases self,
    {
        let i = choose|i: int|
            0 <= i < self.0@.len() && (#[trigger] self.0@[i]).holds(document);
        self.0@[i].law_opens(document);
        lemma_affix_doc_opens(self.0@, self.0@.len() as int, i, document.lines());
    }
}

impl CommandPrefixOrSuffixItem {
    /// Whether the here-document is a redirection of a command in this.
    pub open spec fn holds(&self, document: IoHereDocument) -> bool
        decreases self,
    {
        match self {
            CommandPrefixOrSuffixItem::IoRedirect(r) => r.holds(document),
            CommandPrefixOrSuffixItem::ProcessSubstitution(_, c) => c.list.holds(document),
            _ => false,
        }
    }

    /// A here-document that this holds is among what it is printed as.
    pub proof fn law_opens(&self, document: IoHereDocument)
        requires
            self.holds(document),
        ensures
            opens(self.doc(), document.lines()),
        decreases self,
    {
        match self {
            CommandPrefixOrSuffixItem::IoRedirect(r) => r.law_opens(document),
            CommandPrefixOrSuffixItem::ProcessSubstitution(_, c) => c.list.law_opens(document),
            _ => {},
        }
    }
}

impl RedirectList {
    /// Whether the here-document is a redirection of a command in this.
    pub open spec fn holds(&self, document: IoHereDocument) -> bool
        decreases self,
    {
        exists|i: int| 0 <= i < self.0@.len() && (#[trigger] self.0@[i]).holds(document)
    }

    /// A here-document that this holds is among what it is printed as.
    pub proof fn law_opens(&self, document: IoHereDocument)
        requires
            self.holds(document),
        ensures
            opens(self.doc(), document.lines()),
        decreases self,
    {
        let i = choose|i: int|
            0 <= i < self.0@.len() && (#[trigger] self.0@[i]).holds(document);
        self.0@[i].law_opens(document);
        lemma_redirects_doc_opens(self.0@, self.0@.len() as int, i, document.lines());
    }
}

impl IoRedirect {
    /// Whether the here-document is a redirection of a command in this.
    pub open spec fn holds(&self, document: IoHereDocument) -> bool
        decreases self,
    {
        match self {
            IoRedirect::File(_, _, target) => target.holds(document),
            IoRedirect::HereDocument(_, d) => *d == document,
            _ => false,
        }
    }

    /// A here-document that this holds is among what it is printed as.
    pub proof fn law_opens(&self, document: IoHereDocument)
        requires
            self.holds(document),
        ensures
            opens(self.doc(), document.lines()),
        decreases self,
    {
        match self {
            IoRedirect::File(_, _, target) => target.law_opens(document),
            _ => {},
        }
    }
}

impl IoFileRedirectTarget {
    /// Whether the here-document is a redirection of a command in this.
    pub open spec fn holds(&self, document: IoHereDocument) -> bool
        decreases self,
    {
        match self {
            IoFileRedirectTarget::ProcessSubstitution(_, c) => c.list.holds(document),
            _ => false,
        }
    }

    /// A here-document that this holds is among what it is printed as.
    pub proof fn law_opens(&self, document: IoHereDocument)
        requires
            self.holds(document),
        ensures
            opens(self.doc(), document.lines()),
        decreases self,
    {
        match self {
            IoFileRedirectTarget::ProcessSubstitution(_, c) => c.list.law_opens(document),
            _ => {},
        }
    }
}

/// Every here-document of a program is printed, however deep the command that opens it is nested:
/// its lines, with the terminator on the last of them, begin at column 0 and are followed by a
/// newline.
pub proof fn law_program_prints_here_documents(program: Program, document: IoHereDocument)
    requires
        program.holds(document),
    ensures
        at_line_start(printed(program.doc()), document.lines() + "\n"@),
{
    program.law_opens(document);
    law_program_leaves_nothing_waiting(program, Rendering::empty());
    law_here_docs_printed(program.doc(), document.lines());
}

/// Every here-document of a function definition is printed, at column 0 and with its terminator,
/// even one that a redirection of the function body opens.
pub proof fn law_function_prints_here_documents(f: FunctionDefinition, document: IoHereDocument)
    requires
        f.holds(document),
    ensures
        at_line_start(printed(f.doc()), document.lines() + "\n"@),
{
    f.law_opens(document);
    law_function_definition_leaves_nothing_waiting(f, Rendering::empty());
    law_here_docs_printed(f.doc(), document.lines());
}

} // verus!
