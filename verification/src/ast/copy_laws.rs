//! A copy of a command is printed and located as the command is.

use vstd::prelude::*;

use super::display::{
    affix_doc, and_ors_doc, cases_doc, commands_doc, complete_commands_doc, elses_doc, items_doc,
    redirects_doc,
};
use super::{
    AndOr, AndOrList, ArithmeticForClauseCommand, Assignment, AssignmentValue, BraceGroupCommand,
    CaseClauseCommand, CaseItem, Command, CommandPrefix, CommandPrefixOrSuffixItem, CommandSuffix,
    CompoundCommand, CompoundList, CompoundListItem, CoprocessCommand, DoGroupCommand, ElseClause,
    ForClauseCommand, FunctionBody, FunctionDefinition, IfClauseCommand, IoFileRedirectTarget,
    IoRedirect, Pipeline, Program, RedirectList, SimpleCommand, SourceLocation, SubshellCommand,
    WhileOrUntilClauseCommand,
};
use crate::render::Display;

verus! {

proof fn lemma_complete_commands_doc(a: Seq<CompoundList>, b: Seq<CompoundList>, n: int)
    requires
        a.len() == b.len(),
        forall|i: int| 0 <= i < a.len() ==> (#[trigger] a[i]).doc() == b[i].doc(),
    ensures
        complete_commands_doc(a, n) == complete_commands_doc(b, n),
    decreases n,
{
    if 0 < n <= a.len() {
        lemma_complete_commands_doc(a, b, n - 1);
        assert(a[n - 1].doc() == b[n - 1].doc());
    }
}

proof fn lemma_and_ors_doc(a: Seq<AndOr>, b: Seq<AndOr>, n: int)
    requires
        a.len() == b.len(),
        forall|i: int| 0 <= i < a.len() ==> (#[trigger] a[i]).doc() == b[i].doc(),
    ensures
        and_ors_doc(a, n) == and_ors_doc(b, n),
    decreases n,
{
    if 0 < n <= a.len() {
        lemma_and_ors_doc(a, b, n - 1);
        assert(a[n - 1].doc() == b[n - 1].doc());
    }
}

proof fn lemma_commands_doc(a: Seq<Command>, b: Seq<Command>, n: int)
    requires
        a.len() == b.len(),
        forall|i: int| 0 <= i < a.len() ==> (#[trigger] a[i]).doc() == b[i].doc(),
    ensures
        commands_doc(a, n) == commands_doc(b, n),
    decreases n,
{
    if 0 < n <= a.len() {
        lemma_commands_doc(a, b, n - 1);
        assert(a[n - 1].doc() == b[n - 1].doc());
    }
}

proof fn lemma_cases_doc(a: Seq<CaseItem>, b: Seq<CaseItem>, n: int)
    requires
        a.len() == b.len(),
        forall|i: int| 0 <= i < a.len() ==> (#[trigger] a[i]).doc() == b[i].doc(),
    ensures
        cases_doc(a, n) == cases_doc(b, n),
    decreases n,
{
    if 0 < n <= a.len() {
        lemma_cases_doc(a, b, n - 1);
        assert(a[n - 1].doc() == b[n - 1].doc());
    }
}

proof fn lemma_elses_doc(a: Seq<ElseClause>, b: Seq<ElseClause>, n: int)
    requires
        a.len() == b.len(),
        forall|i: int| 0 <= i < a.len() ==> (#[trigger] a[i]).doc() == b[i].doc(),
    ensures
        elses_doc(a, n) == elses_doc(b, n),
    decreases n,
{
    if 0 < n <= a.len() {
        lemma_elses_doc(a, b, n - 1);
        assert(a[n - 1].doc() == b[n - 1].doc());
    }
}

proof fn lemma_affix_doc(
    a: Seq<CommandPrefixOrSuffixItem>,
    b: Seq<CommandPrefixOrSuffixItem>,
    n: int,
)
    requires
        a.len() == b.len(),
        forall|i: int| 0 <= i < a.len() ==> (#[trigger] a[i]).doc() == b[i].doc(),
    ensures
        affix_doc(a, n) == affix_doc(b, n),
    decreases n,
{
    if 0 < n <= a.len() {
        lemma_affix_doc(a, b, n - 1);
        assert(a[n - 1].doc() == b[n - 1].doc());
    }
}

proof fn lemma_redirects_doc(a: Seq<IoRedirect>, b: Seq<IoRedirect>, n: int)
    requires
        a.len() == b.len(),
        forall|i: int| 0 <= i < a.len() ==> (#[trigger] a[i]).doc() == b[i].doc(),
    ensures
        redirects_doc(a, n) == redirects_doc(b, n),
    decreases n,
{
    if 0 < n <= a.len() {
        lemma_redirects_doc(a, b, n - 1);
        assert(a[n - 1].doc() == b[n - 1].doc());
    }
}

proof fn lemma_items_doc(a: Seq<CompoundListItem>, b: Seq<CompoundListItem>, n: int, keep: bool)
    requires
        a.len() == b.len(),
        forall|i: int| 0 <= i < a.len() ==> (#[trigger] a[i]).0.doc() == b[i].0.doc(),
        forall|i: int| 0 <= i < a.len() ==> (#[trigger] a[i]).1 == b[i].1,
    ensures
        items_doc(a, n, keep) == items_doc(b, n, keep),
    decreases n,
{
    if 0 < n <= a.len() {
        lemma_items_doc(a, b, n - 1, keep);
        assert(a[n - 1].0.doc() == b[n - 1].0.doc());
        assert(a[n - 1].1 == b[n - 1].1);
    }
}

impl Program {
    /// A copy is printed and located as this is.
    pub proof fn law_copy(&self, other: &Program)
        requires
            self.same(other),
        ensures
            self.doc() == other.doc(),
            self.span() == other.span(),
    {
        let a = self.complete_commands@;
        let b = other.complete_commands@;
        assert forall|i: int| 0 <= i < a.len() implies (#[trigger] a[i]).doc() == b[i].doc()
            && a[i].span() == b[i].span() by {
            a[i].law_copy(&b[i]);
        }
        lemma_complete_commands_doc(a, b, a.len() as int);
    }
}

impl AndOrList {
    /// A copy is printed and located as this is.
    pub proof fn law_copy(&self, other: &AndOrList)
        requires
            self.same(other),
        ensures
            self.doc() == other.doc(),
            self.span() == other.span(),
        decreases self,
    {
        self.first.law_copy(&other.first);
        let a = self.additional@;
        let b = other.additional@;
        assert forall|i: int| 0 <= i < a.len() implies (#[trigger] a[i]).doc() == b[i].doc()
            && a[i].span() == b[i].span() by {
            a[i].law_copy(&b[i]);
        }
        lemma_and_ors_doc(a, b, a.len() as int);
    }
}

impl AndOr {
    /// A copy is printed and located as this is.
    pub proof fn law_copy(&self, other: &AndOr)
        requires
            self.same(other),
        ensures
            self.doc() == other.doc(),
            self.span() == other.span(),
        decreases self,
    {
        match (self, other) {
            (AndOr::And(a), AndOr::And(b)) => a.law_copy(b),
            (AndOr::Or(a), AndOr::Or(b)) => a.law_copy(b),
            _ => {},
        }
    }
}

impl Pipeline {
    /// A copy is printed and located as this is.
    pub proof fn law_copy(&self, other: &Pipeline)
        requires
            self.same(other),
        ensures
            self.doc() == other.doc(),
            self.span() == other.span(),
        decreases self,
    {
        assert forall|i: int| 0 <= i < self.seq@.len() implies (#[trigger] self.seq@[i]).doc()
            == other.seq@[i].doc() && self.seq@[i].span() == other.seq@[i].span() by {
            self.seq@[i].law_copy(&other.seq@[i]);
        }
        lemma_commands_doc(self.seq@, other.seq@, self.seq@.len() as int);
    }
}

impl Command {
    /// A copy is printed and located as this is.
    pub proof fn law_copy(&self, other: &Command)
        requires
            self.same(other),
        ensures
            self.doc() == other.doc(),
            self.span() == other.span(),
        decreases self,
    {
        match (self, other) {
            (Command::Simple(a), Command::Simple(b)) => a.law_copy(b),
            (Command::Compound(a, r), Command::Compound(b, s)) => {
                a.law_copy(b);
                match (r, s) {
                    (Some(r), Some(s)) => r.law_copy(s),
                    _ => {},
                }
            },
            (Command::Function(a), Command::Function(b)) => a.law_copy(b),
            _ => {},
        }
    }
}

impl CompoundCommand {
    /// A copy is printed and located as this is.
    pub proof fn law_copy(&self, other: &CompoundCommand)
        requires
            self.same(other),
        ensures
            self.doc() == other.doc(),
            self.span() == other.span(),
        decreases self,
    {
        match (self, other) {
            (
                CompoundCommand::ArithmeticForClause(a),
                CompoundCommand::ArithmeticForClause(b),
            ) => a.law_copy(b),
            (CompoundCommand::BraceGroup(a), CompoundCommand::BraceGroup(b)) => a.law_copy(b),
            (CompoundCommand::Subshell(a), CompoundCommand::Subshell(b)) => a.law_copy(b),
            (CompoundCommand::ForClause(a), CompoundCommand::ForClause(b)) => a.law_copy(b),
            (CompoundCommand::CaseClause(a), CompoundCommand::CaseClause(b)) => a.law_copy(b),
            (CompoundCommand::IfClause(a), CompoundCommand::IfClause(b)) => a.law_copy(b),
            (CompoundCommand::WhileClause(a), CompoundCommand::WhileClause(b)) => a.law_copy(b),
            (CompoundCommand::UntilClause(a), CompoundCommand::UntilClause(b)) => a.law_copy(b),
            (CompoundCommand::Coprocess(a), CompoundCommand::Coprocess(b)) => a.law_copy(b),
            _ => {},
        }
    }
}

impl SubshellCommand {
    /// A copy is printed and located as this is.
    pub proof fn law_copy(&self, other: &SubshellCommand)
        requires
            self.same(other),
        ensures
            self.doc() == other.doc(),
            self.span() == other.span(),
        decreases self,
    {
        self.list.law_copy(&other.list);
    }
}

impl ForClauseCommand {
    /// A copy is printed and located as this is.
    pub proof fn law_copy(&self, other: &ForClauseCommand)
        requires
            self.same(other),
        ensures
            self.doc() == other.doc(),
            self.span() == other.span(),
        decreases self,
    {
        self.body.law_copy(&other.body);
    }
}

impl ArithmeticForClauseCommand {
    /// A copy is printed and located as this is.
    pub proof fn law_copy(&self, other: &ArithmeticForClauseCommand)
        requires
            self.same(other),
        ensures
            self.doc() == other.doc(),
            self.span() == other.span(),
        decreases self,
    {
        self.body.law_copy(&other.body);
    }
}

impl CaseClauseCommand {
    /// A copy is printed and located as this is.
    pub proof fn law_copy(&self, other: &CaseClauseCommand)
        requires
            self.same(other),
        ensures
            self.doc() == other.doc(),
            self.span() == other.span(),
        decreases self,
    {
        assert forall|i: int| 0 <= i < self.cases@.len() implies (#[trigger] self.cases@[i]).doc()
            == other.cases@[i].doc() by {
            self.cases@[i].law_copy(&other.cases@[i]);
        }
        lemma_cases_doc(self.cases@, other.cases@, self.cases@.len() as int);
    }
}

impl CompoundList {
    /// A copy is printed and located as this is.
    pub proof fn law_copy(&self, other: &CompoundList)
        requires
            self.same(other),
        ensures
            self.doc() == other.doc(),
            self.terminated_doc() == other.terminated_doc(),
            self.span() == other.span(),
        decreases self,
    {
        assert forall|i: int| 0 <= i < self.0@.len() implies {
            &&& (#[trigger] self.0@[i]).0.doc() == other.0@[i].0.doc()
            &&& self.0@[i].1 == other.0@[i].1
            &&& self.0@[i].span() == other.0@[i].span()
        } by {
            self.0@[i].0.law_copy(&other.0@[i].0);
        }
        let n = self.0@.len() as int;
        lemma_items_doc(self.0@, other.0@, n, true);
        lemma_items_doc(self.0@, other.0@, n, false);
    }
}

impl CompoundListItem {
    /// A copy is printed and located as this is.
    pub proof fn law_copy(&self, other: &CompoundListItem)
        requires
            self.same(other),
        ensures
            self.doc() == other.doc(),
            self.span() == other.span(),
    {
        self.0.law_copy(&other.0);
    }
}

impl IfClauseCommand {
    /// A copy is printed and located as this is.
    pub proof fn law_copy(&self, other: &IfClauseCommand)
        requires
            self.same(other),
        ensures
            self.doc() == other.doc(),
            self.span() == other.span(),
        decreases self,
    {
        self.condition.law_copy(&other.condition);
        match (self, other) {
            (IfClauseCommand { then: a, .. }, IfClauseCommand { then: b, .. }) => a.law_copy(b),
        }
        match (self.elses, other.elses) {
            (Some(a), Some(b)) => {
                assert(decreases_to!(self => self.elses->0));
                assert forall|i: int| 0 <= i < a@.len() implies (#[trigger] a@[i]).doc()
                    == b@[i].doc() by {
                    a@[i].law_copy(&b@[i]);
                }
                lemma_elses_doc(a@, b@, a@.len() as int);
            },
            _ => {},
        }
    }
}

impl ElseClause {
    /// A copy is printed as this is.
    pub proof fn law_copy(&self, other: &ElseClause)
        requires
            self.same(other),
        ensures
            self.doc() == other.doc(),
        decreases self,
    {
        match (self.condition, other.condition) {
            (Some(a), Some(b)) => a.law_copy(&b),
            _ => {},
        }
        self.body.law_copy(&other.body);
    }
}

impl CoprocessCommand {
    /// A copy is printed and located as this is.
    pub proof fn law_copy(&self, other: &CoprocessCommand)
        requires
            self.same(other),
        ensures
            self.doc() == other.doc(),
            self.span() == other.span(),
        decreases self,
    {
        self.body.law_copy(&other.body);
    }
}

impl CaseItem {
    /// A copy is printed and located as this is.
    pub proof fn law_copy(&self, other: &CaseItem)
        requires
            self.same(other),
        ensures
            self.doc() == other.doc(),
            self.span() == other.span(),
        decreases self,
    {
        match (self.cmd, other.cmd) {
            (Some(a), Some(b)) => a.law_copy(&b),
            _ => {},
        }
    }
}

impl WhileOrUntilClauseCommand {
    /// A copy is printed and located as this is.
    pub proof fn law_copy(&self, other: &WhileOrUntilClauseCommand)
        requires
            self.same(other),
        ensures
            self.doc() == other.doc(),
            self.span() == other.span(),
        decreases self,
    {
        self.0.law_copy(&other.0);
        self.1.law_copy(&other.1);
    }
}

impl FunctionDefinition {
    /// A copy is printed and located as this is.
    pub proof fn law_copy(&self, other: &FunctionDefinition)
        requires
            self.same(other),
        ensures
            self.doc() == other.doc(),
            self.span() == other.span(),
        decreases self,
    {
        self.body.law_copy(&other.body);
    }
}

impl FunctionBody {
    /// A copy is printed and located as this is.
    pub proof fn law_copy(&self, other: &FunctionBody)
        requires
            self.same(other),
        ensures
            self.doc() == other.doc(),
            self.span() == other.span(),
        decreases self,
    {
        self.0.law_copy(&other.0);
        match (self.1, other.1) {
            (Some(a), Some(b)) => a.law_copy(&b),
            _ => {},
        }
    }
}

impl BraceGroupCommand {
    /// A copy is printed and located as this is.
    pub proof fn law_copy(&self, other: &BraceGroupCommand)
        requires
            self.same(other),
        ensures
            self.doc() == other.doc(),
            self.span() == other.span(),
        decreases self,
    {
        self.list.law_copy(&other.list);
    }
}

impl DoGroupCommand {
    /// A copy is printed as this is.
    pub proof fn law_copy(&self, other: &DoGroupCommand)
        requires
            self.same(other),
        ensures
            self.doc() == other.doc(),
        decreases self,
    {
        self.list.law_copy(&other.list);
    }
}

impl SimpleCommand {
    /// A copy is printed and located as this is.
    pub proof fn law_copy(&self, other: &SimpleCommand)
        requires
            self.same(other),
        ensures
            self.doc() == other.doc(),
            self.span() == other.span(),
        decreases self,
    {
        match (self.prefix, other.prefix) {
            (Some(a), Some(b)) => a.law_copy(&b),
            _ => {},
        }
        match (self.suffix, other.suffix) {
            (Some(a), Some(b)) => a.law_copy(&b),
            _ => {},
        }
    }
}

impl CommandPrefix {
    /// A copy is printed and located as this is.
    pub proof fn law_copy(&self, other: &CommandPrefix)
        requires
            self.same(other),
        ensures
            self.doc() == other.doc(),
            self.span() == other.span(),
        decreases self,
    {
        assert forall|i: int| 0 <= i < self.0@.len() implies (#[trigger] self.0@[i]).doc()
            == other.0@[i].doc() && self.0@[i].span() == other.0@[i].span() by {
            self.0@[i].law_copy(&other.0@[i]);
        }
        lemma_affix_doc(self.0@, other.0@, self.0@.len() as int);
    }
}

impl CommandSuffix {
    /// A copy is printed and located as this is.
    pub proof fn law_copy(&self, other: &CommandSuffix)
        requires
            self.same(other),
        ensures
            self.doc() == other.doc(),
            self.span() == other.span(),
        decreases self,
    {
        assert forall|i: int| 0 <= i < self.0@.len() implies (#[trigger] self.0@[i]).doc()
            == other.0@[i].doc() && self.0@[i].span() == other.0@[i].span() by {
            self.0@[i].law_copy(&other.0@[i]);
        }
        lemma_affix_doc(self.0@, other.0@, self.0@.len() as int);
    }
}

impl CommandPrefixOrSuffixItem {
    /// A copy is printed and located as this is.
    pub proof fn law_copy(&self, other: &CommandPrefixOrSuffixItem)
        requires
            self.same(other),
        ensures
            self.doc() == other.doc(),
            self.span() == other.span(),
        decreases self,
    {
        match (self, other) {
            (
                CommandPrefixOrSuffixItem::IoRedirect(a),
                CommandPrefixOrSuffixItem::IoRedirect(b),
            ) => a.law_copy(b),
            (
                CommandPrefixOrSuffixItem::ProcessSubstitution(_, a),
                CommandPrefixOrSuffixItem::ProcessSubstitution(_, b),
            ) => a.list.law_copy(&b.list),
            _ => {},
        }
    }
}

impl Assignment {
    /// A copy is printed and located as this is.
    pub proof fn law_copy(&self, other: &Assignment)
        requires
            self.same(other),
        ensures
            self.doc() == other.doc(),
            self.span() == other.span(),
    {
        self.value.law_copy(&other.value);
    }
}

impl AssignmentValue {
    /// A copy is printed and located as this is.
    pub proof fn law_copy(&self, other: &AssignmentValue)
        requires
            self.same(other),
        ensures
            self.doc() == other.doc(),
            self.span() == other.span(),
    {
    }
}

impl RedirectList {
    /// A copy is printed and located as this is.
    pub proof fn law_copy(&self, other: &RedirectList)
        requires
            self.same(other),
        ensures
            self.doc() == other.doc(),
            self.span() == other.span(),
        decreases self,
    {
        assert forall|i: int| 0 <= i < self.0@.len() implies (#[trigger] self.0@[i]).doc()
            == other.0@[i].doc() && self.0@[i].span() == other.0@[i].span() by {
            self.0@[i].law_copy(&other.0@[i]);
        }
        lemma_redirects_doc(self.0@, other.0@, self.0@.len() as int);
    }
}

impl IoRedirect {
    /// A copy is printed and located as this is.
    pub proof fn law_copy(&self, other: &IoRedirect)
        requires
            self.same(other),
        ensures
            self.doc() == other.doc(),
            self.span() == other.span(),
        decreases self,
    {
        match (self, other) {
            (IoRedirect::File(_, _, a), IoRedirect::File(_, _, b)) => a.law_copy(b),
            _ => {},
        }
    }
}

impl IoFileRedirectTarget {
    /// A copy is printed as this is.
    pub proof fn law_copy(&self, other: &IoFileRedirectTarget)
        requires
            self.same(other),
        ensures
            self.doc() == other.doc(),
        decreases self,
    {
        match (self, other) {
            (
                IoFileRedirectTarget::ProcessSubstitution(_, a),
                IoFileRedirectTarget::ProcessSubstitution(_, b),
            ) => a.list.law_copy(&b.list),
            _ => {},
        }
    }
}

} // verus!
