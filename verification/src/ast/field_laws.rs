//! A copy of a command agrees with it in every field.
//!
//! Each law is about the fields of one node; the nodes in it are the same in turn, so that a copy
//! agrees with what it is a copy of at every depth, also in what neither its text nor its location
//! shows.

use vstd::prelude::*;

use super::{
    AndOr, AndOrList, ArithmeticForClauseCommand, Assignment, AssignmentValue, BraceGroupCommand,
    CaseClauseCommand, CaseItem, Command, CommandPrefix, CommandPrefixOrSuffixItem, CommandSuffix,
    CompoundCommand, CompoundList, CompoundListItem, CoprocessCommand, DoGroupCommand, ElseClause,
    ForClauseCommand, FunctionBody, FunctionDefinition, IfClauseCommand, IoFileRedirectTarget,
    IoHereDocument, IoRedirect, Pipeline, Program, RedirectList, SimpleCommand, SubshellCommand,
    WhileOrUntilClauseCommand,
};

verus! {

impl Program {
    /// A copy agrees with this in every field.
    pub proof fn law_copy_fields(&self, other: &Program)
        requires
            self.same(other),
        ensures
            other.complete_commands@.len() == self.complete_commands@.len(),
            forall|i: int|
                0 <= i < self.complete_commands@.len() ==> (
                #[trigger] self.complete_commands@[i]).same(&other.complete_commands@[i]),
    {
    }
}

impl AndOrList {
    /// A copy agrees with this in every field.
    pub proof fn law_copy_fields(&self, other: &AndOrList)
        requires
            self.same(other),
        ensures
            self.first.same(&other.first),
            other.additional@.len() == self.additional@.len(),
            forall|i: int|
                0 <= i < self.additional@.len() ==> (#[trigger] self.additional@[i]).same(
                    &other.additional@[i],
                ),
    {
    }
}

impl AndOr {
    /// A copy agrees with this in every field.
    pub proof fn law_copy_fields(&self, other: &AndOr)
        requires
            self.same(other),
        ensures
            *self is And <==> *other is And,
            *self is And ==> self->And_0.same(&other->And_0),
            *self is Or ==> self->Or_0.same(&other->Or_0),
    {
    }
}

impl Pipeline {
    /// A copy agrees with this in every field.
    pub proof fn law_copy_fields(&self, other: &Pipeline)
        requires
            self.same(other),
        ensures
            other.timed == self.timed,
            other.bang == self.bang,
            other.seq@.len() == self.seq@.len(),
            forall|i: int|
                0 <= i < self.seq@.len() ==> (#[trigger] self.seq@[i]).same(&other.seq@[i]),
    {
    }
}

impl Command {
    /// A copy agrees with this in every field.
    pub proof fn law_copy_fields(&self, other: &Command)
        requires
            self.same(other),
        ensures
            *self is Simple ==> *other is Simple && self->Simple_0.same(&other->Simple_0),
            *self is Compound ==> {
                &&& *other is Compound
                &&& self->Compound_0.same(&other->Compound_0)
                &&& self->Compound_1 is Some <==> other->Compound_1 is Some
                &&& self->Compound_1 is Some ==> self->Compound_1->0.same(&other->Compound_1->0)
            },
            *self is Function ==> *other is Function && self->Function_0.same(&other->Function_0),
    {
    }
}

impl CompoundCommand {
    /// A copy agrees with this in every field.
    pub proof fn law_copy_fields(&self, other: &CompoundCommand)
        requires
            self.same(other),
        ensures
            *self is Arithmetic ==> *other == *self,
            *self is ExtendedTest ==> *other == *self,
            *self is ArithmeticForClause ==> *other is ArithmeticForClause
                && self->ArithmeticForClause_0.same(&other->ArithmeticForClause_0),
            *self is BraceGroup ==> *other is BraceGroup && self->BraceGroup_0.same(
                &other->BraceGroup_0,
            ),
            *self is Subshell ==> *other is Subshell && self->Subshell_0.same(
                &other->Subshell_0,
            ),
            *self is ForClause ==> *other is ForClause && self->ForClause_0.same(
                &other->ForClause_0,
            ),
            *self is CaseClause ==> *other is CaseClause && self->CaseClause_0.same(
                &other->CaseClause_0,
            ),
            *self is IfClause ==> *other is IfClause && self->IfClause_0.same(
                &other->IfClause_0,
            ),
            *self is WhileClause ==> *other is WhileClause && self->WhileClause_0.same(
                &other->WhileClause_0,
            ),
            *self is UntilClause ==> *other is UntilClause && self->UntilClause_0.same(
                &other->UntilClause_0,
            ),
            *self is Coprocess ==> *other is Coprocess && self->Coprocess_0.same(
                &other->Coprocess_0,
            ),
    {
    }
}

impl SubshellCommand {
    /// A copy agrees with this in every field.
    pub proof fn law_copy_fields(&self, other: &SubshellCommand)
        requires
            self.same(other),
        ensures
            self.list.same(&other.list),
            other.loc == self.loc,
    {
    }
}

impl ForClauseCommand {
    /// A copy agrees with this in every field.
    pub proof fn law_copy_fields(&self, other: &ForClauseCommand)
        requires
            self.same(other),
        ensures
            other.variable_name == self.variable_name,
            other.loc == self.loc,
            other.values is Some <==> self.values is Some,
            self.values is Some ==> other.values->0@ == self.values->0@,
            self.body.same(&other.body),
    {
    }
}

impl ArithmeticForClauseCommand {
    /// A copy agrees with this in every field.
    pub proof fn law_copy_fields(&self, other: &ArithmeticForClauseCommand)
        requires
            self.same(other),
        ensures
            other.initializer == self.initializer,
            other.condition == self.condition,
            other.updater == self.updater,
            other.loc == self.loc,
            self.body.same(&other.body),
    {
    }
}

impl CaseClauseCommand {
    /// A copy agrees with this in every field.
    pub proof fn law_copy_fields(&self, other: &CaseClauseCommand)
        requires
            self.same(other),
        ensures
            other.value == self.value,
            other.loc == self.loc,
            other.cases@.len() == self.cases@.len(),
            forall|i: int|
                0 <= i < self.cases@.len() ==> (#[trigger] self.cases@[i]).same(&other.cases@[i]),
    {
    }
}

impl CompoundList {
    /// A copy agrees with this in every field.
    pub proof fn law_copy_fields(&self, other: &CompoundList)
        requires
            self.same(other),
        ensures
            other.0@.len() == self.0@.len(),
            forall|i: int|
                0 <= i < self.0@.len() ==> (#[trigger] self.0@[i]).same(&other.0@[i]),
    {
    }
}

impl CompoundListItem {
    /// A copy agrees with this in every field.
    pub proof fn law_copy_fields(&self, other: &CompoundListItem)
        requires
            self.same(other),
        ensures
            self.0.same(&other.0),
            other.1 == self.1,
    {
    }
}

impl IfClauseCommand {
    /// A copy agrees with this in every field.
    pub proof fn law_copy_fields(&self, other: &IfClauseCommand)
        requires
            self.same(other),
        ensures
            self.condition.same(&other.condition),
            self matches IfClauseCommand { then: a, .. } && other matches IfClauseCommand {
                then: b,
                ..
            } && a.same(b),
            other.elses is Some <==> self.elses is Some,
            self.elses is Some ==> self.elses->0@.len() == other.elses->0@.len(),
            self.elses is Some ==> forall|i: int|
                0 <= i < self.elses->0@.len() ==> (#[trigger] self.elses->0@[i]).same(
                    &other.elses->0@[i],
                ),
            other.loc == self.loc,
    {
    }
}

impl ElseClause {
    /// A copy agrees with this in every field.
    pub proof fn law_copy_fields(&self, other: &ElseClause)
        requires
            self.same(other),
        ensures
            other.condition is Some <==> self.condition is Some,
            self.condition is Some ==> self.condition->0.same(&other.condition->0),
            self.body.same(&other.body),
    {
    }
}

impl CoprocessCommand {
    /// A copy agrees with this in every field.
    pub proof fn law_copy_fields(&self, other: &CoprocessCommand)
        requires
            self.same(other),
        ensures
            other.name == self.name,
            other.loc == self.loc,
            self.body.same(&other.body),
    {
    }
}

impl CaseItem {
    /// A copy agrees with this in every field.
    pub proof fn law_copy_fields(&self, other: &CaseItem)
        requires
            self.same(other),
        ensures
            other.patterns@ == self.patterns@,
            other.cmd is Some <==> self.cmd is Some,
            self.cmd is Some ==> self.cmd->0.same(&other.cmd->0),
            other.post_action == self.post_action,
            other.loc == self.loc,
    {
    }
}

impl WhileOrUntilClauseCommand {
    /// A copy agrees with this in every field.
    pub proof fn law_copy_fields(&self, other: &WhileOrUntilClauseCommand)
        requires
            self.same(other),
        ensures
            self.0.same(&other.0),
            self.1.same(&other.1),
            other.2 == self.2,
    {
    }
}

impl FunctionDefinition {
    /// A copy agrees with this in every field.
    pub proof fn law_copy_fields(&self, other: &FunctionDefinition)
        requires
            self.same(other),
        ensures
            other.fname == self.fname,
            self.body.same(&other.body),
    {
    }
}

impl FunctionBody {
    /// A copy agrees with this in every field.
    pub proof fn law_copy_fields(&self, other: &FunctionBody)
        requires
            self.same(other),
        ensures
            self.0.same(&other.0),
            other.1 is Some <==> self.1 is Some,
            self.1 is Some ==> self.1->0.same(&other.1->0),
    {
    }
}

impl BraceGroupCommand {
    /// A copy agrees with this in every field.
    pub proof fn law_copy_fields(&self, other: &BraceGroupCommand)
        requires
            self.same(other),
        ensures
            self.list.same(&other.list),
            other.loc == self.loc,
    {
    }
}

impl DoGroupCommand {
    /// A copy agrees with this in every field.
    pub proof fn law_copy_fields(&self, other: &DoGroupCommand)
        requires
            self.same(other),
        ensures
            self.list.same(&other.list),
            other.loc == self.loc,
    {
    }
}

impl SimpleCommand {
    /// A copy agrees with this in every field.
    pub proof fn law_copy_fields(&self, other: &SimpleCommand)
        requires
            self.same(other),
        ensures
            other.prefix is Some <==> self.prefix is Some,
            self.prefix is Some ==> self.prefix->0.same(&other.prefix->0),
            other.word_or_name == self.word_or_name,
            other.suffix is Some <==> self.suffix is Some,
            self.suffix is Some ==> self.suffix->0.same(&other.suffix->0),
    {
    }
}

impl CommandPrefix {
    /// A copy agrees with this in every field.
    pub proof fn law_copy_fields(&self, other: &CommandPrefix)
        requires
            self.same(other),
        ensures
            other.0@.len() == self.0@.len(),
            forall|i: int|
                0 <= i < self.0@.len() ==> (#[trigger] self.0@[i]).same(&other.0@[i]),
    {
    }
}

impl CommandSuffix {
    /// A copy agrees with this in every field.
    pub proof fn law_copy_fields(&self, other: &CommandSuffix)
        requires
            self.same(other),
        ensures
            other.0@.len() == self.0@.len(),
            forall|i: int|
                0 <= i < self.0@.len() ==> (#[trigger] self.0@[i]).same(&other.0@[i]),
    {
    }
}

impl CommandPrefixOrSuffixItem {
    /// A copy agrees with this in every field.
    pub proof fn law_copy_fields(&self, other: &CommandPrefixOrSuffixItem)
        requires
            self.same(other),
        ensures
            *self is IoRedirect ==> *other is IoRedirect && self->IoRedirect_0.same(
                &other->IoRedirect_0,
            ),
            *self is Word ==> *other == *self,
            *self is AssignmentWord ==> {
                &&& *other is AssignmentWord
                &&& self->AssignmentWord_0.same(&other->AssignmentWord_0)
                &&& other->AssignmentWord_1 == self->AssignmentWord_1
            },
            *self is ProcessSubstitution ==> {
                &&& *other is ProcessSubstitution
                &&& other->ProcessSubstitution_0 == self->ProcessSubstitution_0
                &&& self->ProcessSubstitution_1.same(&other->ProcessSubstitution_1)
            },
    {
    }
}

impl Assignment {
    /// A copy agrees with this in every field.
    pub proof fn law_copy_fields(&self, other: &Assignment)
        requires
            self.same(other),
        ensures
            other.name == self.name,
            other.append == self.append,
            other.loc == self.loc,
            self.value.same(&other.value),
    {
    }
}

impl AssignmentValue {
    /// A copy agrees with this in every field.
    pub proof fn law_copy_fields(&self, other: &AssignmentValue)
        requires
            self.same(other),
        ensures
            *self is Scalar ==> *other == *self,
            *self is Array ==> *other is Array && other->Array_0@ == self->Array_0@,
    {
    }
}

impl RedirectList {
    /// A copy agrees with this in every field.
    pub proof fn law_copy_fields(&self, other: &RedirectList)
        requires
            self.same(other),
        ensures
            other.0@.len() == self.0@.len(),
            forall|i: int|
                0 <= i < self.0@.len() ==> (#[trigger] self.0@[i]).same(&other.0@[i]),
    {
    }
}

impl IoRedirect {
    /// A copy agrees with this in every field.
    pub proof fn law_copy_fields(&self, other: &IoRedirect)
        requires
            self.same(other),
        ensures
            *self is HereDocument ==> *other == *self,
            *self is HereString ==> *other == *self,
            *self is OutputAndError ==> *other == *self,
            *self is File ==> {
                &&& *other is File
                &&& other->File_0 == self->File_0
                &&& other->File_1 == self->File_1
                &&& self->File_2.same(&other->File_2)
            },
    {
    }
}

impl IoFileRedirectTarget {
    /// A copy agrees with this in every field.
    pub proof fn law_copy_fields(&self, other: &IoFileRedirectTarget)
        requires
            self.same(other),
        ensures
            *self is Filename ==> *other == *self,
            *self is Fd ==> *other == *self,
            *self is Duplicate ==> *other == *self,
            *self is ProcessSubstitution ==> {
                &&& *other is ProcessSubstitution
                &&& other->ProcessSubstitution_0 == self->ProcessSubstitution_0
                &&& self->ProcessSubstitution_1.same(&other->ProcessSubstitution_1)
            },
    {
    }
}

impl Program {
    /// A copy holds the same here-documents, each of them equal in every field.
    pub proof fn law_copy_holds(&self, other: &Program, document: IoHereDocument)
        requires
            self.same(other),
        ensures
            self.holds(document) == other.holds(document),
    {
        let a = self.complete_commands@;
        let b = other.complete_commands@;
        assert forall|i: int| 0 <= i < a.len() implies (#[trigger] a[i]).holds(document)
            == b[i].holds(document) by {
            a[i].law_copy_holds(&b[i], document);
        }
        assert forall|i: int| 0 <= i < b.len() implies (#[trigger] b[i]).holds(document)
            == a[i].holds(document) by {
            assert(a[i].holds(document) == b[i].holds(document));
        }
    }
}

impl AndOrList {
    /// A copy holds the same here-documents, each of them equal in every field.
    pub proof fn law_copy_holds(&self, other: &AndOrList, document: IoHereDocument)
        requires
            self.same(other),
        ensures
            self.holds(document) == other.holds(document),
        decreases self,
    {
        self.first.law_copy_holds(&other.first, document);
        let a = self.additional@;
        let b = other.additional@;
        assert forall|i: int| 0 <= i < a.len() implies (#[trigger] a[i]).holds(document)
            == b[i].holds(document) by {
            a[i].law_copy_holds(&b[i], document);
        }
        assert forall|i: int| 0 <= i < b.len() implies (#[trigger] b[i]).holds(document)
            == a[i].holds(document) by {
            assert(a[i].holds(document) == b[i].holds(document));
        }
    }
}

impl AndOr {
    /// A copy holds the same here-documents, each of them equal in every field.
    pub proof fn law_copy_holds(&self, other: &AndOr, document: IoHereDocument)
        requires
            self.same(other),
        ensures
            self.holds(document) == other.holds(document),
        decreases self,
    {
        match (self, other) {
            (AndOr::And(a), AndOr::And(b)) => a.law_copy_holds(b, document),
            (AndOr::Or(a), AndOr::Or(b)) => a.law_copy_holds(b, document),
            _ => {},
        }
    }
}

impl Pipeline {
    /// A copy holds the same here-documents, each of them equal in every field.
    pub proof fn law_copy_holds(&self, other: &Pipeline, document: IoHereDocument)
        requires
            self.same(other),
        ensures
            self.holds(document) == other.holds(document),
        decreases self,
    {
        let a = self.seq@;
        let b = other.seq@;
        assert forall|i: int| 0 <= i < a.len() implies (#[trigger] a[i]).holds(document)
            == b[i].holds(document) by {
            a[i].law_copy_holds(&b[i], document);
        }
        assert forall|i: int| 0 <= i < b.len() implies (#[trigger] b[i]).holds(document)
            == a[i].holds(document) by {
            assert(a[i].holds(document) == b[i].holds(document));
        }
    }
}

impl Command {
    /// A copy holds the same here-documents, each of them equal in every field.
    pub proof fn law_copy_holds(&self, other: &Command, document: IoHereDocument)
        requires
            self.same(other),
        ensures
            self.holds(document) == other.holds(document),
        decreases self,
    {
        match (self, other) {
            (Command::Simple(a), Command::Simple(b)) => a.law_copy_holds(b, document),
            (Command::Compound(a, r), Command::Compound(b, s)) => {
                a.law_copy_holds(b, document);
                match (r, s) {
                    (Some(r), Some(s)) => r.law_copy_holds(s, document),
                    _ => {},
                }
            },
            (Command::Function(a), Command::Function(b)) => a.law_copy_holds(b, document),
            _ => {},
        }
    }
}

impl CompoundCommand {
    /// A copy holds the same here-documents, each of them equal in every field.
    pub proof fn law_copy_holds(&self, other: &CompoundCommand, document: IoHereDocument)
        requires
            self.same(other),
        ensures
            self.holds(document) == other.holds(document),
        decreases self,
    {
        match (self, other) {
            (
                CompoundCommand::ArithmeticForClause(a),
                CompoundCommand::ArithmeticForClause(b),
            ) => a.law_copy_holds(b, document),
            (
                CompoundCommand::BraceGroup(a),
                CompoundCommand::BraceGroup(b),
            ) => a.law_copy_holds(b, document),
            (
                CompoundCommand::Subshell(a),
                CompoundCommand::Subshell(b),
            ) => a.law_copy_holds(b, document),
            (
                CompoundCommand::ForClause(a),
                CompoundCommand::ForClause(b),
            ) => a.law_copy_holds(b, document),
            (
                CompoundCommand::CaseClause(a),
                CompoundCommand::CaseClause(b),
            ) => a.law_copy_holds(b, document),
            (
                CompoundCommand::IfClause(a),
                CompoundCommand::IfClause(b),
            ) => a.law_copy_holds(b, document),
            (
                CompoundCommand::WhileClause(a),
                CompoundCommand::WhileClause(b),
            ) => a.law_copy_holds(b, document),
            (
                CompoundCommand::UntilClause(a),
                CompoundCommand::UntilClause(b),
            ) => a.law_copy_holds(b, document),
            (
                CompoundCommand::Coprocess(a),
                CompoundCommand::Coprocess(b),
            ) => a.law_copy_holds(b, document),
            _ => {},
        }
    }
}

impl SubshellCommand {
    /// A copy holds the same here-documents, each of them equal in every field.
    pub proof fn law_copy_holds(&self, other: &SubshellCommand, document: IoHereDocument)
        requires
            self.same(other),
        ensures
            self.holds(document) == other.holds(document),
        decreases self,
    {
        self.list.law_copy_holds(&other.list, document);
    }
}

impl ForClauseCommand {
    /// A copy holds the same here-documents, each of them equal in every field.
    pub proof fn law_copy_holds(&self, other: &ForClauseCommand, document: IoHereDocument)
        requires
            self.same(other),
        ensures
            self.holds(document) == other.holds(document),
        decreases self,
    {
        self.body.law_copy_holds(&other.body, document);
    }
}

impl ArithmeticForClauseCommand {
    /// A copy holds the same here-documents, each of them equal in every field.
    pub proof fn law_copy_holds(&self, other: &ArithmeticForClauseCommand, document: IoHereDocument)
        requires
            self.same(other),
        ensures
            self.holds(document) == other.holds(document),
        decreases self,
    {
        self.body.law_copy_holds(&other.body, document);
    }
}

impl CaseClauseCommand {
    /// A copy holds the same here-documents, each of them equal in every field.
    pub proof fn law_copy_holds(&self, other: &CaseClauseCommand, document: IoHereDocument)
        requires
            self.same(other),
        ensures
            self.holds(document) == other.holds(document),
        decreases self,
    {
        let a = self.cases@;
        let b = other.cases@;
        assert forall|i: int| 0 <= i < a.len() implies (#[trigger] a[i]).holds(document)
            == b[i].holds(document) by {
            a[i].law_copy_holds(&b[i], document);
        }
        assert forall|i: int| 0 <= i < b.len() implies (#[trigger] b[i]).holds(document)
            == a[i].holds(document) by {
            assert(a[i].holds(document) == b[i].holds(document));
        }
    }
}

impl CompoundList {
    /// A copy holds the same here-documents, each of them equal in every field.
    pub proof fn law_copy_holds(&self, other: &CompoundList, document: IoHereDocument)
        requires
            self.same(other),
        ensures
            self.holds(document) == other.holds(document),
        decreases self,
    {
        let a = self.0@;
        let b = other.0@;
        assert forall|i: int| 0 <= i < a.len() implies (#[trigger] a[i]).holds(document)
            == b[i].holds(document) by {
            a[i].law_copy_holds(&b[i], document);
        }
        assert forall|i: int| 0 <= i < b.len() implies (#[trigger] b[i]).holds(document)
            == a[i].holds(document) by {
            assert(a[i].holds(document) == b[i].holds(document));
        }
    }
}

impl CompoundListItem {
    /// A copy holds the same here-documents, each of them equal in every field.
    pub proof fn law_copy_holds(&self, other: &CompoundListItem, document: IoHereDocument)
        requires
            self.same(other),
        ensures
            self.holds(document) == other.holds(document),
        decreases self,
    {
        self.0.law_copy_holds(&other.0, document);
    }
}

impl IfClauseCommand {
    /// A copy holds the same here-documents, each of them equal in every field.
    pub proof fn law_copy_holds(&self, other: &IfClauseCommand, document: IoHereDocument)
        requires
            self.same(other),
        ensures
            self.holds(document) == other.holds(document),
        decreases self,
    {
        self.condition.law_copy_holds(&other.condition, document);
        match (self, other) {
            (
                IfClauseCommand { then: a, .. },
                IfClauseCommand { then: b, .. },
            ) => a.law_copy_holds(b, document),
        }
        match (self.elses, other.elses) {
            (Some(a), Some(b)) => {
                assert(decreases_to!(self => self.elses->0));
                assert forall|i: int| 0 <= i < a@.len() implies (#[trigger] a@[i]).holds(document)
                    == b@[i].holds(document) by {
                    a@[i].law_copy_holds(&b@[i], document);
                }
                assert forall|i: int| 0 <= i < b@.len() implies (#[trigger] b@[i]).holds(document)
                    == a@[i].holds(document) by {
                    assert(a@[i].holds(document) == b@[i].holds(document));
                }
            },
            _ => {},
        }
    }
}

impl ElseClause {
    /// A copy holds the same here-documents, each of them equal in every field.
    pub proof fn law_copy_holds(&self, other: &ElseClause, document: IoHereDocument)
        requires
            self.same(other),
        ensures
            self.holds(document) == other.holds(document),
        decreases self,
    {
        match (self.condition, other.condition) {
            (Some(a), Some(b)) => a.law_copy_holds(&b, document),
            _ => {},
        }
        self.body.law_copy_holds(&other.body, document);
    }
}

impl CoprocessCommand {
    /// A copy holds the same here-documents, each of them equal in every field.
    pub proof fn law_copy_holds(&self, other: &CoprocessCommand, document: IoHereDocument)
        requires
            self.same(other),
        ensures
            self.holds(document) == other.holds(document),
        decreases self,
    {
        self.body.law_copy_holds(&other.body, document);
    }
}

impl CaseItem {
    /// A copy holds the same here-documents, each of them equal in every field.
    pub proof fn law_copy_holds(&self, other: &CaseItem, document: IoHereDocument)
        requires
            self.same(other),
        ensures
            self.holds(document) == other.holds(document),
        decreases self,
    {
        match (self.cmd, other.cmd) {
            (Some(a), Some(b)) => a.law_copy_holds(&b, document),
            _ => {},
        }
    }
}

impl WhileOrUntilClauseCommand {
    /// A copy holds the same here-documents, each of them equal in every field.
    pub proof fn law_copy_holds(&self, other: &WhileOrUntilClauseCommand, document: IoHereDocument)
        requires
            self.same(other),
        ensures
            self.holds(document) == other.holds(document),
        decreases self,
    {
        self.0.law_copy_holds(&other.0, document);
        self.1.law_copy_holds(&other.1, document);
    }
}

impl FunctionDefinition {
    /// A copy holds the same here-documents, each of them equal in every field.
    pub proof fn law_copy_holds(&self, other: &FunctionDefinition, document: IoHereDocument)
        requires
            self.same(other),
        ensures
            self.holds(document) == other.holds(document),
        decreases self,
    {
        self.body.law_copy_holds(&other.body, document);
    }
}

impl FunctionBody {
    /// A copy holds the same here-documents, each of them equal in every field.
    pub proof fn law_copy_holds(&self, other: &FunctionBody, document: IoHereDocument)
        requires
            self.same(other),
        ensures
            self.holds(document) == other.holds(document),
        decreases self,
    {
        self.0.law_copy_holds(&other.0, document);
        match (self.1, other.1) {
            (Some(a), Some(b)) => a.law_copy_holds(&b, document),
            _ => {},
        }
    }
}

impl BraceGroupCommand {
    /// A copy holds the same here-documents, each of them equal in every field.
    pub proof fn law_copy_holds(&self, other: &BraceGroupCommand, document: IoHereDocument)
        requires
            self.same(other),
        ensures
            self.holds(document) == other.holds(document),
        decreases self,
    {
        self.list.law_copy_holds(&other.list, document);
    }
}

impl DoGroupCommand {
    /// A copy holds the same here-documents, each of them equal in every field.
    pub proof fn law_copy_holds(&self, other: &DoGroupCommand, document: IoHereDocument)
        requires
            self.same(other),
        ensures
            self.holds(document) == other.holds(document),
        decreases self,
    {
        self.list.law_copy_holds(&other.list, document);
    }
}

impl SimpleCommand {
    /// A copy holds the same here-documents, each of them equal in every field.
    pub proof fn law_copy_holds(&self, other: &SimpleCommand, document: IoHereDocument)
        requires
            self.same(other),
        ensures
            self.holds(document) == other.holds(document),
        decreases self,
    {
        match (self.prefix, other.prefix) {
            (Some(a), Some(b)) => a.law_copy_holds(&b, document),
            _ => {},
        }
        match (self.suffix, other.suffix) {
            (Some(a), Some(b)) => a.law_copy_holds(&b, document),
            _ => {},
        }
    }
}

impl CommandPrefix {
    /// A copy holds the same here-documents, each of them equal in every field.
    pub proof fn law_copy_holds(&self, other: &CommandPrefix, document: IoHereDocument)
        requires
            self.same(other),
        ensures
            self.holds(document) == other.holds(document),
        decreases self,
    {
        let a = self.0@;
        let b = other.0@;
        assert forall|i: int| 0 <= i < a.len() implies (#[trigger] a[i]).holds(document)
            == b[i].holds(document) by {
            a[i].law_copy_holds(&b[i], document);
        }
        assert forall|i: int| 0 <= i < b.len() implies (#[trigger] b[i]).holds(document)
            == a[i].holds(document) by {
            assert(a[i].holds(document) == b[i].holds(document));
        }
    }
}

impl CommandSuffix {
    /// A copy holds the same here-documents, each of them equal in every field.
    pub proof fn law_copy_holds(&self, other: &CommandSuffix, document: IoHereDocument)
        requires
            self.same(other),
        ensures
            self.holds(document) == other.holds(document),
        decreases self,
    {
        let a = self.0@;
        let b = other.0@;
        assert forall|i: int| 0 <= i < a.len() implies (#[trigger] a[i]).holds(document)
            == b[i].holds(document) by {
            a[i].law_copy_holds(&b[i], document);
        }
        assert forall|i: int| 0 <= i < b.len() implies (#[trigger] b[i]).holds(document)
            == a[i].holds(document) by {
            assert(a[i].holds(document) == b[i].holds(document));
        }
    }
}

impl CommandPrefixOrSuffixItem {
    /// A copy holds the same here-documents, each of them equal in every field.
    pub proof fn law_copy_holds(&self, other: &CommandPrefixOrSuffixItem, document: IoHereDocument)
        requires
            self.same(other),
        ensures
            self.holds(document) == other.holds(document),
        decreases self,
    {
        match (self, other) {
            (
                CommandPrefixOrSuffixItem::IoRedirect(a),
                CommandPrefixOrSuffixItem::IoRedirect(b),
            ) => a.law_copy_holds(b, document),
            (
                CommandPrefixOrSuffixItem::ProcessSubstitution(_, a),
                CommandPrefixOrSuffixItem::ProcessSubstitution(_, b),
            ) => a.list.law_copy_holds(&b.list, document),
            _ => {},
        }
    }
}

impl RedirectList {
    /// A copy holds the same here-documents, each of them equal in every field.
    pub proof fn law_copy_holds(&self, other: &RedirectList, document: IoHereDocument)
        requires
            self.same(other),
        ensures
            self.holds(document) == other.holds(document),
        decreases self,
    {
        let a = self.0@;
        let b = other.0@;
        assert forall|i: int| 0 <= i < a.len() implies (#[trigger] a[i]).holds(document)
            == b[i].holds(document) by {
            a[i].law_copy_holds(&b[i], document);
        }
        assert forall|i: int| 0 <= i < b.len() implies (#[trigger] b[i]).holds(document)
            == a[i].holds(document) by {
            assert(a[i].holds(document) == b[i].holds(document));
        }
    }
}

impl IoRedirect {
    /// A copy holds the same here-documents, each of them equal in every field.
    pub proof fn law_copy_holds(&self, other: &IoRedirect, document: IoHereDocument)
        requires
            self.same(other),
        ensures
            self.holds(document) == other.holds(document),
        decreases self,
    {
        match (self, other) {
            (IoRedirect::File(_, _, a), IoRedirect::File(_, _, b)) => {
                a.law_copy_holds(b, document)
            },
            _ => {},
        }
    }
}

impl IoFileRedirectTarget {
    /// A copy holds the same here-documents, each of them equal in every field.
    pub proof fn law_copy_holds(&self, other: &IoFileRedirectTarget, document: IoHereDocument)
        requires
            self.same(other),
        ensures
            self.holds(document) == other.holds(document),
        decreases self,
    {
        match (self, other) {
            (
                IoFileRedirectTarget::ProcessSubstitution(_, a),
                IoFileRedirectTarget::ProcessSubstitution(_, b),
            ) => a.list.law_copy_holds(&b.list, document),
            _ => {},
        }
    }
}

} // verus!
