//! Copies of commands.
//!
//! Two nodes are the same where their fields are, with lists compared item by item.

use vstd::prelude::*;

use super::{
    AndOr, AndOrList, ArithmeticForClauseCommand, Assignment, AssignmentValue, BraceGroupCommand,
    CaseClauseCommand, CaseItem, Command, CommandPrefix, CommandPrefixOrSuffixItem, CommandSuffix,
    CompoundCommand, CompoundList, CompoundListItem, CoprocessCommand, DoGroupCommand, ElseClause,
    ForClauseCommand, FunctionBody, FunctionDefinition, IfClauseCommand, IoFileRedirectTarget,
    IoRedirect, Pipeline, Program, RedirectList, SimpleCommand, SubshellCommand,
    WhileOrUntilClauseCommand, Word,
};

verus! {

fn clone_words(words: &Vec<Word>) -> (copy: Vec<Word>)
    ensures
        copy@ == words@,
{
    let mut copy: Vec<Word> = Vec::new();
    let n: usize = words.len();
    for i in 0..n
        invariant
            n == words@.len(),
            copy@ == words@.take(i as int),
    {
        copy.push(words[i].clone());
    }
    copy
}

fn clone_elements(elements: &Vec<(Option<Word>, Word)>) -> (copy: Vec<(Option<Word>, Word)>)
    ensures
        copy@ == elements@,
{
    let mut copy: Vec<(Option<Word>, Word)> = Vec::new();
    let n: usize = elements.len();
    for i in 0..n
        invariant
            n == elements@.len(),
            copy@ == elements@.take(i as int),
    {
        let element = &elements[i];
        copy.push((element.0.clone(), element.1.clone()));
    }
    copy
}

impl Program {
    /// Whether the two are the same.
    pub open spec fn same(&self, other: &Program) -> bool {
        &&& self.complete_commands@.len() == other.complete_commands@.len()
        &&& forall|i: int|
            0 <= i < self.complete_commands@.len() ==> (#[trigger] self.complete_commands@[i]).same(
                &other.complete_commands@[i],
            )
    }
}

impl Clone for Program {
    fn clone(&self) -> (copy: Program)
        ensures
            self.same(&copy),
    {
        let mut complete_commands: Vec<CompoundList> = Vec::new();
        let n: usize = self.complete_commands.len();
        for i in 0..n
            invariant
                n == self.complete_commands@.len(),
                complete_commands@.len() == i,
                forall|j: int|
                    0 <= j < i ==> (#[trigger] self.complete_commands@[j]).same(
                        &complete_commands@[j],
                    ),
        {
            complete_commands.push(self.complete_commands[i].clone());
        }
        Program {
            complete_commands,
        }
    }
}

impl AndOrList {
    /// Whether the two are the same.
    pub open spec fn same(&self, other: &AndOrList) -> bool
        decreases self,
    {
        &&& self.first.same(&other.first)
        &&& self.additional@.len() == other.additional@.len()
        &&& forall|i: int|
            0 <= i < self.additional@.len() ==> (#[trigger] self.additional@[i]).same(
                &other.additional@[i],
            )
    }
}

impl Clone for AndOrList {
    fn clone(&self) -> (copy: AndOrList)
        ensures
            self.same(&copy),
        decreases self,
    {
        let mut additional: Vec<AndOr> = Vec::new();
        let n: usize = self.additional.len();
        for i in 0..n
            invariant
                n == self.additional@.len(),
                additional@.len() == i,
                forall|j: int|
                    0 <= j < i ==> (#[trigger] self.additional@[j]).same(&additional@[j]),
        {
            additional.push(self.additional[i].clone());
        }
        AndOrList {
            first: self.first.clone(),
            additional,
        }
    }
}

impl AndOr {
    /// Whether the two are the same.
    pub open spec fn same(&self, other: &AndOr) -> bool
        decreases self,
    {
        match (self, other) {
            (AndOr::And(a), AndOr::And(b)) => a.same(b),
            (AndOr::Or(a), AndOr::Or(b)) => a.same(b),
            _ => false,
        }
    }
}

impl Clone for AndOr {
    fn clone(&self) -> (copy: AndOr)
        ensures
            self.same(&copy),
        decreases self,
    {
        match self {
            AndOr::And(a) => AndOr::And(a.clone()),
            AndOr::Or(a) => AndOr::Or(a.clone()),
        }
    }
}

impl Pipeline {
    /// Whether the two are the same.
    pub open spec fn same(&self, other: &Pipeline) -> bool
        decreases self,
    {
        &&& self.timed == other.timed
        &&& self.bang == other.bang
        &&& self.seq@.len() == other.seq@.len()
        &&& forall|i: int|
            0 <= i < self.seq@.len() ==> (#[trigger] self.seq@[i]).same(&other.seq@[i])
    }
}

impl Clone for Pipeline {
    fn clone(&self) -> (copy: Pipeline)
        ensures
            self.same(&copy),
        decreases self,
    {
        let mut seq: Vec<Command> = Vec::new();
        let n: usize = self.seq.len();
        for i in 0..n
            invariant
                n == self.seq@.len(),
                seq@.len() == i,
                forall|j: int|
                    0 <= j < i ==> (#[trigger] self.seq@[j]).same(&seq@[j]),
        {
            seq.push(self.seq[i].clone());
        }
        Pipeline {
            timed: self.timed.clone(),
            bang: self.bang,
            seq,
        }
    }
}

impl Command {
    /// Whether the two are the same.
    pub open spec fn same(&self, other: &Command) -> bool
        decreases self,
    {
        match (self, other) {
            (Command::Simple(a), Command::Simple(b)) => a.same(b),
            (Command::Compound(a0, a1), Command::Compound(b0, b1)) => a0.same(b0) && (
            match (a1, b1) {
                (Some(a), Some(b)) => a.same(b),
                (None, None) => true,
                _ => false,
            }),
            (Command::Function(a), Command::Function(b)) => a.same(b),
            _ => false,
        }
    }
}

impl Clone for Command {
    fn clone(&self) -> (copy: Command)
        ensures
            self.same(&copy),
        decreases self,
    {
        match self {
            Command::Simple(a) => Command::Simple(a.clone()),
            Command::Compound(a0, a1) => Command::Compound(a0.clone(), match a1 {
                Some(x) => Some(x.clone()),
                None => None,
            }),
            Command::Function(a) => Command::Function(a.clone()),
        }
    }
}

impl CompoundCommand {
    /// Whether the two are the same.
    pub open spec fn same(&self, other: &CompoundCommand) -> bool
        decreases self,
    {
        match (self, other) {
            (CompoundCommand::Arithmetic(a), CompoundCommand::Arithmetic(b)) => a == b,
            (
                CompoundCommand::ArithmeticForClause(a),
                CompoundCommand::ArithmeticForClause(b),
            ) => a.same(b),
            (CompoundCommand::BraceGroup(a), CompoundCommand::BraceGroup(b)) => a.same(b),
            (CompoundCommand::Subshell(a), CompoundCommand::Subshell(b)) => a.same(b),
            (CompoundCommand::ForClause(a), CompoundCommand::ForClause(b)) => a.same(b),
            (CompoundCommand::CaseClause(a), CompoundCommand::CaseClause(b)) => a.same(b),
            (CompoundCommand::IfClause(a), CompoundCommand::IfClause(b)) => a.same(b),
            (CompoundCommand::WhileClause(a), CompoundCommand::WhileClause(b)) => a.same(b),
            (CompoundCommand::UntilClause(a), CompoundCommand::UntilClause(b)) => a.same(b),
            (CompoundCommand::Coprocess(a), CompoundCommand::Coprocess(b)) => a.same(b),
            (CompoundCommand::ExtendedTest(a), CompoundCommand::ExtendedTest(b)) => a == b,
            _ => false,
        }
    }
}

impl Clone for CompoundCommand {
    fn clone(&self) -> (copy: CompoundCommand)
        ensures
            self.same(&copy),
        decreases self,
    {
        match self {
            CompoundCommand::Arithmetic(a) => CompoundCommand::Arithmetic(a.clone()),
            CompoundCommand::ArithmeticForClause(a) => {
                CompoundCommand::ArithmeticForClause(a.clone())
            },
            CompoundCommand::BraceGroup(a) => CompoundCommand::BraceGroup(a.clone()),
            CompoundCommand::Subshell(a) => CompoundCommand::Subshell(a.clone()),
            CompoundCommand::ForClause(a) => CompoundCommand::ForClause(a.clone()),
            CompoundCommand::CaseClause(a) => CompoundCommand::CaseClause(a.clone()),
            CompoundCommand::IfClause(a) => CompoundCommand::IfClause(a.clone()),
            CompoundCommand::WhileClause(a) => CompoundCommand::WhileClause(a.clone()),
            CompoundCommand::UntilClause(a) => CompoundCommand::UntilClause(a.clone()),
            CompoundCommand::Coprocess(a) => CompoundCommand::Coprocess(a.clone()),
            CompoundCommand::ExtendedTest(a) => CompoundCommand::ExtendedTest(a.clone()),
        }
    }
}

impl SubshellCommand {
    /// Whether the two are the same.
    pub open spec fn same(&self, other: &SubshellCommand) -> bool
        decreases self,
    {
        &&& self.list.same(&other.list)
        &&& self.loc == other.loc
    }
}

impl Clone for SubshellCommand {
    fn clone(&self) -> (copy: SubshellCommand)
        ensures
            self.same(&copy),
        decreases self,
    {
        SubshellCommand {
            list: self.list.clone(),
            loc: self.loc.clone(),
        }
    }
}

impl ForClauseCommand {
    /// Whether the two are the same.
    pub open spec fn same(&self, other: &ForClauseCommand) -> bool
        decreases self,
    {
        &&& self.variable_name == other.variable_name
        &&& match (self.values, other.values) {
            (Some(a), Some(b)) => a@ == b@,
            (None, None) => true,
            _ => false,
        }
        &&& self.body.same(&other.body)
        &&& self.loc == other.loc
    }
}

impl Clone for ForClauseCommand {
    fn clone(&self) -> (copy: ForClauseCommand)
        ensures
            self.same(&copy),
        decreases self,
    {
        ForClauseCommand {
            variable_name: self.variable_name.clone(),
            values: match &self.values {
                Some(x) => Some(clone_words(x)),
                None => None,
            },
            body: self.body.clone(),
            loc: self.loc.clone(),
        }
    }
}

impl ArithmeticForClauseCommand {
    /// Whether the two are the same.
    pub open spec fn same(&self, other: &ArithmeticForClauseCommand) -> bool
        decreases self,
    {
        &&& self.initializer == other.initializer
        &&& self.condition == other.condition
        &&& self.updater == other.updater
        &&& self.body.same(&other.body)
        &&& self.loc == other.loc
    }
}

impl Clone for ArithmeticForClauseCommand {
    fn clone(&self) -> (copy: ArithmeticForClauseCommand)
        ensures
            self.same(&copy),
        decreases self,
    {
        ArithmeticForClauseCommand {
            initializer: self.initializer.clone(),
            condition: self.condition.clone(),
            updater: self.updater.clone(),
            body: self.body.clone(),
            loc: self.loc.clone(),
        }
    }
}

impl CaseClauseCommand {
    /// Whether the two are the same.
    pub open spec fn same(&self, other: &CaseClauseCommand) -> bool
        decreases self,
    {
        &&& self.value == other.value
        &&& self.cases@.len() == other.cases@.len()
        &&& forall|i: int|
            0 <= i < self.cases@.len() ==> (#[trigger] self.cases@[i]).same(&other.cases@[i])
        &&& self.loc == other.loc
    }
}

impl Clone for CaseClauseCommand {
    fn clone(&self) -> (copy: CaseClauseCommand)
        ensures
            self.same(&copy),
        decreases self,
    {
        let mut cases: Vec<CaseItem> = Vec::new();
        let n: usize = self.cases.len();
        for i in 0..n
            invariant
                n == self.cases@.len(),
                cases@.len() == i,
                forall|j: int|
                    0 <= j < i ==> (#[trigger] self.cases@[j]).same(&cases@[j]),
        {
            cases.push(self.cases[i].clone());
        }
        CaseClauseCommand {
            value: self.value.clone(),
            cases,
            loc: self.loc.clone(),
        }
    }
}

impl CompoundList {
    /// Whether the two are the same.
    pub open spec fn same(&self, other: &CompoundList) -> bool
        decreases self,
    {
        &&& self.0@.len() == other.0@.len()
        &&& forall|i: int|
            0 <= i < self.0@.len() ==> (#[trigger] self.0@[i]).same(&other.0@[i])
    }
}

impl Clone for CompoundList {
    fn clone(&self) -> (copy: CompoundList)
        ensures
            self.same(&copy),
        decreases self,
    {
        let mut items: Vec<CompoundListItem> = Vec::new();
        let n: usize = self.0.len();
        for i in 0..n
            invariant
                n == self.0@.len(),
                items@.len() == i,
                forall|j: int|
                    0 <= j < i ==> (#[trigger] self.0@[j]).same(&items@[j]),
        {
            items.push(self.0[i].clone());
        }
        CompoundList(items)
    }
}

impl CompoundListItem {
    /// Whether the two are the same.
    pub open spec fn same(&self, other: &CompoundListItem) -> bool
        decreases self,
    {
        &&& self.0.same(&other.0)
        &&& self.1 == other.1
    }
}

impl Clone for CompoundListItem {
    fn clone(&self) -> (copy: CompoundListItem)
        ensures
            self.same(&copy),
        decreases self,
    {
        CompoundListItem(self.0.clone(), self.1)
    }
}

impl IfClauseCommand {
    /// Whether the two are the same.
    pub open spec fn same(&self, other: &IfClauseCommand) -> bool
        decreases self,
    {
        &&& self.condition.same(&other.condition)
        &&& match (self, other) {
            (
                IfClauseCommand { then: a, .. },
                IfClauseCommand { then: b, .. },
            ) => a.same(b),
        }
        &&& match (self.elses, other.elses) {
            (Some(a), Some(b)) => a@.len() == b@.len() && (forall|i: int|
                0 <= i < a@.len() ==> (#[trigger] a@[i]).same(&b@[i])),
            (None, None) => true,
            _ => false,
        }
        &&& self.loc == other.loc
    }
}

impl Clone for IfClauseCommand {
    fn clone(&self) -> (copy: IfClauseCommand)
        ensures
            self.same(&copy),
        decreases self,
    {
        let body = match self {
            IfClauseCommand { then: body, .. } => body.clone(),
        };
        let elses = match &self.elses {
            Some(list) => {
                assert(decreases_to!(self => self.elses->0));
                let mut copy: Vec<ElseClause> = Vec::new();
                let n: usize = list.len();
                for i in 0..n
                    invariant
                        decreases_to!(self => list),
                        n == list@.len(),
                        copy@.len() == i,
                        forall|j: int| 0 <= j < i ==> (#[trigger] list@[j]).same(&copy@[j]),
                {
                    copy.push(list[i].clone());
                }
                Some(copy)
            },
            None => None,
        };
        IfClauseCommand {
            condition: self.condition.clone(),
            then: body,
            elses,
            loc: self.loc.clone(),
        }
    }
}

impl ElseClause {
    /// Whether the two are the same.
    pub open spec fn same(&self, other: &ElseClause) -> bool
        decreases self,
    {
        &&& match (self.condition, other.condition) {
            (Some(a), Some(b)) => a.same(&b),
            (None, None) => true,
            _ => false,
        }
        &&& self.body.same(&other.body)
    }
}

impl Clone for ElseClause {
    fn clone(&self) -> (copy: ElseClause)
        ensures
            self.same(&copy),
        decreases self,
    {
        ElseClause {
            condition: match &self.condition {
                Some(x) => Some(x.clone()),
                None => None,
            },
            body: self.body.clone(),
        }
    }
}

impl CoprocessCommand {
    /// Whether the two are the same.
    pub open spec fn same(&self, other: &CoprocessCommand) -> bool
        decreases self,
    {
        &&& self.name == other.name
        &&& self.body.same(&other.body)
        &&& self.loc == other.loc
    }
}

impl Clone for CoprocessCommand {
    fn clone(&self) -> (copy: CoprocessCommand)
        ensures
            self.same(&copy),
        decreases self,
    {
        CoprocessCommand {
            name: self.name.clone(),
            body: Box::new((*self.body).clone()),
            loc: self.loc.clone(),
        }
    }
}

impl CaseItem {
    /// Whether the two are the same.
    pub open spec fn same(&self, other: &CaseItem) -> bool
        decreases self,
    {
        &&& self.patterns@ == other.patterns@
        &&& match (self.cmd, other.cmd) {
            (Some(a), Some(b)) => a.same(&b),
            (None, None) => true,
            _ => false,
        }
        &&& self.post_action == other.post_action
        &&& self.loc == other.loc
    }
}

impl Clone for CaseItem {
    fn clone(&self) -> (copy: CaseItem)
        ensures
            self.same(&copy),
        decreases self,
    {
        CaseItem {
            patterns: clone_words(&self.patterns),
            cmd: match &self.cmd {
                Some(x) => Some(x.clone()),
                None => None,
            },
            post_action: self.post_action,
            loc: self.loc.clone(),
        }
    }
}

impl WhileOrUntilClauseCommand {
    /// Whether the two are the same.
    pub open spec fn same(&self, other: &WhileOrUntilClauseCommand) -> bool
        decreases self,
    {
        &&& self.0.same(&other.0)
        &&& self.1.same(&other.1)
        &&& self.2 == other.2
    }
}

impl Clone for WhileOrUntilClauseCommand {
    fn clone(&self) -> (copy: WhileOrUntilClauseCommand)
        ensures
            self.same(&copy),
        decreases self,
    {
        WhileOrUntilClauseCommand(self.0.clone(), self.1.clone(), self.2.clone())
    }
}

impl FunctionDefinition {
    /// Whether the two are the same.
    pub open spec fn same(&self, other: &FunctionDefinition) -> bool
        decreases self,
    {
        &&& self.fname == other.fname
        &&& self.body.same(&other.body)
    }
}

impl Clone for FunctionDefinition {
    fn clone(&self) -> (copy: FunctionDefinition)
        ensures
            self.same(&copy),
        decreases self,
    {
        FunctionDefinition {
            fname: self.fname.clone(),
            body: self.body.clone(),
        }
    }
}

impl FunctionBody {
    /// Whether the two are the same.
    pub open spec fn same(&self, other: &FunctionBody) -> bool
        decreases self,
    {
        &&& self.0.same(&other.0)
        &&& match (self.1, other.1) {
            (Some(a), Some(b)) => a.same(&b),
            (None, None) => true,
            _ => false,
        }
    }
}

impl Clone for FunctionBody {
    fn clone(&self) -> (copy: FunctionBody)
        ensures
            self.same(&copy),
        decreases self,
    {
        FunctionBody(self.0.clone(), match &self.1 {
                Some(x) => Some(x.clone()),
                None => None,
            })
    }
}

impl BraceGroupCommand {
    /// Whether the two are the same.
    pub open spec fn same(&self, other: &BraceGroupCommand) -> bool
        decreases self,
    {
        &&& self.list.same(&other.list)
        &&& self.loc == other.loc
    }
}

impl Clone for BraceGroupCommand {
    fn clone(&self) -> (copy: BraceGroupCommand)
        ensures
            self.same(&copy),
        decreases self,
    {
        BraceGroupCommand {
            list: self.list.clone(),
            loc: self.loc.clone(),
        }
    }
}

impl DoGroupCommand {
    /// Whether the two are the same.
    pub open spec fn same(&self, other: &DoGroupCommand) -> bool
        decreases self,
    {
        &&& self.list.same(&other.list)
        &&& self.loc == other.loc
    }
}

impl Clone for DoGroupCommand {
    fn clone(&self) -> (copy: DoGroupCommand)
        ensures
            self.same(&copy),
        decreases self,
    {
        DoGroupCommand {
            list: self.list.clone(),
            loc: self.loc.clone(),
        }
    }
}

impl SimpleCommand {
    /// Whether the two are the same.
    pub open spec fn same(&self, other: &SimpleCommand) -> bool
        decreases self,
    {
        &&& match (self.prefix, other.prefix) {
            (Some(a), Some(b)) => a.same(&b),
            (None, None) => true,
            _ => false,
        }
        &&& self.word_or_name == other.word_or_name
        &&& match (self.suffix, other.suffix) {
            (Some(a), Some(b)) => a.same(&b),
            (None, None) => true,
            _ => false,
        }
    }
}

impl Clone for SimpleCommand {
    fn clone(&self) -> (copy: SimpleCommand)
        ensures
            self.same(&copy),
        decreases self,
    {
        SimpleCommand {
            prefix: match &self.prefix {
                Some(x) => Some(x.clone()),
                None => None,
            },
            word_or_name: self.word_or_name.clone(),
            suffix: match &self.suffix {
                Some(x) => Some(x.clone()),
                None => None,
            },
        }
    }
}

impl CommandPrefix {
    /// Whether the two are the same.
    pub open spec fn same(&self, other: &CommandPrefix) -> bool
        decreases self,
    {
        &&& self.0@.len() == other.0@.len()
        &&& forall|i: int|
            0 <= i < self.0@.len() ==> (#[trigger] self.0@[i]).same(&other.0@[i])
    }
}

impl Clone for CommandPrefix {
    fn clone(&self) -> (copy: CommandPrefix)
        ensures
            self.same(&copy),
        decreases self,
    {
        let mut items: Vec<CommandPrefixOrSuffixItem> = Vec::new();
        let n: usize = self.0.len();
        for i in 0..n
            invariant
                n == self.0@.len(),
                items@.len() == i,
                forall|j: int|
                    0 <= j < i ==> (#[trigger] self.0@[j]).same(&items@[j]),
        {
            items.push(self.0[i].clone());
        }
        CommandPrefix(items)
    }
}

impl CommandSuffix {
    /// Whether the two are the same.
    pub open spec fn same(&self, other: &CommandSuffix) -> bool
        decreases self,
    {
        &&& self.0@.len() == other.0@.len()
        &&& forall|i: int|
            0 <= i < self.0@.len() ==> (#[trigger] self.0@[i]).same(&other.0@[i])
    }
}

impl Clone for CommandSuffix {
    fn clone(&self) -> (copy: CommandSuffix)
        ensures
            self.same(&copy),
        decreases self,
    {
        let mut items: Vec<CommandPrefixOrSuffixItem> = Vec::new();
        let n: usize = self.0.len();
        for i in 0..n
            invariant
                n == self.0@.len(),
                items@.len() == i,
                forall|j: int|
                    0 <= j < i ==> (#[trigger] self.0@[j]).same(&items@[j]),
        {
            items.push(self.0[i].clone());
        }
        CommandSuffix(items)
    }
}

impl CommandPrefixOrSuffixItem {
    /// Whether the two are the same.
    pub open spec fn same(&self, other: &CommandPrefixOrSuffixItem) -> bool
        decreases self,
    {
        match (self, other) {
            (
                CommandPrefixOrSuffixItem::IoRedirect(a),
                CommandPrefixOrSuffixItem::IoRedirect(b),
            ) => a.same(b),
            (CommandPrefixOrSuffixItem::Word(a), CommandPrefixOrSuffixItem::Word(b)) => a == b,
            (
                CommandPrefixOrSuffixItem::AssignmentWord(a0, a1),
                CommandPrefixOrSuffixItem::AssignmentWord(b0, b1),
            ) => a0.same(b0) && a1 == b1,
            (
                CommandPrefixOrSuffixItem::ProcessSubstitution(a0, a1),
                CommandPrefixOrSuffixItem::ProcessSubstitution(b0, b1),
            ) => a0 == b0 && a1.same(b1),
            _ => false,
        }
    }
}

impl Clone for CommandPrefixOrSuffixItem {
    fn clone(&self) -> (copy: CommandPrefixOrSuffixItem)
        ensures
            self.same(&copy),
        decreases self,
    {
        match self {
            CommandPrefixOrSuffixItem::IoRedirect(a) => {
                CommandPrefixOrSuffixItem::IoRedirect(a.clone())
            },
            CommandPrefixOrSuffixItem::Word(a) => CommandPrefixOrSuffixItem::Word(a.clone()),
            CommandPrefixOrSuffixItem::AssignmentWord(a0, a1) => {
                CommandPrefixOrSuffixItem::AssignmentWord(a0.clone(), a1.clone())
            },
            CommandPrefixOrSuffixItem::ProcessSubstitution(a0, a1) => {
                CommandPrefixOrSuffixItem::ProcessSubstitution(*a0, a1.clone())
            },
        }
    }
}

impl Assignment {
    /// Whether the two are the same.
    pub open spec fn same(&self, other: &Assignment) -> bool {
        &&& self.name == other.name
        &&& self.value.same(&other.value)
        &&& self.append == other.append
        &&& self.loc == other.loc
    }
}

impl Clone for Assignment {
    fn clone(&self) -> (copy: Assignment)
        ensures
            self.same(&copy),
    {
        Assignment {
            name: self.name.clone(),
            value: self.value.clone(),
            append: self.append,
            loc: self.loc.clone(),
        }
    }
}

impl AssignmentValue {
    /// Whether the two are the same.
    pub open spec fn same(&self, other: &AssignmentValue) -> bool {
        match (self, other) {
            (AssignmentValue::Scalar(a), AssignmentValue::Scalar(b)) => a == b,
            (AssignmentValue::Array(a), AssignmentValue::Array(b)) => a@ == b@,
            _ => false,
        }
    }
}

impl Clone for AssignmentValue {
    fn clone(&self) -> (copy: AssignmentValue)
        ensures
            self.same(&copy),
    {
        match self {
            AssignmentValue::Scalar(a) => AssignmentValue::Scalar(a.clone()),
            AssignmentValue::Array(a) => AssignmentValue::Array(clone_elements(a)),
        }
    }
}

impl RedirectList {
    /// Whether the two are the same.
    pub open spec fn same(&self, other: &RedirectList) -> bool
        decreases self,
    {
        &&& self.0@.len() == other.0@.len()
        &&& forall|i: int|
            0 <= i < self.0@.len() ==> (#[trigger] self.0@[i]).same(&other.0@[i])
    }
}

impl Clone for RedirectList {
    fn clone(&self) -> (copy: RedirectList)
        ensures
            self.same(&copy),
        decreases self,
    {
        let mut items: Vec<IoRedirect> = Vec::new();
        let n: usize = self.0.len();
        for i in 0..n
            invariant
                n == self.0@.len(),
                items@.len() == i,
                forall|j: int|
                    0 <= j < i ==> (#[trigger] self.0@[j]).same(&items@[j]),
        {
            items.push(self.0[i].clone());
        }
        RedirectList(items)
    }
}

impl IoRedirect {
    /// Whether the two are the same.
    pub open spec fn same(&self, other: &IoRedirect) -> bool
        decreases self,
    {
        match (self, other) {
            (
                IoRedirect::File(a0, a1, a2),
                IoRedirect::File(b0, b1, b2),
            ) => a0 == b0 && a1 == b1 && a2.same(b2),
            (
                IoRedirect::HereDocument(a0, a1),
                IoRedirect::HereDocument(b0, b1),
            ) => a0 == b0 && a1 == b1,
            (
                IoRedirect::HereString(a0, a1),
                IoRedirect::HereString(b0, b1),
            ) => a0 == b0 && a1 == b1,
            (
                IoRedirect::OutputAndError(a0, a1),
                IoRedirect::OutputAndError(b0, b1),
            ) => a0 == b0 && a1 == b1,
            _ => false,
        }
    }
}

impl Clone for IoRedirect {
    fn clone(&self) -> (copy: IoRedirect)
        ensures
            self.same(&copy),
            *self !is File ==> copy == *self,
        decreases self,
    {
        match self {
            IoRedirect::File(a0, a1, a2) => IoRedirect::File(*a0, *a1, a2.clone()),
            IoRedirect::HereDocument(a0, a1) => IoRedirect::HereDocument(*a0, a1.clone()),
            IoRedirect::HereString(a0, a1) => IoRedirect::HereString(*a0, a1.clone()),
            IoRedirect::OutputAndError(a0, a1) => IoRedirect::OutputAndError(a0.clone(), *a1),
        }
    }
}

impl IoFileRedirectTarget {
    /// Whether the two are the same.
    pub open spec fn same(&self, other: &IoFileRedirectTarget) -> bool
        decreases self,
    {
        match (self, other) {
            (IoFileRedirectTarget::Filename(a), IoFileRedirectTarget::Filename(b)) => a == b,
            (IoFileRedirectTarget::Fd(a), IoFileRedirectTarget::Fd(b)) => a == b,
            (
                IoFileRedirectTarget::ProcessSubstitution(a0, a1),
                IoFileRedirectTarget::ProcessSubstitution(b0, b1),
            ) => a0 == b0 && a1.same(b1),
            (IoFileRedirectTarget::Duplicate(a), IoFileRedirectTarget::Duplicate(b)) => a == b,
            _ => false,
        }
    }
}

impl Clone for IoFileRedirectTarget {
    fn clone(&self) -> (copy: IoFileRedirectTarget)
        ensures
            self.same(&copy),
            *self !is ProcessSubstitution ==> copy == *self,
        decreases self,
    {
        match self {
            IoFileRedirectTarget::Filename(a) => IoFileRedirectTarget::Filename(a.clone()),
            IoFileRedirectTarget::Fd(a) => IoFileRedirectTarget::Fd(*a),
            IoFileRedirectTarget::ProcessSubstitution(a0, a1) => {
                IoFileRedirectTarget::ProcessSubstitution(*a0, a1.clone())
            },
            IoFileRedirectTarget::Duplicate(a) => IoFileRedirectTarget::Duplicate(a.clone()),
        }
    }
}

} // verus!
