//! Post-expansion assignment detection for declaration builtins.
//!
//! An assignment word is only recognised as such when the name is a **literal** identifier, so
//! `export ${var}=value` arrives at the builtin as a [`CommandArg::String`]. A shell performs the
//! assignment **after** expansion for declaration builtins (`export` / `declare` / `local` /
//! `readonly` / `typeset`; POSIX XCU 2.9.1), so the builtins re-examine an expanded string operand
//! here: split on the first `=` and treat the left side as the name.

use vstd::prelude::*;

use crate::ast::{Assignment, AssignmentName, AssignmentValue, Word};
use crate::layout::{chars, group_layout, layout, printed, unfolded, Rendering};
use crate::render::Display;
use crate::source::SourceSpan;

verus! {

/// An argument of a command.
#[derive(Debug, PartialEq, Eq)]
pub enum CommandArg {
    /// A plain string.
    String(String),
    /// An assignment, for a declaration builtin.
    Assignment(Assignment),
}

/// An expanded declaration operand that turned out to be an assignment.
#[derive(Debug, PartialEq, Eq)]
pub struct ExpandedAssignment {
    /// Text before the first `=` (without a trailing `+`, if any).
    pub name: String,
    /// Whether the operand used the `+=` append form.
    pub append: bool,
    /// Text after the first `=`, already expanded; used verbatim.
    pub value: String,
}

/// The parts of an operand that is an assignment.
#[verifier::ext_equal]
pub struct AssignmentParts {
    pub name: Seq<char>,
    pub append: bool,
    pub value: Seq<char>,
}

impl AssignmentParts {
    /// The operand that these are the parts of.
    pub open spec fn operand(self) -> Seq<char> {
        self.name + (if self.append {
            "+="@
        } else {
            "="@
        }) + self.value
    }
}

impl View for ExpandedAssignment {
    type V = AssignmentParts;

    open spec fn view(&self) -> AssignmentParts {
        AssignmentParts { name: self.name@, append: self.append, value: self.value@ }
    }
}

/// The position of the first `=`, or the length where there is none.
pub open spec fn first_equals(s: Seq<char>) -> nat
    decreases s.len(),
{
    if s.len() == 0 || s[0] == '=' {
        0
    } else {
        1 + first_equals(s.skip(1))
    }
}

/// What an operand assigns: nothing where it has no `=`, or where the value is a compound array
/// literal. Otherwise the part before the first `=` is the name, without a `+` at its end, and
/// the part after it is the value.
pub open spec fn assigned(s: Seq<char>) -> Option<AssignmentParts> {
    let i = first_equals(s) as int;
    if i >= s.len() {
        None
    } else {
        let left = s.take(i);
        let value = s.skip(i + 1);
        if value.len() > 0 && value[0] == '(' {
            None
        } else if left.len() > 0 && left.last() == '+' {
            Some(AssignmentParts { name: left.drop_last(), append: true, value })
        } else {
            Some(AssignmentParts { name: left, append: false, value })
        }
    }
}

impl ExpandedAssignment {
    /// The assignment that a literal name would have given.
    pub open spec fn assignment(self) -> Assignment {
        Assignment {
            name: AssignmentName::VariableName(self.name),
            value: AssignmentValue::Scalar(Word { value: self.value, loc: None }),
            append: self.append,
            loc: SourceSpan::unknown(),
        }
    }

    /// Re-wrap as the assignment that a literal name would have given, so that a builtin's way of
    /// handling a [`CommandArg::Assignment`] handles it. The value is already expanded and must
    /// not be expanded again: a literal [`Word`] flattens back to itself.
    pub fn into_command_arg(self) -> (arg: CommandArg)
        ensures
            arg == CommandArg::Assignment(self.assignment()),
    {
        CommandArg::Assignment(
            Assignment {
                name: AssignmentName::VariableName(self.name),
                value: AssignmentValue::Scalar(Word::from(self.value)),
                append: self.append,
                loc: SourceSpan::default(),
            },
        )
    }
}

proof fn lemma_first_equals(s: Seq<char>, i: int)
    requires
        0 <= i <= s.len(),
        forall|j: int| 0 <= j < i ==> s[j] != '=',
        i < s.len() ==> s[i] == '=',
    ensures
        first_equals(s) == i,
    decreases s.len(),
{
    if i > 0 {
        lemma_first_equals(s.skip(1), i - 1);
    }
}

fn chars_of(s: &str) -> (text: Vec<char>)
    ensures
        text@ == s@,
{
    let mut text: Vec<char> = Vec::new();
    for c in it: s.chars()
        invariant
            it.seq() == s@,
            text@ == s@.take(it.index()),
    {
        text.push(c);
        assert(s@.take(it.index()).push(c) == s@.take(it.index() + 1));
    }
    assert(s@.take(s@.len() as int) == s@);
    text
}

/// The characters from one position up to another.
fn string_of(text: &Vec<char>, from: usize, to: usize) -> (s: String)
    requires
        from <= to <= text@.len(),
    ensures
        s@ == text@.subrange(from as int, to as int),
{
    let mut s = String::new();
    for i in from..to
        invariant
            from <= i <= to <= text@.len(),
            s@ == text@.subrange(from as int, i as int),
    {
        s.push(text[i]);
        assert(text@.subrange(from as int, i + 1) == text@.subrange(from as int, i as int).push(
            text@[i as int],
        ));
    }
    s
}

/// Split an expanded declaration operand on the first `=`.
///
/// Returns `None` when there is no `=` at all -- the operand is a plain name (`export ${var}`
/// still just marks exported) -- and when the value is a compound array literal (`name=(...)`):
/// only scalar assignments are recognised here, so e.g. `declare +a 'arr=(3 4)'` keeps the
/// builtin's existing handling. The caller validates the name.
pub fn split_expanded_assignment(s: &str) -> (r: Option<ExpandedAssignment>)
    ensures
        r is Some <==> assigned(s@) is Some,
        r matches Some(a) ==> a@ == assigned(s@)->0,
{
    let text = chars_of(s);
    let n: usize = text.len();
    let mut i: usize = 0;
    while i < n && text[i] != '='
        invariant
            text@ == s@,
            n == s@.len(),
            i <= n,
            forall|j: int| 0 <= j < i ==> s@[j] != '=',
        decreases n - i,
    {
        i = i + 1;
    }
    proof {
        lemma_first_equals(s@, i as int);
    }
    if i == n {
        return None;
    }
    if i + 1 < n && text[i + 1] == '(' {
        return None;
    }
    let append: bool = i > 0 && text[i - 1] == '+';
    let name_end: usize = if append {
        i - 1
    } else {
        i
    };
    let r = ExpandedAssignment {
        name: string_of(&text, 0, name_end),
        append,
        value: string_of(&text, i + 1, n),
    };
    assert(r@ =~= assigned(s@)->0);
    Some(r)
}

proof fn lemma_before_first_equals(s: Seq<char>)
    ensures
        first_equals(s) <= s.len(),
        first_equals(s) < s.len() ==> s[first_equals(s) as int] == '=',
        forall|j: int| 0 <= j < first_equals(s) ==> s[j] != '=',
    decreases s.len(),
{
    if s.len() > 0 && s[0] != '=' {
        let rest = s.skip(1);
        lemma_before_first_equals(rest);
        assert forall|j: int| 0 <= j < first_equals(s) implies s[j] != '=' by {
            if j > 0 {
                assert(rest[j - 1] != '=');
            }
        }
    }
}

/// An operand is an assignment just when it has a `=` and no `(` follows the first one.
pub proof fn law_when_assigned(s: Seq<char>)
    ensures
        assigned(s) is Some <==> exists|i: int|
            {
                &&& 0 <= i < s.len()
                &&& #[trigger] s[i] == '='
                &&& forall|j: int| 0 <= j < i ==> s[j] != '='
                &&& i + 1 < s.len() ==> s[i + 1] != '('
            },
{
    lemma_before_first_equals(s);
}

/// The parts of an operand, put together again, are the operand; the name holds no `=`, and the
/// value is no compound array literal.
pub proof fn law_operand_restored(s: Seq<char>)
    ensures
        assigned(s) matches Some(parts) ==> {
            &&& parts.operand() == s
            &&& s == parts.name + (if parts.append {
                "+="@
            } else {
                "="@
            }) + parts.value
            &&& !parts.name.contains('=')
            &&& parts.value.len() == 0 || parts.value[0] != '('
        },
{
    lemma_before_first_equals(s);
    reveal_strlit("+=");
    reveal_strlit("=");
    if let Some(parts) = assigned(s) {
        assert(parts.operand() =~= s);
    }
}

/// An operand that is put together from a name without `=`, an operator and a value that is no
/// compound array literal is split into just these. A plain `=` does not go with a name that ends
/// with `+`, which would make it the append form.
pub proof fn law_operand_split(parts: AssignmentParts)
    requires
        !parts.name.contains('='),
        parts.value.len() == 0 || parts.value[0] != '(',
        parts.append || parts.name.len() == 0 || parts.name.last() != '+',
    ensures
        assigned(parts.operand()) == Some(parts),
{
    reveal_strlit("+=");
    reveal_strlit("=");
    let s = parts.operand();
    let i: int = parts.name.len() + (if parts.append {
        1int
    } else {
        0int
    });
    assert forall|j: int| 0 <= j < i implies s[j] != '=' by {
        if j < parts.name.len() {
            assert(s[j] == parts.name[j]);
        }
    }
    assert(s[i] == '=');
    lemma_first_equals(s, i);
    assert(s.skip(i + 1) == parts.value);
    let left = s.take(i);
    if parts.append {
        assert(left.last() == '+');
        assert(left.drop_last() == parts.name);
    } else {
        assert(left == parts.name);
    }
}

/// The assignment that an operand is re-wrapped as is printed as the operand.
pub proof fn law_rewrapped_operand_printed(s: Seq<char>, a: ExpandedAssignment)
    requires
        assigned(s) == Some(a@),
    ensures
        printed(a.assignment().doc()) == s,
{
    broadcast use group_layout;

    reveal(Rendering::plain);
    reveal(Rendering::verbatim);
    reveal_strlit("+");
    reveal_strlit("=");
    reveal_strlit("+=");
    law_operand_restored(s);
    let d = a.assignment().doc();
    assert(unfolded(d));
    let text = layout(d, Rendering::empty()).text;
    assert(chars(text) =~= a@.operand());
}

/// The assignment that an operand is re-wrapped as has just its parts: the name without an index,
/// the value as a word, which needs no expansion and has no location, and whether it appends.
pub proof fn law_rewrapped_parts(a: ExpandedAssignment)
    ensures
        a.assignment().name == AssignmentName::VariableName(a.name),
        a.assignment().value matches AssignmentValue::Scalar(word) && word.value == a.value
            && word.loc is None,
        a.assignment().append == a.append,
        a.assignment().loc.start.index == 0 && a.assignment().loc.end.index == 0,
        a.assignment().loc.start.line == 0 && a.assignment().loc.end.line == 0,
        a.assignment().loc.start.column == 0 && a.assignment().loc.end.column == 0,
        a@.name == a.name@ && a@.append == a.append && a@.value == a.value@,
{
}

} // verus!
