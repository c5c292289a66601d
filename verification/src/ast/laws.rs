//! What holds of every printed and located node.

use vstd::prelude::*;
use vstd::std_specs::cmp::PartialEqSpec;
use vstd::std_specs::convert::{FromSpec, IntoSpec};

use super::display::{complete_commands_doc, items_doc, TerminatedCompoundList};
use super::{
    AndOr, AndOrList, AssignmentName, CompoundList, CompoundListItem, FunctionDefinition,
    IoHereDocument, Pipeline, PipelineOperator, Program, SeparatorOperator, SourceLocation, Word,
};
use crate::layout::{
    group_layout, layout, line_end, nothing, plain, unfolded, Doc, Rendering,
};
use crate::render::Display;
use crate::source::SourceSpan;

verus! {

broadcast use group_layout;

proof fn lemma_line_end_leaves_nothing(d: Doc, separator: Seq<char>, r: Rendering)
    ensures
        layout(d + line_end(separator), r).pending.len() == 0,
{
    reveal(Rendering::plain);
    reveal(Rendering::flushed);
    assert(unfolded(d + line_end(separator)));
}

/// A program leaves no here-document body waiting, whatever was waiting before it: none can leak
/// into what is printed later.
pub proof fn law_program_leaves_nothing_waiting(program: Program, r: Rendering)
    ensures
        layout(program.doc(), r).pending.len() == 0,
{
    let n = program.complete_commands@.len() as int;
    lemma_line_end_leaves_nothing(
        complete_commands_doc(program.complete_commands@, n),
        Seq::empty(),
        r,
    );
}

/// A function definition leaves no here-document body waiting, not even one that a redirection of
/// the function body opened.
pub proof fn law_function_definition_leaves_nothing_waiting(f: FunctionDefinition, r: Rendering)
    ensures
        layout(f.doc(), r).pending.len() == 0,
{
    lemma_line_end_leaves_nothing(
        plain(f.fname.value@) + plain(" () \n"@) + f.body.doc(),
        Seq::empty(),
        r,
    );
}

/// A list that is not empty leaves no here-document body waiting: each is printed at the end of
/// its command's line.
pub proof fn law_list_leaves_nothing_waiting(list: CompoundList, r: Rendering)
    requires
        list.0@.len() > 0,
    ensures
        layout(list.doc(), r).pending.len() == 0,
        layout(list.terminated_doc(), r).pending.len() == 0,
{
    let d = law_terminated_list(list);
    let separator = list.0@.last().1;
    lemma_line_end_leaves_nothing(d, separator.text(), r);
    lemma_line_end_leaves_nothing(d, Seq::empty(), r);
}

proof fn lemma_items_before_last(items: Seq<CompoundListItem>, n: int)
    requires
        n < items.len(),
    ensures
        items_doc(items, n, true) == items_doc(items, n, false),
    decreases n,
{
    if n > 0 {
        lemma_items_before_last(items, n - 1);
    }
}

/// The body of a block that a reserved word closes differs from any other list in one thing: a `;`
/// at the very end is kept.
pub proof fn law_terminated_list(list: CompoundList) -> (d: Doc)
    requires
        list.0@.len() > 0,
    ensures
        list.terminated_doc() == d + line_end(list.0@.last().1.text()),
        list.doc() == d + line_end(
            match list.0@.last().1 {
                SeparatorOperator::Sequence => Seq::empty(),
                SeparatorOperator::Async => "&"@,
            },
        ),
{
    let items = list.0@;
    let n = items.len() as int;
    lemma_items_before_last(items, n - 1);
    items_doc(items, n - 1, false) + (if n > 1 {
        plain("\n"@)
    } else {
        nothing()
    }) + items[n - 1].0.doc()
}

/// The terminator of a here-document is on a line of its own, after the body; where the body does
/// not end its last line, that line is ended first.
pub proof fn law_terminator_on_its_own_line(document: IoHereDocument) -> (body: Seq<char>)
    ensures
        document.lines() == body + document.here_end.value@,
        body == document.doc.value@ || body == document.doc.value@.push('\n'),
        body.len() == 0 || body.last() == '\n',
        document.doc.value@.len() == 0 || document.doc.value@.last() == '\n' ==> body
            == document.doc.value@,
{
    reveal_strlit("\n");
    let text = document.doc.value@;
    let body = text + (if text.len() > 0 && text.last() != '\n' {
        "\n"@
    } else {
        Seq::empty()
    });
    assert(body == text || body == text.push('\n'));
    body
}

/// The location of a list of one item is that of the item, and so is that of an and-or list
/// without additional pipelines.
pub proof fn law_location_of_one(list: CompoundList, and_ors: AndOrList)
    ensures
        list.0@.len() == 1 ==> list.span() == list.0@[0].span(),
        and_ors.additional@.len() == 0 ==> and_ors.span() == and_ors.first.span(),
{
}

/// A list starts where its first item does and ends where its last one does.
pub proof fn law_location_of_list(list: CompoundList, first: SourceSpan, last: SourceSpan)
    requires
        list.0@.len() > 0,
        list.0@.first().span() == Some(first),
        list.0@.last().span() == Some(last),
    ensures
        list.span() matches Some(span) && span.start == first.start && span.end == last.end,
{
}

/// An and-or list has one pipeline more than it has additional ones, and they come in order.
pub proof fn law_pipelines(list: AndOrList)
    ensures
        list.pipelines().len() == list.additional@.len() + 1,
        list.pipelines()[0] == (PipelineOperator::And, list.first),
        forall|i: int|
            0 <= i < list.additional@.len() ==> #[trigger] list.pipelines()[i + 1] == (
                list.additional@[i].operator(),
                list.additional@[i].pipeline(),
            ),
{
}

/// An operator equals an item of an and-or list where the item converts into that operator.
pub proof fn law_operator_of_item(operator: PipelineOperator, item: AndOr)
    ensures
        operator.eq_spec(&item) <==> <AndOr as IntoSpec<PipelineOperator>>::into_spec(item)
            == operator,
{
}

/// A word made from a text flattens back to that text.
pub proof fn law_word_flattens(text: String)
    ensures
        <Word as FromSpec<String>>::from_spec(text).value == text,
{
}

/// An item of an and-or list converts into the operator before its pipeline, and an operator equals
/// just the items that it stands before.
pub proof fn law_operator_conversions(pipeline: Pipeline)
    ensures
        <AndOr as IntoSpec<PipelineOperator>>::into_spec(AndOr::And(pipeline))
            == PipelineOperator::And,
        <AndOr as IntoSpec<PipelineOperator>>::into_spec(AndOr::Or(pipeline))
            == PipelineOperator::Or,
        PipelineOperator::And.eq_spec(&AndOr::And(pipeline)),
        PipelineOperator::Or.eq_spec(&AndOr::Or(pipeline)),
        !PipelineOperator::And.eq_spec(&AndOr::Or(pipeline)),
        !PipelineOperator::Or.eq_spec(&AndOr::And(pipeline)),
{
}

/// The base name of an assignment is its name, whatever the index.
pub proof fn law_base_name(name: String, index: String, other: String)
    ensures
        AssignmentName::VariableName(name).base() == name,
        AssignmentName::ArrayElementName(name, index).base() == name,
        AssignmentName::ArrayElementName(name, index).base() == AssignmentName::ArrayElementName(
            name,
            other,
        ).base(),
{
}

/// A list that keeps its trailing `;` is printed as the body of a block is.
pub proof fn law_terminated_view(list: &CompoundList, r: Rendering)
    ensures
        layout(TerminatedCompoundList(list).doc(), r) == layout(list.terminated_doc(), r),
{
}

} // verus!
