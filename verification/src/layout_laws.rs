//! What holds of every printed document.

use vstd::prelude::*;

use crate::layout::{
    all_newline_terminated, block, chars, concatenated, enclosed, group_layout, here_doc,
    indent_before, indented, law_layout_add, layout, line_end, mark, marks, newline_terminated,
    plain, printed, step, verbatim, Doc, Mark, Piece, Rendering, DISPLAY_INDENT,
};

verus! {

/// One more piece after `before` and what was printed since is one more piece after what was
/// printed since.
proof fn lemma_step_appends(p: Piece, before: Seq<Mark>, a: Rendering, b: Rendering)
    requires
        a.text == before + b.text,
        a.pending == b.pending,
    ensures
        step(p, a).text == before + step(p, b).text,
        step(p, a).pending == step(p, b).pending,
{
    reveal(step);
    reveal(Rendering::plain);
    reveal(Rendering::verbatim);
    reveal(Rendering::deferred);
    reveal(Rendering::flushed);
    assert(step(p, a).text =~= before + step(p, b).text);
}

/// Printing adds to what is printed already, and what it adds depends on nothing but the bodies
/// that are waiting.
pub proof fn law_layout_appends(d: Doc, r: Rendering)
    ensures
        layout(d, r).text == r.text + layout(d, Rendering::waiting(r.pending)).text,
        layout(d, r).pending == layout(d, Rendering::waiting(r.pending)).pending,
    decreases d.len(),
{
    reveal(layout);
    reveal(step);
    if d.len() > 0 {
        let w = Rendering::waiting(r.pending);
        law_layout_appends(d.drop_last(), r);
        lemma_step_appends(d.last(), r.text, layout(d.drop_last(), r), layout(d.drop_last(), w));
    }
}

/// What follows a text, where it is indented together with it: each line start that comes in
/// `tail` is judged by the characters of `tail` alone, the first one by the end of `head`.
proof fn lemma_indented_add(head: Seq<Mark>, tail: Seq<Mark>)
    ensures
        indented(head + tail) == indented(head) + indented_after(head, tail),
    decreases tail.len(),
{
    if tail.len() == 0 {
        assert(head + tail == head);
    } else {
        let all = head + tail;
        let rest = tail.drop_last();
        lemma_indented_add(head, rest);
        assert(all.drop_last() == head + rest);
        assert(all.last() == tail.last());
    }
}

/// What indenting adds for `tail` after `head`.
spec fn indented_after(head: Seq<Mark>, tail: Seq<Mark>) -> Seq<Mark>
    decreases tail.len(),
{
    if tail.len() == 0 {
        Seq::empty()
    } else {
        let all = head + tail;
        let indent = if indent_before(all, all.len() - 1) {
            marks(DISPLAY_INDENT@, tail.last().raw)
        } else {
            Seq::empty()
        };
        indented_after(head, tail.drop_last()) + indent + seq![tail.last()]
    }
}

/// A line that is not empty is indented once, at its start.
pub proof fn law_line_indented(line: Seq<Mark>)
    requires
        line.len() > 0,
        forall|i: int| 0 <= i < line.len() ==> (#[trigger] line[i]).c != '\n',
    ensures
        indented(line) == marks(DISPLAY_INDENT@, line[0].raw) + line,
    decreases line.len(),
{
    let front = line.drop_last();
    if front.len() == 0 {
        assert(indented(front) == Seq::<Mark>::empty());
        assert(line == seq![line.last()]);
    } else {
        law_line_indented(front);
        assert(line[line.len() - 2].c != '\n');
    }
    assert(indented(line) =~= marks(DISPLAY_INDENT@, line[0].raw) + line);
}

/// Lines are indented one by one, where the newline between them is not in a verbatim span.
pub proof fn law_lines_indented(head: Seq<Mark>, tail: Seq<Mark>)
    ensures
        indented(head.push(mark('\n', false)) + tail) == indented(head).push(mark('\n', false))
            + indented(tail),
    decreases tail.len(),
{
    let first = head.push(mark('\n', false));
    let all = first + tail;
    if tail.len() == 0 {
        assert(all == first);
        assert(first.drop_last() == head);
        assert(indented(first) =~= indented(head).push(mark('\n', false)) + indented(tail));
    } else {
        law_lines_indented(head, tail.drop_last());
        assert(all.drop_last() == first + tail.drop_last());
        assert(all.last() == tail.last());
        assert(indent_before(all, all.len() - 1) == indent_before(tail, tail.len() - 1)) by {
            if tail.len() > 1 {
                assert(all[all.len() - 2] == tail[tail.len() - 2]);
            } else {
                assert(all[all.len() - 2] == first.last());
            }
        }
        assert(indented(all) =~= indented(head).push(mark('\n', false)) + indented(tail));
    }
}

/// The indentation that goes before `w` where it is printed after `text` in an indented block.
pub open spec fn lead(text: Seq<Mark>, w: Seq<char>) -> Seq<char> {
    if w.len() > 0 && w[0] != '\n' && (text.len() == 0 || text.last() == mark('\n', false)) {
        DISPLAY_INDENT@
    } else {
        Seq::empty()
    }
}

/// Indenting a verbatim text changes none of it: at most there is indentation before it.
pub proof fn law_verbatim_kept(text: Seq<Mark>, w: Seq<char>)
    ensures
        indented(text + marks(w, true)) == indented(text) + marks(lead(text, w) + w, true),
    decreases w.len(),
{
    let tail = marks(w, true);
    let all = text + tail;
    if w.len() == 0 {
        assert(all == text);
        assert(marks(lead(text, w) + w, true) == Seq::<Mark>::empty());
        assert(indented(text) + Seq::<Mark>::empty() == indented(text));
    } else {
        let rest = w.drop_last();
        law_verbatim_kept(text, rest);
        assert(all.drop_last() == text + marks(rest, true));
        assert(all.last() == mark(w.last(), true));
        if w.len() == 1 {
            assert(marks(lead(text, rest) + rest, true) == Seq::<Mark>::empty());
            assert(indented(all) == indented(text) + marks(lead(text, w) + w, true));
        } else {
            assert(all[all.len() - 2] == mark(w[w.len() - 2], true));
            assert(lead(text, rest) == lead(text, w));
            assert(marks(lead(text, w) + w, true) == marks(lead(text, rest) + rest, true)
                + seq![all.last()]);
        }
    }
}

/// Whether a text holds nothing but spaces.
pub open spec fn only_spaces(s: Seq<char>) -> bool {
    forall|i: int| 0 <= i < s.len() ==> s[i] == ' '
}

/// However deep the nesting, a verbatim text such as a word is printed exactly as it is, after
/// what was printed before and spaces at most.
pub proof fn law_verbatim_kept_at_any_depth(
    outer: Seq<Seq<Mark>>,
    text: Seq<Mark>,
    w: Seq<char>,
) -> (spaces: Seq<char>)
    ensures
        only_spaces(spaces),
        enclosed(outer, text + marks(w, true)) == enclosed(outer, text) + marks(spaces + w, true),
    decreases outer.len(),
{
    if outer.len() == 0 {
        assert(Seq::<char>::empty() + w == w);
        Seq::empty()
    } else {
        law_verbatim_kept(text, w);
        let first = lead(text, w);
        let around = outer.last() + indented(text);
        assert(outer.last() + indented(text + marks(w, true)) == around + marks(first + w, true));
        let more = law_verbatim_kept_at_any_depth(outer.drop_last(), around, first + w);
        reveal_strlit("    ");
        assert(more + (first + w) == (more + first) + w);
        more + first
    }
}

/// However deep the nesting, the bodies of here-documents are printed at column 0: after a
/// newline, and without any indentation.
pub proof fn law_flush_at_column_zero(outer: Seq<Seq<Mark>>, r: Rendering)
    requires
        r.pending.len() > 0,
    ensures
        enclosed(outer, r.flushed().text) == enclosed(outer, r.text) + marks(
            "\n"@ + concatenated(r.pending),
            true,
        ),
        r.flushed().pending.len() == 0,
{
    reveal(Rendering::flushed);
    lemma_raw_newline_kept(outer, r.text, concatenated(r.pending));
}

proof fn lemma_raw_newline_kept(outer: Seq<Seq<Mark>>, text: Seq<Mark>, s: Seq<char>)
    ensures
        enclosed(outer, text + marks("\n"@ + s, true)) == enclosed(outer, text) + marks(
            "\n"@ + s,
            true,
        ),
    decreases outer.len(),
{
    if outer.len() > 0 {
        reveal_strlit("\n");
        let w = "\n"@ + s;
        law_verbatim_kept(text, w);
        assert(lead(text, w) + w == w);
        let around = outer.last() + indented(text);
        assert(outer.last() + indented(text + marks(w, true)) == around + marks(w, true));
        lemma_raw_newline_kept(outer.drop_last(), around, s);
    }
}

/// Whether a document holds a here-document of the given lines, at any depth.
pub open spec fn opens(d: Doc, lines: Seq<char>) -> bool
    decreases d,
{
    d.len() > 0 && (piece_opens(d.last(), lines) || opens(d.drop_last(), lines))
}

/// Whether a piece holds a here-document of the given lines, at any depth.
pub open spec fn piece_opens(p: Piece, lines: Seq<char>) -> bool
    decreases p,
{
    match p {
        Piece::HereDoc(l) => l == lines,
        Piece::Block(d) => opens(d, lines),
        _ => false,
    }
}

/// Whether the block stands in the text at the given position, verbatim and at column 0.
pub open spec fn stands_at(text: Seq<Mark>, block: Seq<char>, k: int) -> bool {
    &&& 0 < k
    &&& k + block.len() <= text.len()
    &&& text[k - 1] == mark('\n', true)
    &&& text.subrange(k, k + block.len()) == marks(block, true)
}

/// Whether the block stands somewhere in the text, verbatim and at column 0.
pub open spec fn stands(text: Seq<Mark>, block: Seq<char>) -> bool {
    exists|k: int| stands_at(text, block, k)
}

/// Whether the block is printed or waiting to be.
pub open spec fn placed(r: Rendering, block: Seq<char>) -> bool {
    r.pending.contains(block) || stands(r.text, block)
}

proof fn lemma_stands_in_sum(a: Seq<Mark>, b: Seq<Mark>, block: Seq<char>)
    ensures
        stands(a, block) ==> stands(a + b, block),
        stands(b, block) ==> stands(a + b, block),
{
    if stands(a, block) {
        let k = choose|k: int| stands_at(a, block, k);
        assert((a + b).subrange(k, k + block.len()) == a.subrange(k, k + block.len()));
        assert(stands_at(a + b, block, k));
    }
    if stands(b, block) {
        let k = choose|k: int| stands_at(b, block, k);
        let j = a.len() + k;
        assert((a + b).subrange(j, j + block.len()) == b.subrange(k, k + block.len()));
        assert(stands_at(a + b, block, j));
    }
}

proof fn lemma_stands_indented(text: Seq<Mark>, block: Seq<char>)
    requires
        stands(text, block),
    ensures
        stands(indented(text), block),
{
    let k = choose|k: int| stands_at(text, block, k);
    let end = k + block.len();
    let head = text.take(k - 1);
    let tail = text.skip(end);
    let w = seq!['\n'] + block;
    assert(text == (head + marks(w, true)) + tail) by {
        assert(text.subrange(k, end) == marks(block, true));
        assert forall|i: int| 0 <= i < text.len() implies text[i] == ((head + marks(w, true))
            + tail)[i] by {
            if k <= i < end {
                assert(text.subrange(k, end)[i - k] == text[i]);
            }
        }
    }
    law_verbatim_kept(head, w);
    lemma_indented_add(head + marks(w, true), tail);
    assert(lead(head, w) + w == w);
    let before = indented(head);
    let j: int = before.len() as int + 1;
    assert((before + marks(w, true)).subrange(j, j + block.len()) == marks(block, true));
    assert(stands_at(before + marks(w, true), block, j));
    lemma_stands_in_sum(
        before + marks(w, true),
        indented_after(head + marks(w, true), tail),
        block,
    );
}

/// Every block of a concatenation of blocks that end lines stands at column 0 after a newline.
proof fn lemma_stands_flushed(blocks: Seq<Seq<char>>, i: int)
    requires
        0 <= i < blocks.len(),
        all_newline_terminated(blocks),
    ensures
        stands(marks("\n"@ + concatenated(blocks), true), blocks[i]),
        newline_terminated("\n"@ + concatenated(blocks)),
    decreases blocks.len(),
{
    reveal_strlit("\n");
    let front = blocks.drop_last();
    let last = blocks.last();
    let before = "\n"@ + concatenated(front);
    let all = "\n"@ + concatenated(blocks);
    assert(all == before + last);
    assert(newline_terminated(last));
    assert(all.last() == last.last());
    assert(marks(all, true) == marks(before, true) + marks(last, true));
    if front.len() > 0 {
        lemma_stands_flushed(front, if i < front.len() { i } else { 0 });
    }
    if i < front.len() {
        lemma_stands_in_sum(marks(before, true), marks(last, true), blocks[i]);
    } else {
        let k = before.len() as int;
        assert(before.last() == '\n');
        assert(marks(all, true).subrange(k, k + last.len()) == marks(last, true));
        assert(stands_at(marks(all, true), last, k));
    }
}

proof fn lemma_flushed_placed(r: Rendering, block: Seq<char>)
    requires
        all_newline_terminated(r.pending),
        placed(r, block),
    ensures
        stands(r.flushed().text, block) || r.flushed().pending.contains(block),
{
    reveal(Rendering::flushed);
    if r.pending.len() > 0 {
        let added = marks("\n"@ + concatenated(r.pending), true);
        if r.pending.contains(block) {
            let i = choose|i: int| 0 <= i < r.pending.len() && r.pending[i] == block;
            lemma_stands_flushed(r.pending, i);
        }
        lemma_stands_in_sum(r.text, added, block);
    }
}

proof fn lemma_step_placed(p: Piece, r: Rendering, lines: Seq<char>)
    requires
        all_newline_terminated(r.pending),
        placed(r, lines + "\n"@) || piece_opens(p, lines),
    ensures
        all_newline_terminated(step(p, r).pending),
        placed(step(p, r), lines + "\n"@),
    decreases p,
{
    reveal(step);
    reveal(layout);
    reveal(Rendering::plain);
    reveal(Rendering::verbatim);
    reveal(Rendering::deferred);
    let block = lines + "\n"@;
    match p {
        Piece::Plain(s) => {
            lemma_stands_in_sum(r.text, marks(s, false), block);
        },
        Piece::Verbatim(s) => {
            lemma_stands_in_sum(r.text, marks(s, true), block);
        },
        Piece::HereDoc(l) => {
            reveal_strlit("\n");
            let after = r.pending.push(l + "\n"@);
            assert((l + "\n"@).last() == '\n');
            assert(after.last() == l + "\n"@);
            if r.pending.contains(block) {
                let i = choose|i: int| 0 <= i < r.pending.len() && r.pending[i] == block;
                assert(after[i] == block);
            }
        },
        Piece::LineEnd(s) => {
            lemma_stands_in_sum(r.text, marks(s, false), block);
            lemma_flushed_placed(r, block);
            reveal(Rendering::flushed);
        },
        Piece::Block(d) => {
            let inner = Rendering::waiting(r.pending);
            lemma_layout_terminated(d, inner);
            let x = layout(d, inner);
            if stands(r.text, block) {
                lemma_stands_in_sum(r.text, indented(x.text), block);
            } else {
                law_here_docs_placed(d, inner, lines);
                if stands(x.text, block) {
                    lemma_stands_indented(x.text, block);
                    lemma_stands_in_sum(r.text, indented(x.text), block);
                }
            }
        },
    }
}

proof fn lemma_step_terminated(p: Piece, r: Rendering)
    requires
        all_newline_terminated(r.pending),
    ensures
        all_newline_terminated(step(p, r).pending),
    decreases p,
{
    reveal(step);
    reveal(layout);
    reveal(Rendering::plain);
    reveal(Rendering::verbatim);
    reveal(Rendering::deferred);
    reveal(Rendering::flushed);
    match p {
        Piece::HereDoc(l) => {
            reveal_strlit("\n");
            assert((l + "\n"@).last() == '\n');
        },
        Piece::Block(d) => {
            lemma_layout_terminated(d, Rendering::waiting(r.pending));
        },
        _ => {},
    }
}

proof fn lemma_layout_terminated(d: Doc, r: Rendering)
    requires
        all_newline_terminated(r.pending),
    ensures
        all_newline_terminated(layout(d, r).pending),
    decreases d,
{
    reveal(layout);
    reveal(step);
    if d.len() > 0 {
        lemma_layout_terminated(d.drop_last(), r);
        lemma_step_terminated(d.last(), layout(d.drop_last(), r));
    }
}

/// No here-document is lost: each one that a document opens, or that was waiting or printed
/// before it, is afterwards printed at column 0, with its terminator, or waiting.
pub proof fn law_here_docs_placed(d: Doc, r: Rendering, lines: Seq<char>)
    requires
        all_newline_terminated(r.pending),
        placed(r, lines + "\n"@) || opens(d, lines),
    ensures
        placed(layout(d, r), lines + "\n"@),
    decreases d,
{
    reveal(layout);
    reveal(step);
    if d.len() > 0 {
        let front = d.drop_last();
        lemma_layout_terminated(front, r);
        if placed(r, lines + "\n"@) || opens(front, lines) {
            law_here_docs_placed(front, r, lines);
        }
        lemma_step_placed(d.last(), layout(front, r), lines);
    }
}

/// Whether a block stands at the start of a line of the text.
pub open spec fn at_line_start(text: Seq<char>, block: Seq<char>) -> bool {
    exists|k: int| #[trigger] at_line_start_at(text, block, k)
}

pub open spec fn at_line_start_at(text: Seq<char>, block: Seq<char>, k: int) -> bool {
    &&& 0 < k
    &&& k + block.len() <= text.len()
    &&& text[k - 1] == '\n'
    &&& text.subrange(k, k + block.len()) == block
}

/// Where a document leaves nothing waiting, every here-document that it opens, however deep, is in
/// the printed text: its lines, with the terminator on the last of them, begin at column 0 and
/// are followed by a newline.
pub proof fn law_here_docs_printed(d: Doc, lines: Seq<char>)
    requires
        opens(d, lines),
        layout(d, Rendering::empty()).pending.len() == 0,
    ensures
        at_line_start(printed(d), lines + "\n"@),
{
    let block = lines + "\n"@;
    law_here_docs_placed(d, Rendering::empty(), lines);
    let text = layout(d, Rendering::empty()).text;
    let k = choose|k: int| stands_at(text, block, k);
    let found = printed(d).subrange(k, k + block.len());
    assert(text.subrange(k, k + block.len()) == marks(block, true));
    assert forall|i: int| 0 <= i < block.len() implies found[i] == block[i] by {
        assert(marks(block, true)[i] == text[k + i]);
    }
    assert(found == block);
    assert(at_line_start_at(printed(d), block, k));
}

/// How plain text is cut into pieces makes no difference to what is printed.
pub proof fn law_plain_chunks(a: Seq<char>, b: Seq<char>, r: Rendering)
    ensures
        layout(plain(a) + plain(b), r) == layout(plain(a + b), r),
{
    broadcast use group_layout;

    reveal(Rendering::plain);
    law_layout_add(plain(a), plain(b), r);
    assert(r.text + marks(a, false) + marks(b, false) == r.text + marks(a + b, false));
}

/// A document holds a here-document where one of its parts does.
pub broadcast proof fn law_opens_add(a: Doc, b: Doc, lines: Seq<char>)
    ensures
        #[trigger] opens(a + b, lines) == (opens(a, lines) || opens(b, lines)),
    decreases b.len(),
{
    if b.len() == 0 {
        assert(a + b == a);
    } else {
        assert((a + b).drop_last() == a + b.drop_last());
        assert((a + b).last() == b.last());
        law_opens_add(a, b.drop_last(), lines);
    }
}

/// An indented block holds the here-documents that it is made of.
pub broadcast proof fn law_block_opens(d: Doc, lines: Seq<char>)
    ensures
        #[trigger] opens(block(d), lines) == opens(d, lines),
{
    reveal_with_fuel(opens, 2);
    assert(block(d).drop_last() == Seq::<Piece>::empty());
    assert(piece_opens(block(d).last(), lines) == opens(d, lines));
}

/// A here-document holds itself.
pub broadcast proof fn law_here_doc_opens(lines: Seq<char>)
    ensures
        #[trigger] opens(here_doc(lines), lines),
{
    assert(piece_opens(here_doc(lines).last(), lines));
}

pub broadcast group group_opens {
    law_opens_add,
    law_block_opens,
    law_here_doc_opens,
}

/// Whether a document holds the given verbatim text, at any depth.
pub open spec fn quotes(d: Doc, w: Seq<char>) -> bool
    decreases d,
{
    d.len() > 0 && (piece_quotes(d.last(), w) || quotes(d.drop_last(), w))
}

/// Whether a piece holds the given verbatim text, at any depth.
pub open spec fn piece_quotes(p: Piece, w: Seq<char>) -> bool
    decreases p,
{
    match p {
        Piece::Verbatim(s) => s == w,
        Piece::Block(d) => quotes(d, w),
        _ => false,
    }
}

spec fn quoted_at(text: Seq<Mark>, w: Seq<char>, k: int) -> bool {
    &&& 0 <= k <= k + w.len() <= text.len()
    &&& text.subrange(k, k + w.len()) == marks(w, true)
}

/// Whether the text stands in the other, in a verbatim span.
spec fn quoted(text: Seq<Mark>, w: Seq<char>) -> bool {
    exists|k: int| quoted_at(text, w, k)
}

proof fn lemma_quoted_in_sum(a: Seq<Mark>, b: Seq<Mark>, w: Seq<char>)
    ensures
        quoted(a, w) ==> quoted(a + b, w),
        quoted(b, w) ==> quoted(a + b, w),
{
    if quoted(a, w) {
        let k = choose|k: int| quoted_at(a, w, k);
        assert((a + b).subrange(k, k + w.len()) == a.subrange(k, k + w.len()));
        assert(quoted_at(a + b, w, k));
    }
    if quoted(b, w) {
        let k = choose|k: int| quoted_at(b, w, k);
        let j = a.len() + k;
        assert((a + b).subrange(j, j + w.len()) == b.subrange(k, k + w.len()));
        assert(quoted_at(a + b, w, j));
    }
}

proof fn lemma_quoted_indented(text: Seq<Mark>, w: Seq<char>)
    requires
        quoted(text, w),
    ensures
        quoted(indented(text), w),
{
    let k = choose|k: int| quoted_at(text, w, k);
    let end = k + w.len();
    let head = text.take(k);
    let tail = text.skip(end);
    assert(text == (head + marks(w, true)) + tail) by {
        assert(text.subrange(k, end) == marks(w, true));
        assert forall|i: int| 0 <= i < text.len() implies text[i] == ((head + marks(w, true))
            + tail)[i] by {
            if k <= i < end {
                assert(text.subrange(k, end)[i - k] == text[i]);
            }
        }
    }
    law_verbatim_kept(head, w);
    lemma_indented_add(head + marks(w, true), tail);
    let first = lead(head, w);
    let kept = marks(first + w, true);
    let n: int = first.len() as int;
    assert(kept.subrange(n, n + w.len()) == marks(w, true));
    assert(quoted_at(kept, w, n));
    lemma_quoted_in_sum(indented(head), kept, w);
    lemma_quoted_in_sum(
        indented(head) + kept,
        indented_after(head + marks(w, true), tail),
        w,
    );
}

proof fn lemma_step_quoted(p: Piece, r: Rendering, w: Seq<char>)
    requires
        quoted(r.text, w) || piece_quotes(p, w),
    ensures
        quoted(step(p, r).text, w),
    decreases p,
{
    reveal(step);
    reveal(layout);
    reveal(Rendering::plain);
    reveal(Rendering::verbatim);
    reveal(Rendering::deferred);
    reveal(Rendering::flushed);
    match p {
        Piece::Plain(s) => {
            lemma_quoted_in_sum(r.text, marks(s, false), w);
        },
        Piece::Verbatim(s) => {
            if s == w {
                assert(marks(w, true).subrange(0, w.len() as int) == marks(w, true));
                assert(quoted_at(marks(w, true), w, 0));
            }
            lemma_quoted_in_sum(r.text, marks(s, true), w);
        },
        Piece::HereDoc(_) => {},
        Piece::LineEnd(s) => {
            lemma_quoted_in_sum(r.text, marks(s, false), w);
            lemma_quoted_in_sum(r.text, marks("\n"@ + concatenated(r.pending), true), w);
        },
        Piece::Block(d) => {
            let inner = layout(d, Rendering::waiting(r.pending));
            if quotes(d, w) {
                lemma_layout_quoted(d, Rendering::waiting(r.pending), w);
                lemma_quoted_indented(inner.text, w);
            }
            lemma_quoted_in_sum(r.text, indented(inner.text), w);
        },
    }
}

proof fn lemma_layout_quoted(d: Doc, r: Rendering, w: Seq<char>)
    requires
        quoted(r.text, w) || quotes(d, w),
    ensures
        quoted(layout(d, r).text, w),
    decreases d,
{
    reveal(layout);
    reveal(step);
    if d.len() > 0 {
        let front = d.drop_last();
        if quoted(r.text, w) || quotes(front, w) {
            lemma_layout_quoted(front, r, w);
        }
        lemma_step_quoted(d.last(), layout(front, r), w);
    }
}

/// Whether one text stands in another.
pub open spec fn occurs(text: Seq<char>, w: Seq<char>) -> bool {
    exists|k: int| #[trigger] occurs_at(text, w, k)
}

pub open spec fn occurs_at(text: Seq<char>, w: Seq<char>, k: int) -> bool {
    &&& 0 <= k <= k + w.len() <= text.len()
    &&& text.subrange(k, k + w.len()) == w
}

/// Every verbatim text of a document, such as a word, is printed exactly as written, however deep
/// it is nested and however many lines it has.
pub proof fn law_verbatim_printed(d: Doc, w: Seq<char>)
    requires
        quotes(d, w),
    ensures
        occurs(printed(d), w),
{
    lemma_layout_quoted(d, Rendering::empty(), w);
    let text = layout(d, Rendering::empty()).text;
    let k = choose|k: int| quoted_at(text, w, k);
    let found = printed(d).subrange(k, k + w.len());
    assert forall|i: int| 0 <= i < w.len() implies found[i] == w[i] by {
        assert(marks(w, true)[i] == text[k + i]);
    }
    assert(found == w);
    assert(occurs_at(printed(d), w, k));
}

/// The indentation is four spaces.
pub proof fn law_indentation()
    ensures
        DISPLAY_INDENT@ == seq![' ', ' ', ' ', ' '],
{
    reveal_strlit("    ");
    assert(DISPLAY_INDENT@ =~= seq![' ', ' ', ' ', ' ']);
}

/// A line that begins with a verbatim newline is not indented, nor is any after it until a newline
/// that is not verbatim.
pub proof fn law_verbatim_lines_flush(head: Seq<Mark>, tail: Seq<Mark>)
    requires
        forall|i: int| 0 <= i < tail.len() ==> (#[trigger] tail[i]).c == '\n' ==> tail[i].raw,
    ensures
        indented(head.push(mark('\n', true)) + tail) == indented(head).push(mark('\n', true))
            + tail,
    decreases tail.len(),
{
    let first = head.push(mark('\n', true));
    let all = first + tail;
    if tail.len() == 0 {
        assert(all == first);
        assert(first.drop_last() == head);
        assert(indented(first) =~= indented(head).push(mark('\n', true)) + tail);
    } else {
        law_verbatim_lines_flush(head, tail.drop_last());
        assert(all.drop_last() == first + tail.drop_last());
        assert(all.last() == tail.last());
        if tail.len() > 1 {
            assert(all[all.len() - 2] == tail[tail.len() - 2]);
        } else {
            assert(all[all.len() - 2] == first.last());
        }
        assert(indented(all) =~= indented(head).push(mark('\n', true)) + tail);
    }
}

/// An empty text stays empty, and an indented block of nothing adds nothing.
pub proof fn law_nothing_indented()
    ensures
        indented(Seq::empty()) == Seq::<Mark>::empty(),
{
}

/// The characters of a text are those that it was made of, in a verbatim span or not.
pub proof fn law_characters(s: Seq<char>, raw: bool)
    ensures
        chars(marks(s, raw)) == s,
        forall|i: int| 0 <= i < s.len() ==> (#[trigger] marks(s, raw)[i]).raw == raw,
{
    assert(chars(marks(s, raw)) =~= s);
}

/// Plain and verbatim text is added at the end, and neither touches what is waiting.
pub proof fn law_text_added(s: Seq<char>, r: Rendering)
    ensures
        layout(plain(s), r).text == r.text + marks(s, false),
        layout(plain(s), r).pending == r.pending,
        layout(verbatim(s), r).text == r.text + marks(s, true),
        layout(verbatim(s), r).pending == r.pending,
        layout(plain(s), r) == r.plain(s),
        layout(verbatim(s), r) == r.verbatim(s),
{
    broadcast use group_layout;

    reveal(Rendering::plain);
    reveal(Rendering::verbatim);
}

/// A text on its own is printed as it is.
pub proof fn law_text_printed(s: Seq<char>)
    ensures
        printed(plain(s)) == s,
        printed(verbatim(s)) == s,
{
    law_text_added(s, Rendering::empty());
    assert(printed(plain(s)) =~= s);
    assert(printed(verbatim(s)) =~= s);
}

/// A here-document adds nothing to the text; its lines, ended, wait behind those that wait
/// already.
pub proof fn law_here_doc_waits(lines: Seq<char>, r: Rendering)
    ensures
        layout(here_doc(lines), r).text == r.text,
        layout(here_doc(lines), r).pending == r.pending.push(lines.push('\n')),
{
    broadcast use group_layout;

    reveal(Rendering::deferred);
    reveal_strlit("\n");
    assert(lines + "\n"@ =~= lines.push('\n'));
}

/// A line ends with its separator where nothing waits, and else with a newline and all the bodies
/// that wait, in order and verbatim; then nothing waits any more.
pub proof fn law_line_ends(separator: Seq<char>, r: Rendering)
    ensures
        layout(line_end(separator), r) == r.line_end(separator),
        r.pending.len() == 0 ==> r.line_end(separator).text == r.text + marks(separator, false),
        r.pending.len() == 0 ==> r.flushed() == r,
        r.pending.len() > 0 ==> r.line_end(separator).text == r.text + marks(
            seq!['\n'] + r.pending.flatten(),
            true,
        ),
        r.pending.len() > 0 ==> r.flushed() == r.line_end(separator),
        r.line_end(separator).pending.len() == 0,
{
    broadcast use group_layout;

    reveal(Rendering::plain);
    reveal(Rendering::flushed);
    reveal_strlit("\n");
    assert("\n"@ =~= seq!['\n']);
    lemma_concatenated_flat(r.pending);
    r.pending.lemma_flatten_and_flatten_alt_are_equivalent();
}

proof fn lemma_concatenated_flat(blocks: Seq<Seq<char>>)
    ensures
        concatenated(blocks) == blocks.flatten_alt(),
    decreases blocks.len(),
{
    if blocks.len() > 0 {
        lemma_concatenated_flat(blocks.drop_last());
    }
}

/// What is printed in an indented block is printed on its own, and added with every line
/// indented; what it leaves waiting goes on waiting.
pub proof fn law_block_indented(d: Doc, r: Rendering)
    ensures
        layout(block(d), r).text == r.text + indented(
            layout(d, Rendering::waiting(r.pending)).text,
        ),
        layout(block(d), r).pending == layout(d, Rendering::waiting(r.pending)).pending,
        layout(block(d), r) == r.block(layout(d, Rendering::waiting(r.pending))),
        Rendering::waiting(r.pending).text.len() == 0,
        Rendering::waiting(r.pending).pending == r.pending,
{
    broadcast use group_layout;

}

/// A line of plain text in a block is that line after four spaces.
pub proof fn law_block_of_a_line(line: Seq<char>)
    requires
        line.len() > 0,
        !line.contains('\n'),
    ensures
        printed(block(plain(line))) == seq![' ', ' ', ' ', ' '] + line,
{
    let r = Rendering::empty();
    law_block_indented(plain(line), r);
    law_text_added(line, Rendering::waiting(r.pending));
    let m = marks(line, false);
    assert forall|i: int| 0 <= i < m.len() implies (#[trigger] m[i]).c != '\n' by {
        assert(line[i] != '\n');
    }
    assert(Seq::<Mark>::empty() + m == m);
    law_line_indented(m);
    law_indentation();
    assert(printed(block(plain(line))) =~= seq![' ', ' ', ' ', ' '] + line);
}

/// The innermost of the blocks around a text is indented in the next one, and so on.
pub proof fn law_enclosing(outer: Seq<Seq<Mark>>, around: Seq<Mark>, text: Seq<Mark>)
    ensures
        enclosed(Seq::empty(), text) == text,
        enclosed(outer.push(around), text) == enclosed(outer, around + indented(text)),
{
    assert(outer.push(around).drop_last() == outer);
}

} // verus!
