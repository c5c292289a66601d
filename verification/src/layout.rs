//! What printing a syntax tree means.
//!
//! A node is printed as a [`Doc`], a sequence of [`Piece`]s. Laying a document out turns it into
//! characters. Two things make that more than a concatenation: the body of a compound command is
//! indented, except where its text is verbatim, and the body of a here-document is held back
//! until the line of the command that opened it ends.

use vstd::prelude::*;

verus! {

/// The indentation of the body of a compound command.
pub const DISPLAY_INDENT: &'static str = "    ";

/// A printed character, and whether it was printed inside a verbatim span (a word, or the body
/// of a here-document).
pub struct Mark {
    pub c: char,
    pub raw: bool,
}

/// A part of a printed node.
pub enum Piece {
    /// Text that takes part in indentation.
    Plain(Seq<char>),
    /// Text that is printed exactly as written, such as that of a word.
    Verbatim(Seq<char>),
    /// The lines of a here-document, the last of which is its terminator, to be printed when the
    /// line at hand ends.
    HereDoc(Seq<char>),
    /// The end of a command's line: where here-document bodies are waiting they are printed,
    /// otherwise the given separator is.
    LineEnd(Seq<char>),
    /// An indented block.
    Block(Seq<Piece>),
}

/// A printed node, as a sequence of pieces.
pub type Doc = Seq<Piece>;

/// How far printing has come: the text so far, and the here-document bodies that wait for the
/// end of the line.
pub struct Rendering {
    pub text: Seq<Mark>,
    pub pending: Seq<Seq<char>>,
}

pub open spec fn mark(c: char, raw: bool) -> Mark {
    Mark { c, raw }
}

/// The characters of `s`, all of them inside a verbatim span or all of them outside.
pub open spec fn marks(s: Seq<char>, raw: bool) -> Seq<Mark> {
    Seq::new(s.len(), |i: int| mark(s[i], raw))
}

/// The characters of a marked text.
pub open spec fn chars(m: Seq<Mark>) -> Seq<char> {
    Seq::new(m.len(), |i: int| m[i].c)
}

/// The blocks one after the other.
pub open spec fn concatenated(blocks: Seq<Seq<char>>) -> Seq<char>
    decreases blocks.len(),
{
    if blocks.len() == 0 {
        Seq::empty()
    } else {
        concatenated(blocks.drop_last()) + blocks.last()
    }
}

/// Whether a block ends with a newline.
pub open spec fn newline_terminated(block: Seq<char>) -> bool {
    block.len() > 0 && block.last() == '\n'
}

/// Whether every block ends with a newline.
pub open spec fn all_newline_terminated(blocks: Seq<Seq<char>>) -> bool {
    forall|i: int| 0 <= i < blocks.len() ==> newline_terminated(#[trigger] blocks[i])
}

/// Whether indentation goes before the `i`-th character: it is the first of a line that is not
/// empty, and the newline before that line, if there is one, was not in a verbatim span.
pub open spec fn indent_before(m: Seq<Mark>, i: int) -> bool {
    &&& m[i].c != '\n'
    &&& i == 0 || (m[i - 1].c == '\n' && !m[i - 1].raw)
}

/// The text with every line indented, except the empty ones and those that a verbatim newline
/// begins.
pub open spec fn indented(m: Seq<Mark>) -> Seq<Mark>
    decreases m.len(),
{
    if m.len() == 0 {
        Seq::empty()
    } else {
        let indent = if indent_before(m, m.len() - 1) {
            marks(DISPLAY_INDENT@, m.last().raw)
        } else {
            Seq::empty()
        };
        indented(m.drop_last()) + indent + seq![m.last()]
    }
}

impl Rendering {
    /// Nothing printed, nothing waiting.
    pub open spec fn empty() -> Rendering {
        Rendering { text: Seq::empty(), pending: Seq::empty() }
    }

    /// Nothing printed yet, with the given bodies waiting.
    pub open spec fn waiting(pending: Seq<Seq<char>>) -> Rendering {
        Rendering { text: Seq::empty(), pending }
    }

    #[verifier::opaque]
    pub open spec fn plain(self, s: Seq<char>) -> Rendering {
        Rendering { text: self.text + marks(s, false), pending: self.pending }
    }

    #[verifier::opaque]
    pub open spec fn verbatim(self, s: Seq<char>) -> Rendering {
        Rendering { text: self.text + marks(s, true), pending: self.pending }
    }

    /// Queues a block.
    #[verifier::opaque]
    pub open spec fn deferred(self, block: Seq<char>) -> Rendering {
        Rendering { text: self.text, pending: self.pending.push(block) }
    }

    /// Queues the lines of a here-document, the last of which is its terminator.
    pub open spec fn here_doc(self, lines: Seq<char>) -> Rendering {
        self.deferred(lines + "\n"@)
    }

    /// Prints the waiting bodies, after a newline that ends the line they wait for.
    #[verifier::opaque]
    pub open spec fn flushed(self) -> Rendering {
        if self.pending.len() == 0 {
            self
        } else {
            Rendering {
                text: self.text + marks("\n"@ + concatenated(self.pending), true),
                pending: Seq::empty(),
            }
        }
    }

    /// Ends a line: with the waiting bodies if there are any, else with the separator.
    pub open spec fn line_end(self, separator: Seq<char>) -> Rendering {
        if self.pending.len() == 0 {
            self.plain(separator)
        } else {
            self.flushed()
        }
    }

    /// What was printed on its own as `inner` is added as an indented block.
    pub open spec fn block(self, inner: Rendering) -> Rendering {
        Rendering { text: self.text + indented(inner.text), pending: inner.pending }
    }
}

/// The whole text, where `text` was printed in an indented block, that in another one, and so on;
/// `outer` holds what had been printed around each block, the outermost first.
pub open spec fn enclosed(outer: Seq<Seq<Mark>>, text: Seq<Mark>) -> Seq<Mark>
    decreases outer.len(),
{
    if outer.len() == 0 {
        text
    } else {
        enclosed(outer.drop_last(), outer.last() + indented(text))
    }
}

/// Prints one more piece.
#[verifier::opaque]
pub open spec fn step(p: Piece, r: Rendering) -> Rendering
    decreases p,
{
    match p {
        Piece::Plain(s) => r.plain(s),
        Piece::Verbatim(s) => r.verbatim(s),
        Piece::HereDoc(lines) => r.here_doc(lines),
        Piece::LineEnd(separator) => r.line_end(separator),
        Piece::Block(d) => r.block(layout(d, Rendering::waiting(r.pending))),
    }
}

/// Prints a document after what is printed already.
#[verifier::opaque]
pub open spec fn layout(d: Doc, r: Rendering) -> Rendering
    decreases d,
{
    if d.len() == 0 {
        r
    } else {
        step(d.last(), layout(d.drop_last(), r))
    }
}

/// The characters that a document is printed as, where nothing is waiting beforehand.
pub open spec fn printed(d: Doc) -> Seq<char> {
    chars(layout(d, Rendering::empty()).text)
}

pub open spec fn nothing() -> Doc {
    Seq::empty()
}

pub open spec fn plain(s: Seq<char>) -> Doc {
    seq![Piece::Plain(s)]
}

pub open spec fn verbatim(s: Seq<char>) -> Doc {
    seq![Piece::Verbatim(s)]
}

pub open spec fn here_doc(lines: Seq<char>) -> Doc {
    seq![Piece::HereDoc(lines)]
}

pub open spec fn line_end(separator: Seq<char>) -> Doc {
    seq![Piece::LineEnd(separator)]
}

pub open spec fn block(d: Doc) -> Doc {
    seq![Piece::Block(d)]
}

/// Marks a document whose layout a proof takes apart.
pub open spec fn unfolded(d: Doc) -> bool {
    true
}

/// Laying out the concatenation of two documents is laying out one after the other.
pub proof fn law_layout_add(a: Doc, b: Doc, r: Rendering)
    ensures
        layout(a + b, r) == layout(b, layout(a, r)),
    decreases b.len(),
{
    reveal(layout);
    if b.len() == 0 {
        assert(a + b == a);
    } else {
        assert((a + b).drop_last() == a + b.drop_last());
        assert((a + b).last() == b.last());
        law_layout_add(a, b.drop_last(), r);
    }
}

pub broadcast proof fn lemma_layout_add(a: Doc, b: Doc, r: Rendering)
    ensures
        #![trigger layout(a + b, r), unfolded(a + b)]
        layout(a + b, r) == layout(b, layout(a, r)),
        unfolded(a),
{
    law_layout_add(a, b, r);
}

proof fn lemma_layout_one(p: Piece, r: Rendering)
    ensures
        layout(seq![p], r) == step(p, r),
{
    reveal(layout);
    reveal(step);
    let d = seq![p];
    assert(d.drop_last() == Seq::<Piece>::empty());
    assert(layout(d.drop_last(), r) == r);
}

pub broadcast proof fn lemma_layout_nothing(r: Rendering)
    ensures
        #[trigger] layout(nothing(), r) == r,
{
    reveal(layout);
}

pub broadcast proof fn lemma_layout_plain(s: Seq<char>, r: Rendering)
    ensures
        #[trigger] layout(plain(s), r) == r.plain(s),
{
    reveal(step);
    lemma_layout_one(Piece::Plain(s), r);
}

pub broadcast proof fn lemma_layout_verbatim(s: Seq<char>, r: Rendering)
    ensures
        #[trigger] layout(verbatim(s), r) == r.verbatim(s),
{
    reveal(step);
    lemma_layout_one(Piece::Verbatim(s), r);
}

pub broadcast proof fn lemma_layout_here_doc(s: Seq<char>, r: Rendering)
    ensures
        #[trigger] layout(here_doc(s), r) == r.here_doc(s),
{
    reveal(step);
    lemma_layout_one(Piece::HereDoc(s), r);
}

pub broadcast proof fn lemma_layout_line_end(s: Seq<char>, r: Rendering)
    ensures
        #[trigger] layout(line_end(s), r) == r.line_end(s),
{
    reveal(step);
    lemma_layout_one(Piece::LineEnd(s), r);
}

pub broadcast proof fn lemma_layout_block(d: Doc, r: Rendering)
    ensures
        #[trigger] layout(block(d), r) == r.block(layout(d, Rendering::waiting(r.pending))),
{
    reveal(step);
    reveal(layout);
    lemma_layout_one(Piece::Block(d), r);
}

/// A line that ends without a separator.
pub broadcast proof fn lemma_bare_line_end(r: Rendering)
    ensures
        #[trigger] r.line_end(Seq::empty()) == r.flushed(),
{
    lemma_plain_empty(r);
    reveal(Rendering::flushed);
}

pub broadcast proof fn lemma_plain_empty(r: Rendering)
    ensures
        #[trigger] r.plain(Seq::empty()) == r,
{
    reveal(Rendering::plain);
    assert(r.text + marks(Seq::empty(), false) == r.text);
}

pub broadcast group group_layout {
    lemma_layout_add,
    lemma_layout_nothing,
    lemma_layout_plain,
    lemma_layout_verbatim,
    lemma_layout_here_doc,
    lemma_layout_line_end,
    lemma_layout_block,
    lemma_bare_line_end,
    lemma_plain_empty,
}

} // verus!
