//! The printer: where the text of a syntax tree goes, with its indented blocks, verbatim spans
//! and here-document bodies.

use vstd::prelude::*;

use crate::layout::{
    all_newline_terminated, chars, concatenated, enclosed, indent_before, indented, layout, mark,
    marks, newline_terminated, printed, Doc, Mark, Rendering, DISPLAY_INDENT,
};

verus! {

/// Adds a character to the end of a string.
///
/// Stands for `String::push`, which appends the given character and changes nothing else.
pub assume_specification[ std::string::String::push ](s: &mut std::string::String, c: char)
    ensures
        final(s)@ == old(s)@.push(c),
;

/// Here-document bodies whose redirection operator has been printed on the current line but
/// whose body has not.
///
/// A here-document is unusual to print: `cmd <<TAG` goes on the command line (possibly before
/// other redirections on the same command), but the body and terminator must follow the *end of
/// that line*, unindented (a `<<TAG` terminator is only recognized at column 0; `<<-TAG`
/// additionally strips leading tabs, and the parsed body already has them removed).
pub struct DeferredHeredocs {
    /// Pending body blocks, each already terminated by a newline.
    blocks: Vec<String>,
    /// True while a pending block is being written out, so that indentation stops.
    writing: bool,
}

/// The texts of the given strings.
pub open spec fn texts(blocks: Seq<String>) -> Seq<Seq<char>> {
    Seq::new(blocks.len(), |i: int| blocks[i]@)
}

impl View for DeferredHeredocs {
    type V = Seq<Seq<char>>;

    closed spec fn view(&self) -> Seq<Seq<char>> {
        texts(self.blocks@)
    }
}

impl DeferredHeredocs {
    /// Every waiting block ends with a newline, and none is being written out.
    pub closed spec fn wf(&self) -> bool {
        &&& all_newline_terminated(self@)
        &&& !self.writing
    }

    /// No here-document is waiting.
    pub fn new() -> (d: DeferredHeredocs)
        ensures
            d.wf(),
            d@ == Seq::<Seq<char>>::empty(),
    {
        DeferredHeredocs { blocks: Vec::new(), writing: false }
    }
}

/// The state of one level of indentation. Each line that is not empty is prefixed with
/// [`DISPLAY_INDENT`], the way a shell indents the body of a compound command when it prints it;
/// a line whose starting newline was emitted inside a verbatim span is left at column 0.
pub struct ShellIndent {
    at_line_start: bool,
    /// Whether the newline that began the line now being written was emitted inside a verbatim
    /// span. Such a line is not indented.
    line_started_raw: bool,
}

/// The indentation of a block of which nothing has been written.
fn shell_indent() -> (s: ShellIndent)
    ensures
        s.has_seen(Seq::empty()),
{
    ShellIndent { at_line_start: true, line_started_raw: false }
}

impl ShellIndent {
    /// Whether this is the state after writing `m`.
    spec fn has_seen(&self, m: Seq<Mark>) -> bool {
        &&& self.at_line_start == (m.len() == 0 || m.last().c == '\n')
        &&& self.at_line_start ==> self.line_started_raw == (m.len() > 0 && m.last().raw)
    }
}

/// Indenting one more character.
proof fn lemma_indented_push(m: Seq<Mark>, x: Mark)
    ensures
        indented(m.push(x)) == indented(m) + (if indent_before(m.push(x), m.len() as int) {
            marks(DISPLAY_INDENT@, x.raw)
        } else {
            Seq::empty()
        }) + seq![x],
{
    assert(m.push(x).drop_last() == m);
}

/// A printer.
pub struct Formatter {
    out: String,
    /// The levels of indentation, the outermost first.
    levels: Vec<ShellIndent>,
    deferred: DeferredHeredocs,
    /// Nesting depth of verbatim spans (word, quoted-string or command-substitution text)
    /// currently being written. While it is not zero no indentation is inserted: a shell prints
    /// words exactly as written.
    raw_span_depth: u32,
    /// All that was written to each level, that without indentation first.
    written: Ghost<Seq<Seq<Mark>>>,
    /// What had been written to each level when the next one was opened.
    before: Ghost<Seq<Seq<Mark>>>,
}

impl View for Formatter {
    type V = Rendering;

    /// What was written to the innermost level, and what is waiting.
    closed spec fn view(&self) -> Rendering {
        Rendering { text: self.written@.last(), pending: self.deferred@ }
    }
}

impl Formatter {
    /// The levels up to `k` agree with what was written to them.
    spec fn consistent_to(&self, k: int) -> bool {
        &&& self.written@.len() == self.levels@.len() + 1
        &&& self.before@.len() == self.levels@.len()
        &&& 0 <= k <= self.levels@.len()
        &&& self.out@ == chars(self.written@[0])
        &&& forall|j: int|
            0 <= j < k ==> (#[trigger] self.levels@[j]).has_seen(self.written@[j + 1])
        &&& forall|j: int|
            0 <= j < k ==> self.written@[j] == #[trigger] self.before@[j] + indented(
                self.written@[j + 1],
            )
    }

    /// Compared with `old`, `m` was written to level `k`, with what follows from it for the
    /// levels below, and nothing else was changed.
    spec fn only_wrote(&self, old_self: &Formatter, k: int, m: Seq<Mark>) -> bool {
        &&& self.written@.len() == old_self.written@.len()
        &&& self.levels@.len() == old_self.levels@.len()
        &&& self.written@[k] == old_self.written@[k] + m
        &&& forall|j: int|
            k < j < old_self.written@.len() ==> #[trigger] self.written@[j]
                == old_self.written@[j]
        &&& forall|j: int|
            k <= j < old_self.levels@.len() ==> #[trigger] self.levels@[j] == old_self.levels@[j]
        &&& self.before == old_self.before
        &&& self.deferred == old_self.deferred
        &&& self.raw_span_depth == old_self.raw_span_depth
    }

    pub closed spec fn inv(&self) -> bool {
        &&& self.consistent_to(self.levels@.len() as int)
        &&& all_newline_terminated(self.deferred@)
    }

    /// Whether text is now being written inside a verbatim span.
    pub closed spec fn verbatim(&self) -> bool {
        self.deferred.writing || self.raw_span_depth > 0
    }

    /// Whether a node can be printed.
    pub closed spec fn ready(&self) -> bool {
        &&& self.inv()
        &&& !self.deferred.writing
        &&& self.raw_span_depth == 0
    }

    /// The texts of the enclosing blocks, the outermost first.
    pub closed spec fn enclosing(&self) -> Seq<Seq<Mark>> {
        self.before@
    }

    /// What has been written in all, with every indentation.
    pub closed spec fn output(&self) -> Seq<char> {
        self.out@
    }

    /// Writes a character to the given level. Level 0 is the output itself; what is written to
    /// level `k` goes on to level `k - 1`, indented.
    fn put_char(&mut self, level: usize, c: char, raw: bool)
        requires
            old(self).consistent_to(level as int),
        ensures
            final(self).consistent_to(level as int),
            final(self).only_wrote(old(self), level as int, seq![mark(c, raw)]),
        decreases level, 0int,
    {
        if level == 0 {
            self.out.push(c);
            proof {
                let grown = self.written@[0].push(mark(c, raw));
                assert(chars(grown) == chars(self.written@[0]).push(c));
                self.written@ = self.written@.update(0, grown);
                assert(grown == old(self).written@[0] + seq![mark(c, raw)]);
            }
        } else {
            let k: usize = level - 1;
            let ghost mark = mark(c, raw);
            let ghost seen = self.written@[level as int];
            if c == '\n' {
                self.put_char(k, c, raw);
                self.levels.set(k, ShellIndent { at_line_start: true, line_started_raw: raw });
            } else {
                if self.levels[k].at_line_start {
                    let line_started_raw: bool = self.levels[k].line_started_raw;
                    if !line_started_raw {
                        self.put_str(k, DISPLAY_INDENT, raw);
                    }
                    assert(self.consistent_to(k as int));
                    let ghost levels = self.levels@;
                    self.levels.set(k, ShellIndent { at_line_start: false, line_started_raw });
                    assert(forall|j: int| 0 <= j < k ==> self.levels@[j] == levels[j]);
                    assert(self.consistent_to(k as int));
                }
                self.put_char(k, c, raw);
            }
            proof {
                lemma_indented_push(seen, mark);
                self.written@ = self.written@.update(level as int, seen.push(mark));
                assert(seen.push(mark) == seen + seq![mark]);
                assert(self.written@[k as int] == self.before@[k as int] + indented(
                    seen.push(mark),
                ));
            }
        }
    }

    /// Writes a string to the given level.
    fn put_str(&mut self, level: usize, s: &str, raw: bool)
        requires
            old(self).consistent_to(level as int),
        ensures
            final(self).consistent_to(level as int),
            final(self).only_wrote(old(self), level as int, marks(s@, raw)),
        decreases level, 1int,
    {
        let ghost start = *self;
        assert(self.written@[level as int] == start.written@[level as int] + marks(
            s@.take(0),
            raw,
        ));
        for c in it: s.chars()
            invariant
                start.consistent_to(level as int),
                self.consistent_to(level as int),
                it.seq() == s@,
                self.only_wrote(&start, level as int, marks(s@.take(it.index()), raw)),
        {
            self.put_char(level, c, raw);
            proof {
                let n = it.index();
                assert(self.written@[level as int] == start.written@[level as int] + (marks(
                    s@.take(n),
                    raw,
                ) + seq![mark(c, raw)]));
                assert(marks(s@.take(n), raw) + seq![mark(c, raw)] == marks(
                    s@.take(n + 1),
                    raw,
                ));
            }
        }
        assert(s@.take(s@.len() as int) == s@);
    }

    /// Writes a string at the innermost level.
    fn put(&mut self, s: &str)
        requires
            old(self).inv(),
        ensures
            final(self).inv(),
            final(self)@ == (Rendering {
                text: old(self)@.text + marks(s@, old(self).verbatim()),
                ..old(self)@
            }),
            final(self).before == old(self).before,
            final(self).deferred == old(self).deferred,
            final(self).raw_span_depth == old(self).raw_span_depth,
    {
        let raw: bool = self.in_verbatim_span();
        let level: usize = self.levels.len();
        self.put_str(level, s, raw);
    }

    /// Whether text is now being written inside a verbatim span.
    fn in_verbatim_span(&self) -> (b: bool)
        ensures
            b == self.verbatim(),
    {
        self.deferred.writing || self.raw_span_depth > 0
    }

    /// Begins a verbatim span.
    fn enter_raw_span(&mut self)
        requires
            old(self).raw_span_depth < u32::MAX,
        ensures
            *final(self) == (Formatter {
                raw_span_depth: (old(self).raw_span_depth + 1) as u32,
                ..*old(self)
            }),
    {
        self.raw_span_depth = self.raw_span_depth + 1;
    }

    /// Ends the innermost verbatim span.
    fn leave_raw_span(&mut self)
        requires
            old(self).raw_span_depth > 0,
        ensures
            *final(self) == (Formatter {
                raw_span_depth: (old(self).raw_span_depth - 1) as u32,
                ..*old(self)
            }),
    {
        self.raw_span_depth = self.raw_span_depth - 1;
    }

    /// A printer to which nothing has been written, with nothing waiting.
    pub fn new() -> (f: Formatter)
        ensures
            f.ready(),
            f@ == Rendering::empty(),
            f.enclosing() == Seq::<Seq<Mark>>::empty(),
    {
        let f = Formatter::resume(DeferredHeredocs::new());
        f
    }

    /// A printer to which nothing has been written, with here-document bodies that an earlier one
    /// left waiting.
    pub fn resume(deferred: DeferredHeredocs) -> (f: Formatter)
        requires
            deferred.wf(),
        ensures
            f.ready(),
            f@ == Rendering::waiting(deferred@),
            f.enclosing() == Seq::<Seq<Mark>>::empty(),
    {
        let f = Formatter {
            out: String::new(),
            levels: Vec::new(),
            deferred,
            raw_span_depth: 0,
            written: Ghost(Seq::<Seq<Mark>>::empty().push(Seq::empty())),
            before: Ghost(Seq::empty()),
        };
        assert(f.out@ == chars(f.written@[0]));
        f
    }

    /// What was printed, and the here-document bodies that are still waiting.
    pub fn into_parts(self) -> (parts: (String, DeferredHeredocs))
        requires
            self.ready(),
            self.enclosing().len() == 0,
        ensures
            parts.0@ == chars(self@.text),
            parts.1.wf(),
            parts.1@ == self@.pending,
    {
        (self.out, self.deferred)
    }

    /// Writes text that takes part in indentation.
    pub fn write_str(&mut self, s: &str)
        requires
            old(self).ready(),
        ensures
            final(self).ready(),
            final(self)@ == old(self)@.plain(s@),
            final(self).enclosing() == old(self).enclosing(),
    {
        proof {
            reveal(Rendering::plain);
        }
        self.put(s);
    }

    /// Writes text exactly as it is, including any embedded newlines (multi-line quoted strings,
    /// `$( ... )` spanning lines): its interior lines are not indented.
    pub fn write_verbatim(&mut self, s: &str)
        requires
            old(self).ready(),
        ensures
            final(self).ready(),
            final(self)@ == old(self)@.verbatim(s@),
            final(self).enclosing() == old(self).enclosing(),
    {
        proof {
            reveal(Rendering::verbatim);
        }
        self.enter_raw_span();
        self.put(s);
        self.leave_raw_span();
    }

    /// Begins an indented block.
    pub fn open_block(&mut self)
        requires
            old(self).ready(),
        ensures
            final(self).ready(),
            final(self)@ == Rendering::waiting(old(self)@.pending),
            final(self).enclosing() == old(self).enclosing().push(old(self)@.text),
    {
        let ghost text = self@.text;
        self.levels.push(shell_indent());
        proof {
            self.before@ = self.before@.push(text);
            self.written@ = self.written@.push(Seq::empty());
            assert(text + indented(Seq::empty()) == text);
        }
    }

    /// Ends the innermost indented block.
    pub fn close_block(&mut self)
        requires
            old(self).ready(),
            old(self).enclosing().len() > 0,
        ensures
            final(self).ready(),
            final(self)@ == (Rendering {
                text: old(self).enclosing().last() + indented(old(self)@.text),
                pending: old(self)@.pending,
            }),
            final(self).enclosing() == old(self).enclosing().drop_last(),
    {
        self.levels.pop();
        proof {
            self.before@ = self.before@.drop_last();
            self.written@ = self.written@.drop_last();
        }
    }

    /// Queues a here-document body block (`<body><terminator>\n`) to be written at the next line
    /// boundary.
    pub fn defer_heredoc_body(&mut self, block: String)
        requires
            old(self).ready(),
            newline_terminated(block@),
        ensures
            final(self).ready(),
            final(self)@ == old(self)@.deferred(block@),
            final(self).enclosing() == old(self).enclosing(),
    {
        proof {
            reveal(Rendering::deferred);
        }
        self.deferred.blocks.push(block);
        proof {
            assert(self.deferred@ == old(self).deferred@.push(block@));
        }
    }

    /// Whether any here-document body is waiting for the end of the line.
    pub fn has_deferred_heredocs(&self) -> (b: bool)
        ensures
            b == (self@.pending.len() > 0),
    {
        self.deferred.blocks.len() > 0
    }

    /// Writes every waiting here-document body, unindented, after a newline that ends the current
    /// line. Does nothing when none is waiting.
    pub fn flush_deferred_heredocs(&mut self)
        requires
            old(self).ready(),
        ensures
            final(self).ready(),
            final(self)@ == old(self)@.flushed(),
            final(self).enclosing() == old(self).enclosing(),
    {
        proof {
            reveal(Rendering::flushed);
        }
        let mut blocks: Vec<String> = Vec::new();
        std::mem::swap(&mut blocks, &mut self.deferred.blocks);
        if blocks.len() == 0 {
            assert(self.deferred@ == old(self).deferred@);
            return;
        }
        self.deferred.writing = true;
        let mut text = String::new();
        text.append("\n");
        let n: usize = blocks.len();
        for i in 0..n
            invariant
                n == blocks@.len(),
                text@ == "\n"@ + concatenated(texts(blocks@).take(i as int)),
        {
            proof {
                let all = texts(blocks@);
                assert(all.take(i + 1).drop_last() == all.take(i as int));
                assert(all.take(i + 1).last() == blocks@[i as int]@);
            }
            text.append(blocks[i].as_str());
        }
        assert(texts(blocks@).take(n as int) == texts(blocks@));
        assert(self.deferred@ == Seq::<Seq<char>>::empty());
        self.put(text.as_str());
        self.deferred.writing = false;
    }

    /// At any time the output is all that was printed, each enclosing block indented in the one
    /// around it.
    pub proof fn law_output(&self)
        requires
            self.ready(),
        ensures
            self.output() == chars(enclosed(self.enclosing(), self@.text)),
    {
        self.lemma_output_from(self.levels@.len() as int);
        assert(self.before@.take(self.levels@.len() as int) =~= self.before@);
    }

    /// At any time every here-document body that is waiting ends with a newline.
    pub proof fn law_waiting(&self)
        requires
            self.ready(),
        ensures
            all_newline_terminated(self@.pending),
    {
    }

    proof fn lemma_output_from(&self, k: int)
        requires
            self.inv(),
            0 <= k <= self.levels@.len(),
        ensures
            self.out@ == chars(enclosed(self.before@.take(k), self.written@[k])),
        decreases k,
    {
        if k > 0 {
            self.lemma_output_from(k - 1);
            let outer = self.before@.take(k);
            assert(outer.drop_last() == self.before@.take(k - 1));
            assert(outer.last() == self.before@[k - 1]);
        }
    }
}

/// What can be printed.
pub trait Display {
    /// What it is printed as.
    spec fn doc(&self) -> Doc;

    /// Prints it.
    fn fmt(&self, f: &mut Formatter)
        requires
            old(f).ready(),
        ensures
            final(f).ready(),
            final(f)@ == layout(self.doc(), old(f)@),
            final(f).enclosing() == old(f).enclosing(),
    ;

    /// Its text, printed with no here-document body waiting beforehand. Bodies that are still
    /// waiting at the end are not part of it.
    fn to_string(&self) -> (s: String)
        ensures
            s@ == printed(self.doc()),
    {
        let mut f = Formatter::new();
        self.fmt(&mut f);
        f.into_parts().0
    }
}

} // verus!
