use vstd::prelude::*;
use vstd::string::StringExecFns;

verus! {

/// A line of output: its indentation level and its text.
struct Line(usize, String);

/// Collects indented lines of text.
pub struct Printer {
    lines: Vec<Line>,
    indent: usize,
}

/// `n` levels of indentation: two spaces each.
pub open spec fn indentation(n: nat) -> Seq<char> {
    Seq::new(2 * n, |i: int| ' ')
}

/// A line as it is written out: indentation, then its text.
pub open spec fn render_line(line: (nat, Seq<char>)) -> Seq<char> {
    indentation(line.0) + line.1
}

/// Texts joined with a newline between consecutive ones.
pub open spec fn join_lines(texts: Seq<Seq<char>>) -> Seq<char>
    decreases texts.len(),
{
    if texts.len() == 0 {
        Seq::empty()
    } else if texts.len() == 1 {
        texts[0]
    } else {
        join_lines(texts.drop_last()) + seq!['\n'] + texts.last()
    }
}

/// The text of a list of lines.
pub open spec fn lines_text(lines: Seq<(nat, Seq<char>)>) -> Seq<char> {
    join_lines(lines.map_values(|l: (nat, Seq<char>)| render_line(l)))
}

impl Printer {
    /// The lines added so far, each with the indentation level it was added at.
    pub closed spec fn lines(&self) -> Seq<(nat, Seq<char>)> {
        self.lines@.map_values(|l: Line| (l.0 as nat, l.1@))
    }

    /// The current indentation level.
    pub closed spec fn level(&self) -> nat {
        self.indent as nat
    }

    /// Whether the indentation level can still be raised by `n`.
    pub open spec fn has_room(&self, n: nat) -> bool {
        self.level() + n <= usize::MAX
    }

    /// How many levels the indentation can still be raised by.
    pub fn room(&self) -> (r: usize)
        ensures
            r == usize::MAX - self.level(),
    {
        usize::MAX - self.indent
    }

    /// An empty printer at indentation level zero.
    pub fn new() -> (printer: Self)
        ensures
            printer.lines() == Seq::<(nat, Seq<char>)>::empty(),
            printer.level() == 0,
    {
        let printer = Printer { lines: Vec::new(), indent: 0 };
        assert(printer.lines() =~= Seq::<(nat, Seq<char>)>::empty());
        printer
    }

    /// Raises the indentation level of the following lines by one.
    pub fn indent(&mut self)
        requires
            old(self).has_room(1),
        ensures
            final(self).lines() == old(self).lines(),
            final(self).level() == old(self).level() + 1,
    {
        self.indent = self.indent + 1;
    }

    /// Lowers the indentation level of the following lines by one.
    pub fn dedent(&mut self)
        requires
            old(self).level() > 0,
        ensures
            final(self).lines() == old(self).lines(),
            final(self).level() == old(self).level() - 1,
    {
        self.indent = self.indent - 1;
    }

    /// Adds a line at the current indentation level.
    pub fn add_line(&mut self, line: String)
        ensures
            final(self).lines() == old(self).lines().push((old(self).level(), line@)),
            final(self).level() == old(self).level(),
    {
        let ghost before = self.lines@;
        self.lines.push(Line(self.indent, line));
        assert(self.lines() =~= old(self).lines().push((old(self).level(), line@)));
    }

    /// The text of all lines, each indented by two spaces per level, separated by
    /// newlines.
    pub fn build(&self) -> (text: String)
        ensures
            text@ == lines_text(self.lines()),
    {
        let ghost rendered = self.lines().map_values(|l: (nat, Seq<char>)| render_line(l));
        let mut text = String::new();
        let mut i: usize = 0;
        while i < self.lines.len()
            invariant
                i <= self.lines@.len(),
                rendered == self.lines().map_values(|l: (nat, Seq<char>)| render_line(l)),
                rendered.len() == self.lines@.len(),
                text@ == join_lines(rendered.take(i as int)),
            decreases self.lines@.len() - i,
        {
            let ghost before = text@;
            if i > 0 {
                text.append("\n");
                proof {
                    reveal_strlit("\n");
                }
            }
            let line = &self.lines[i];
            let mut k: usize = 0;
            while k < line.0
                invariant
                    k <= line.0,
                    text@ == (if i > 0 {
                        before + seq!['\n']
                    } else {
                        before
                    }) + indentation(k as nat),
                decreases line.0 - k,
            {
                let ghost mid = text@;
                text.append("  ");
                proof {
                    reveal_strlit("  ");
                    assert(indentation((k + 1) as nat) =~= indentation(k as nat) + seq![' ', ' ']);
                }
                k += 1;
            }
            text.append(line.1.as_str());
            proof {
                let r = rendered.take((i + 1) as int);
                assert(rendered[i as int] == render_line((line.0 as nat, line.1@)));
                assert(r.drop_last() =~= rendered.take(i as int));
                assert(r.last() == rendered[i as int]);
                if i == 0 {
                    assert(r.len() == 1);
                }
                assert(text@ =~= join_lines(r));
            }
            i += 1;
        }
        proof {
            assert(rendered.take(self.lines@.len() as int) =~= rendered);
        }
        text
    }
}

/// The text of two lists of lines printed one after the other is the text of the first,
/// a newline, and the text of the second, when both are non-empty.
pub proof fn law_lines_text_concat(a: Seq<(nat, Seq<char>)>, b: Seq<(nat, Seq<char>)>)
    requires
        a.len() > 0,
        b.len() > 0,
    ensures
        lines_text(a + b) == lines_text(a) + seq!['\n'] + lines_text(b),
    decreases b.len(),
{
    let f = |l: (nat, Seq<char>)| render_line(l);
    if b.len() == 1 {
        assert((a + b).map_values(f).drop_last() =~= a.map_values(f));
        assert(b.map_values(f).len() == 1);
    } else {
        let b1 = b.drop_last();
        law_lines_text_concat(a, b1);
        assert((a + b).map_values(f).drop_last() =~= (a + b1).map_values(f));
        assert(b.map_values(f).drop_last() =~= b1.map_values(f));
        assert((a + b).map_values(f).last() == b.map_values(f).last());
        assert(lines_text(a + b) =~= lines_text(a) + seq!['\n'] + lines_text(b));
    }
}

/// A single line is written out as its indentation followed by its text.
pub proof fn law_single_line_text(level: nat, line: Seq<char>)
    ensures
        lines_text(seq![(level, line)]) == indentation(level) + line,
{
    let f = |l: (nat, Seq<char>)| render_line(l);
    assert(seq![(level, line)].map_values(f) =~= seq![render_line((level, line))]);
}

} // verus!
