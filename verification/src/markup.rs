//! What is known of a markup file after it was parsed: its text, the size of
//! its front matter, and the headings, link definitions and broken links
//! found in it, each with the character range it spans.
use std::ops::Range;
use vstd::prelude::*;

verus! {

/// A heading of a markup file.
#[derive(Debug)]
pub struct Heading {
    pub id: String,
    pub content: String,
    pub level: u16,
    /// The character positions the heading spans.
    pub range: Range<usize>,
}

/// A link definition `[label]: url`.
#[derive(Debug)]
pub struct LinkDef {
    pub label: String,
    pub url: String,
    /// The character positions the definition spans.
    pub range: Range<usize>,
}

/// A link `[text][tag]` whose tag has no definition.
#[derive(Debug)]
pub struct BrokenLink {
    pub tag: String,
    /// The character positions the link spans.
    pub range: Range<usize>,
}

/// A parsed markup file.
#[derive(Debug)]
pub struct MarkupLookup {
    /// The characters of the file.
    pub markup: Vec<char>,
    /// How many rows, from the top, belong to the front matter.
    pub markup_meta_line_count: usize,
    pub headings: Vec<Heading>,
    pub link_defs: Vec<LinkDef>,
    pub broken_links: Vec<BrokenLink>,
}

/// The number of line feeds in `s`.
pub open spec fn newline_count(s: Seq<char>) -> nat
    decreases s.len(),
{
    if s.len() == 0 {
        0
    } else {
        newline_count(s.drop_last()) + if s.last() == '\n' {
            1nat
        } else {
            0nat
        }
    }
}

/// Where the last line of `s` starts: just after its last line feed, or at 0.
pub open spec fn last_line_start(s: Seq<char>) -> nat
    decreases s.len(),
{
    if s.len() == 0 {
        0
    } else if s.last() == '\n' {
        s.len()
    } else {
        last_line_start(s.drop_last())
    }
}

/// The text before character position `pos`, cut at the end of `text`.
pub open spec fn text_before(text: Seq<char>, pos: int) -> Seq<char> {
    if pos < text.len() {
        text.take(pos)
    } else {
        text
    }
}

/// The row, counted from 0, of character position `pos`.
pub open spec fn row_of(text: Seq<char>, pos: int) -> nat {
    newline_count(text_before(text, pos))
}

/// The column, counted from 0, of character position `pos`.
pub open spec fn col_of(text: Seq<char>, pos: int) -> int {
    pos - last_line_start(text_before(text, pos))
}

impl MarkupLookup {
    /// A lookup of `markup` with nothing registered in it yet.
    pub fn new(markup: &str, markup_meta_line_count: usize) -> (res: MarkupLookup)
        ensures
            res.markup@ == markup@,
            res.markup_meta_line_count == markup_meta_line_count,
            res.headings@.len() == 0,
            res.link_defs@.len() == 0,
            res.broken_links@.len() == 0,
    {
        MarkupLookup {
            markup: crate::text::chars_of(markup),
            markup_meta_line_count,
            headings: Vec::new(),
            link_defs: Vec::new(),
            broken_links: Vec::new(),
        }
    }

    /// Whether `row` lies in the front matter.
    pub fn in_frontmatter(&self, row: usize) -> (res: bool)
        ensures
            res == (row < self.markup_meta_line_count),
    {
        row < self.markup_meta_line_count
    }

    /// The row and column, both counted from 0, of character position `pos`;
    /// a position past the end lies on the last row.
    pub fn char_pos_to_row_col(&self, pos: usize) -> (res: (usize, usize))
        ensures
            res.0 == row_of(self.markup@, pos as int),
            res.1 == col_of(self.markup@, pos as int),
    {
        let text = Ghost(self.markup@);
        let n = if pos < self.markup.len() {
            pos
        } else {
            self.markup.len()
        };
        let mut row: usize = 0;
        let mut start: usize = 0;
        let mut i: usize = 0;
        while i < n
            invariant
                n <= self.markup@.len(),
                n <= pos,
                text@ == self.markup@,
                i <= n,
                row <= i,
                start <= i,
                row == newline_count(text@.take(i as int)),
                start == last_line_start(text@.take(i as int)),
            decreases n - i,
        {
            assert(text@.take(i + 1).drop_last() =~= text@.take(i as int));
            if self.markup[i] == '\n' {
                row = row + 1;
                start = i + 1;
            }
            i = i + 1;
        }
        assert(text_before(text@, pos as int) =~= text@.take(n as int));
        (row, pos - start)
    }
}

} // verus!
