//! Reads the text of a file one line at a time and parses each line.
use crate::directive::{parse_line_in, parse_line_spec, Directive, DirectiveView};
use crate::line_read::LineRead;
use crate::text::chars_of;
use vstd::prelude::*;

verus! {

/// The length of the first line of `rest`, its line break included; 0 only
/// if `rest` is empty.
pub open spec fn line_len(rest: Seq<char>) -> nat
    decreases rest.len(),
{
    if rest.len() == 0 {
        0
    } else if rest[0] == '\n' {
        1
    } else {
        1 + line_len(rest.drop_first())
    }
}

pub proof fn lemma_line_len(rest: Seq<char>)
    ensures
        line_len(rest) <= rest.len(),
        rest.len() > 0 ==> line_len(rest) > 0,
    decreases rest.len(),
{
    if rest.len() > 0 && rest[0] != '\n' {
        lemma_line_len(rest.drop_first());
    }
}

/// A reader, as a mathematical value.
pub ghost struct ReaderView {
    /// The text that is still to be read.
    pub rest: Seq<char>,
    /// The number of lines read so far.
    pub pos: nat,
}

impl ReaderView {
    /// The position and the directive that the next read gives: the parsed
    /// first line, or `Close` at the end of the text.
    pub open spec fn upcoming(self) -> (nat, DirectiveView) {
        if self.rest.len() == 0 {
            (self.pos, DirectiveView::Close)
        } else {
            (self.pos, parse_line_spec(self.rest.subrange(0, line_len(self.rest) as int)))
        }
    }

    /// The reader after one read: behind the first line. At the end of the
    /// text it stays as it is.
    pub open spec fn advanced(self) -> ReaderView {
        if self.rest.len() == 0 {
            self
        } else {
            ReaderView {
                rest: self.rest.subrange(line_len(self.rest) as int, self.rest.len() as int),
                pos: self.pos + 1,
            }
        }
    }
}

/// Reads directives from the text of one file.
#[derive(Debug)]
pub struct DirectiveReader {
    chars: Vec<char>,
    offset: usize,
    pos: usize,
}

impl View for DirectiveReader {
    type V = ReaderView;

    closed spec fn view(&self) -> ReaderView {
        ReaderView {
            rest: self.chars@.subrange(self.offset as int, self.chars@.len() as int),
            pos: self.pos as nat,
        }
    }
}

/// The end of the line of `chars` that starts at `from`, its line break
/// included.
fn line_end_index(chars: &Vec<char>, from: usize) -> (end: usize)
    requires
        from <= chars.len(),
    ensures
        from <= end <= chars.len(),
        end - from == line_len(chars@.subrange(from as int, chars@.len() as int)),
{
    let mut end: usize = from;
    while end < chars.len() && chars[end] != '\n'
        invariant
            from <= end <= chars.len(),
            line_len(chars@.subrange(from as int, chars@.len() as int)) == (end - from) + line_len(
                chars@.subrange(end as int, chars@.len() as int),
            ),
        decreases chars.len() - end,
    {
        assert(chars@.subrange(end as int, chars@.len() as int).drop_first() =~= chars@.subrange(
            end + 1,
            chars@.len() as int,
        ));
        end += 1;
    }
    if end < chars.len() {
        end += 1;
    }
    end
}

impl DirectiveReader {
    /// Whether the reader has read no more lines than characters.
    pub closed spec fn wf(&self) -> bool {
        self.pos <= self.offset <= self.chars@.len()
    }

    /// A reader at the start of `text`.
    pub fn new(text: &str) -> (reader: DirectiveReader)
        ensures
            reader.wf(),
            reader@ == (ReaderView { rest: text@, pos: 0 }),
    {
        let chars = chars_of(text);
        assert(chars@.subrange(0, chars@.len() as int) =~= text@);
        DirectiveReader { chars, offset: 0, pos: 0 }
    }
}

impl LineRead for DirectiveReader {
    open spec fn ready(&self) -> bool {
        self.wf()
    }

    open spec fn upcoming(state: ReaderView) -> (nat, DirectiveView) {
        state.upcoming()
    }

    open spec fn advanced(state: ReaderView) -> ReaderView {
        state.advanced()
    }

    fn read(&mut self) -> (item: (usize, Directive)) {
        if self.offset == self.chars.len() {
            return (self.pos, Directive::Close);
        }
        let ghost rest = self@.rest;
        let end = line_end_index(&self.chars, self.offset);
        proof {
            lemma_line_len(rest);
            assert(rest.subrange(0, line_len(rest) as int) =~= self.chars@.subrange(
                self.offset as int,
                end as int,
            ));
            assert(rest.subrange(line_len(rest) as int, rest.len() as int) =~= self.chars@.subrange(
                end as int,
                self.chars@.len() as int,
            ));
        }
        let directive = parse_line_in(&self.chars, self.offset, end);
        let pos = self.pos;
        self.offset = end;
        self.pos = pos + 1;
        (pos, directive)
    }
}

} // verus!
