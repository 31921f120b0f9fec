//! Where directives come from: a reader, a reader that stays at its end, and
//! a reader that takes directives back to hand them out again.
use crate::directive::{Directive, DirectiveView};
use crate::directive_reader::{DirectiveReader, ReaderView};
use vstd::prelude::*;

verus! {

/// A source of directives, each with the position of its line.
pub trait LineRead: View {
    /// Whether the reader can be read from.
    spec fn ready(&self) -> bool;

    /// The position and the directive that the next read of a reader in the
    /// state `state` gives.
    spec fn upcoming(state: Self::V) -> (nat, DirectiveView);

    /// The state of a reader after one read in the state `state`.
    spec fn advanced(state: Self::V) -> Self::V;

    /// The next directive and the position of its line.
    fn read(&mut self) -> (item: (usize, Directive))
        requires
            old(self).ready(),
        ensures
            final(self).ready(),
            item.0 == Self::upcoming(old(self)@).0,
            item.1@ == Self::upcoming(old(self)@).1,
            final(self)@ == Self::advanced(old(self)@),
    ;
}

/// A reader that, once it has given `Close`, gives only blank lines.
#[derive(Debug)]
pub struct Fused<T> {
    line_read: T,
    empty: Option<usize>,
}

/// A [`Fused`] as a mathematical value.
pub ghost struct FusedView<V> {
    /// The reader behind it.
    pub line_read: V,
    /// The position at which `Close` was given, once it was.
    pub empty: Option<nat>,
}

impl<T: LineRead> View for Fused<T> {
    type V = FusedView<T::V>;

    closed spec fn view(&self) -> FusedView<T::V> {
        FusedView {
            line_read: self.line_read@,
            empty: match self.empty {
                Some(position) => Some(position as nat),
                None => None,
            },
        }
    }
}

impl<T: LineRead> Fused<T> {
    /// A reader on top of `line_read` that has not given `Close` yet.
    pub fn from(line_read: T) -> (fused: Self)
        requires
            line_read.ready(),
        ensures
            fused.ready(),
            fused@ == (FusedView { line_read: line_read@, empty: None }),
    {
        Fused { line_read, empty: None }
    }
}

impl<T: LineRead> LineRead for Fused<T> {
    closed spec fn ready(&self) -> bool {
        self.line_read.ready()
    }

    open spec fn upcoming(state: FusedView<T::V>) -> (nat, DirectiveView) {
        match state.empty {
            Some(position) => (position, DirectiveView::Empty),
            None => T::upcoming(state.line_read),
        }
    }

    open spec fn advanced(state: FusedView<T::V>) -> FusedView<T::V> {
        match state.empty {
            Some(_) => state,
            None => FusedView {
                line_read: T::advanced(state.line_read),
                empty: if T::upcoming(state.line_read).1 is Close {
                    Some(T::upcoming(state.line_read).0)
                } else {
                    None
                },
            },
        }
    }

    fn read(&mut self) -> (item: (usize, Directive)) {
        match self.empty {
            Some(position) => (position, Directive::Empty),
            None => {
                let (position, directive) = self.line_read.read();
                match directive {
                    Directive::Close => {
                        self.empty = Some(position);
                        (position, Directive::Close)
                    },
                    other => (position, other),
                }
            },
        }
    }
}

/// What a list of directives with their positions holds.
pub open spec fn items(stack: Seq<(usize, Directive)>) -> Seq<(nat, DirectiveView)> {
    Seq::new(stack.len(), |i: int| (stack[i].0 as nat, stack[i].1@))
}

/// A [`LineReader`] as a mathematical value.
pub ghost struct LineReaderView {
    /// The directives that were handed back; the last one comes out first.
    pub stack: Seq<(nat, DirectiveView)>,
    /// The reader behind them.
    pub line_read: FusedView<ReaderView>,
}

impl LineReaderView {
    /// A reader at the start of `text`, with nothing handed back.
    pub open spec fn start(text: Seq<char>) -> LineReaderView {
        LineReaderView {
            stack: Seq::empty(),
            line_read: FusedView { line_read: ReaderView { rest: text, pos: 0 }, empty: None },
        }
    }

    /// The position and the directive that the next read gives: what was
    /// handed back last, or what the reader gives.
    pub open spec fn upcoming(self) -> (nat, DirectiveView) {
        if self.stack.len() > 0 {
            self.stack.last()
        } else {
            Fused::<DirectiveReader>::upcoming(self.line_read)
        }
    }

    /// The reader after one read.
    pub open spec fn advanced(self) -> LineReaderView {
        if self.stack.len() > 0 {
            LineReaderView { stack: self.stack.drop_last(), line_read: self.line_read }
        } else {
            LineReaderView {
                stack: self.stack,
                line_read: Fused::<DirectiveReader>::advanced(self.line_read),
            }
        }
    }

    /// The reader after `item` was handed back.
    pub open spec fn pushed(self, item: (nat, DirectiveView)) -> LineReaderView {
        LineReaderView { stack: self.stack.push(item), line_read: self.line_read }
    }
}

/// A reader that hands out again what was handed back to it, before it
/// reads on.
#[derive(Debug)]
pub struct LineReader {
    stack: Vec<(usize, Directive)>,
    line_read: Fused<DirectiveReader>,
}

impl View for LineReader {
    type V = LineReaderView;

    closed spec fn view(&self) -> LineReaderView {
        LineReaderView { stack: items(self.stack@), line_read: self.line_read@ }
    }
}

impl LineReader {
    /// Whether the reader can be read from.
    pub closed spec fn wf(&self) -> bool {
        self.line_read.ready()
    }

    /// A reader on top of `line_read`, with nothing handed back.
    pub fn new(line_read: DirectiveReader) -> (reader: LineReader)
        requires
            line_read.wf(),
        ensures
            reader.wf(),
            reader@ == (LineReaderView {
                stack: Seq::empty(),
                line_read: FusedView { line_read: line_read@, empty: None },
            }),
    {
        let reader = LineReader { stack: Vec::new(), line_read: Fused::from(line_read) };
        assert(reader@.stack =~= Seq::empty());
        reader
    }

    /// Hands `directive` back: the next read gives it, with `line_nr`.
    /// Gives the reader back for more.
    pub fn push(&mut self, line_nr: usize, directive: Directive) -> (this: &mut Self)
        ensures
            this.wf() == old(self).wf(),
            this@ == old(self)@.pushed((line_nr as nat, directive@)),
            *final(self) == *final(this),
    {
        self.stack.push((line_nr, directive));
        assert(self@.stack =~= old(self)@.stack.push((line_nr as nat, directive@)));
        self
    }
}

impl LineRead for LineReader {
    open spec fn ready(&self) -> bool {
        self.wf()
    }

    open spec fn upcoming(state: LineReaderView) -> (nat, DirectiveView) {
        state.upcoming()
    }

    open spec fn advanced(state: LineReaderView) -> LineReaderView {
        state.advanced()
    }

    fn read(&mut self) -> (item: (usize, Directive)) {
        match self.stack.pop() {
            Some(item) => {
                assert(self@.stack =~= old(self)@.stack.drop_last());
                item
            },
            None => self.line_read.read(),
        }
    }
}

} // verus!
