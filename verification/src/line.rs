//! One emitted line of a document, and the builder that makes it.
use crate::cmd::{Cmd, CmdView};
use crate::text::{concat, texts};
use vstd::prelude::*;

verus! {

/// What a line is shown as.
#[derive(Debug, Clone, Copy, PartialEq, Eq, Structural)]
pub enum Kind {
    /// A selectable line, or a blank one.
    Normal,
    /// A heading inside the document.
    Title,
    /// A warning about the document.
    Warning,
}

/// Where a line came from.
#[derive(Debug)]
pub enum Source {
    /// The file at this path.
    File(String),
}

impl View for Source {
    type V = Seq<char>;

    /// The path of the file.
    open spec fn view(&self) -> Seq<char> {
        match self {
            Source::File(path) => path@,
        }
    }
}

impl Clone for Source {
    fn clone(&self) -> (copy: Source)
        ensures
            copy@ == self@,
    {
        match self {
            Source::File(path) => Source::File(path.clone()),
        }
    }
}

impl Source {
    /// The file at `path`.
    pub fn file(path: &str) -> (source: Source)
        ensures
            source@ == path@,
    {
        Source::File(path.to_owned())
    }

    /// The path of the file.
    pub fn path(&self) -> (path: &str)
        ensures
            path@ == self@,
    {
        match self {
            Source::File(path) => path.as_str(),
        }
    }

    /// The source as it is handed to a command that runs: `FILE:` and the
    /// path.
    pub fn describe(&self) -> (text: String)
        ensures
            text@ == "FILE:"@ + self@,
    {
        concat("FILE:", self.path())
    }
}

/// A line in the making. `T` and `P` are `()` until the source and the
/// position are set; only a builder with both can build.
#[derive(Debug)]
pub struct Builder<T, P> {
    source: T,
    position: P,
    text: String,
    cmd: Option<Cmd>,
    kind: Kind,
}

impl<T, P> Builder<T, P> {
    /// The source set so far.
    pub closed spec fn spec_source(self) -> T {
        self.source
    }

    /// The position set so far.
    pub closed spec fn spec_position(self) -> P {
        self.position
    }

    /// The text set so far.
    pub closed spec fn spec_text(self) -> Seq<char> {
        self.text@
    }

    /// The command template set so far, if any.
    pub closed spec fn spec_cmd(self) -> Option<CmdView> {
        match self.cmd {
            Some(cmd) => Some(cmd@),
            None => None,
        }
    }

    /// The kind set so far.
    pub closed spec fn spec_kind(self) -> Kind {
        self.kind
    }

    /// Whether `self` and `other` agree on all but source and position.
    pub open spec fn same_content<U, Q>(self, other: Builder<U, Q>) -> bool {
        &&& self.spec_text() == other.spec_text()
        &&& self.spec_cmd() == other.spec_cmd()
        &&& self.spec_kind() == other.spec_kind()
    }

    /// Sets where the line came from.
    pub fn source(self, source: Source) -> (builder: Builder<Source, P>)
        ensures
            builder.spec_source() == source,
            builder.spec_position() == self.spec_position(),
            builder.same_content(self),
    {
        Builder {
            source,
            position: self.position,
            text: self.text,
            cmd: self.cmd,
            kind: self.kind,
        }
    }

    /// Sets the position of the line in its file.
    pub fn position(self, position: usize) -> (builder: Builder<T, usize>)
        ensures
            builder.spec_source() == self.spec_source(),
            builder.spec_position() == position,
            builder.same_content(self),
    {
        Builder {
            source: self.source,
            position,
            text: self.text,
            cmd: self.cmd,
            kind: self.kind,
        }
    }

    /// Sets the text of the line.
    pub fn text(self, text: String) -> (builder: Self)
        ensures
            builder.spec_source() == self.spec_source(),
            builder.spec_position() == self.spec_position(),
            builder.spec_text() == text@,
            builder.spec_cmd() == self.spec_cmd(),
            builder.spec_kind() == self.spec_kind(),
    {
        Builder {
            source: self.source,
            position: self.position,
            text,
            cmd: self.cmd,
            kind: self.kind,
        }
    }

    /// Makes the line a heading.
    pub fn title(self) -> (builder: Self)
        ensures
            builder.spec_source() == self.spec_source(),
            builder.spec_position() == self.spec_position(),
            builder.spec_text() == self.spec_text(),
            builder.spec_cmd() == self.spec_cmd(),
            builder.spec_kind() == Kind::Title,
    {
        Builder {
            source: self.source,
            position: self.position,
            text: self.text,
            cmd: self.cmd,
            kind: Kind::Title,
        }
    }

    /// Makes the line a warning.
    pub fn warning(self) -> (builder: Self)
        ensures
            builder.spec_source() == self.spec_source(),
            builder.spec_position() == self.spec_position(),
            builder.spec_text() == self.spec_text(),
            builder.spec_cmd() == self.spec_cmd(),
            builder.spec_kind() == Kind::Warning,
    {
        Builder {
            source: self.source,
            position: self.position,
            text: self.text,
            cmd: self.cmd,
            kind: Kind::Warning,
        }
    }

    /// Sets the command template of the line.
    pub fn cmd(self, cmd: Cmd) -> (builder: Self)
        ensures
            builder.spec_source() == self.spec_source(),
            builder.spec_position() == self.spec_position(),
            builder.spec_text() == self.spec_text(),
            builder.spec_cmd() == Some(cmd@),
            builder.spec_kind() == self.spec_kind(),
    {
        Builder {
            source: self.source,
            position: self.position,
            text: self.text,
            cmd: Some(cmd),
            kind: self.kind,
        }
    }
}

impl Builder<(), ()> {
    /// A builder for a normal line with no text and no command template.
    pub fn new() -> (builder: Self)
        ensures
            builder.spec_text() == Seq::<char>::empty(),
            builder.spec_cmd() is None,
            builder.spec_kind() == Kind::Normal,
    {
        Builder { source: (), position: (), text: String::new(), cmd: None, kind: Kind::Normal }
    }
}

impl Builder<Source, usize> {
    /// The line. Without a command template it gets the empty one.
    pub fn build(self) -> (line: Line)
        ensures
            line@ == (LineModel {
                text: self.spec_text(),
                source: self.spec_source()@,
                position: self.spec_position() as nat,
                cmd: match self.spec_cmd() {
                    Some(cmd) => cmd,
                    None => CmdView::empty(),
                },
                kind: self.spec_kind(),
            }),
    {
        let cmd = match self.cmd {
            Some(cmd) => cmd,
            None => Cmd::new(),
        };
        Line {
            text: self.text,
            source: self.source,
            position: self.position,
            cmd,
            kind: self.kind,
        }
    }
}

/// One emitted line of a document.
#[derive(Debug)]
pub struct Line {
    text: String,
    source: Source,
    position: usize,
    cmd: Cmd,
    kind: Kind,
}

/// A [`Line`] as a mathematical value.
pub ghost struct LineModel {
    pub text: Seq<char>,
    /// The path of the file that the line came from.
    pub source: Seq<char>,
    pub position: nat,
    /// The command template as it was when the line was emitted.
    pub cmd: CmdView,
    pub kind: Kind,
}

impl View for Line {
    type V = LineModel;

    closed spec fn view(&self) -> LineModel {
        LineModel {
            text: self.text@,
            source: self.source@,
            position: self.position as nat,
            cmd: self.cmd@,
            kind: self.kind,
        }
    }
}

impl Clone for Line {
    fn clone(&self) -> (copy: Line)
        ensures
            copy@ == self@,
    {
        Line {
            text: self.text.clone(),
            source: self.source.clone(),
            position: self.position,
            cmd: self.cmd.clone(),
            kind: self.kind,
        }
    }
}

impl Line {
    /// Where the line came from.
    pub fn source(&self) -> (source: &Source)
        ensures
            source@ == self@.source,
    {
        &self.source
    }

    /// The position of the line in its file.
    pub fn line(&self) -> (position: usize)
        ensures
            position == self@.position,
    {
        self.position
    }

    /// The text of the line.
    pub fn text(&self) -> (text: &str)
        ensures
            text@ == self@.text,
    {
        self.text.as_str()
    }

    /// The command template of the line.
    pub fn cmd(&self) -> (cmd: &Cmd)
        ensures
            cmd@ == self@.cmd,
    {
        &self.cmd
    }

    /// Whether selecting the line runs anything.
    pub fn has_command(&self) -> (has: bool)
        ensures
            has == (self@.cmd != CmdView::empty()),
    {
        !self.cmd.is_empty()
    }

    /// Whether the line is a heading.
    pub fn is_title(&self) -> (is: bool)
        ensures
            is == (self@.kind == Kind::Title),
    {
        match self.kind {
            Kind::Title => true,
            _ => false,
        }
    }

    /// Whether the line is a warning.
    pub fn is_warning(&self) -> (is: bool)
        ensures
            is == (self@.kind == Kind::Warning),
    {
        match self.kind {
            Kind::Warning => true,
            _ => false,
        }
    }

    /// The argument list that selecting the line runs: the prefix, the
    /// line's text, the suffix. Its first item is the program.
    pub fn arguments(&self) -> (args: Vec<String>)
        ensures
            texts(args@) == self@.cmd.arguments(seq![self@.text]),
    {
        let mut params: Vec<String> = Vec::new();
        params.push(self.text.clone());
        assert(texts(params@) =~= seq![self@.text]);
        self.cmd.arguments(&params)
    }
}

} // verus!
