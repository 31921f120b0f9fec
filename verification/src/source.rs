//! One open file of a run, with the state that belongs to it.
use crate::cmd::Handle;
use crate::directive_reader::DirectiveReader;
use crate::line_map::{scopes_of, LineMapNode, ScopeView};
use crate::line_read::{LineReader, LineReaderView};
use crate::watch::Watch;
use vstd::prelude::*;

verus! {

/// A file that was found and read: what a run needs to enter it.
#[derive(Debug)]
pub struct Opened {
    /// The canonical path of the file.
    pub path: String,
    /// The directory of the file, against which the paths in it are
    /// resolved.
    pub dir: String,
    /// The text of the file.
    pub text: String,
}

/// An [`Opened`] as a mathematical value.
pub ghost struct OpenedView {
    pub path: Seq<char>,
    pub dir: Seq<char>,
    pub text: Seq<char>,
}

impl View for Opened {
    type V = OpenedView;

    open spec fn view(&self) -> OpenedView {
        OpenedView { path: self.path@, dir: self.dir@, text: self.text@ }
    }
}

/// One open file of a run.
pub struct Source {
    /// Where the directives of the file come from.
    pub read: LineReader,
    /// The canonical path of the file.
    pub path: String,
    /// The command template that lines of this file are emitted with.
    pub cmd: Handle,
    /// The place, among the sets of a run, of the set of files that were
    /// sourced in the lineage of this file.
    pub sourced: usize,
    /// The directory of the file.
    pub dir: String,
    /// Whether a title in this file is the title of the document.
    pub is_root: bool,
    /// The warnings collected in this file.
    pub warning_watcher: Watch,
    /// The scopes open in this file.
    pub line_map: Option<LineMapNode>,
}

/// A [`Source`] as a mathematical value.
pub ghost struct SourceView {
    pub read: LineReaderView,
    pub path: Seq<char>,
    pub cmd: nat,
    pub sourced: nat,
    pub dir: Seq<char>,
    pub is_root: bool,
    /// The warnings collected so far; `None` while they are shown.
    pub watch: Option<Seq<Seq<char>>>,
    /// The open scopes, innermost first.
    pub line_map: Seq<ScopeView>,
}

impl SourceView {
    /// A file that was just entered: nothing read, nothing collected.
    pub open spec fn fresh(
        path: Seq<char>,
        dir: Seq<char>,
        text: Seq<char>,
        cmd: nat,
        sourced: nat,
        is_root: bool,
        line_map: Seq<ScopeView>,
    ) -> SourceView {
        SourceView {
            read: LineReaderView::start(text),
            path,
            cmd,
            sourced,
            dir,
            is_root,
            watch: None,
            line_map,
        }
    }
}

impl View for Source {
    type V = SourceView;

    open spec fn view(&self) -> SourceView {
        SourceView {
            read: self.read@,
            path: self.path@,
            cmd: self.cmd@,
            sourced: self.sourced as nat,
            dir: self.dir@,
            is_root: self.is_root,
            watch: self.warning_watcher@,
            line_map: scopes_of(self.line_map),
        }
    }
}

impl Source {
    /// Whether the file can be read from.
    pub open spec fn wf(&self) -> bool {
        self.read.wf()
    }

    /// The file at `path` in `dir` with the text `text`, about to be read:
    /// no scope open, no warning collected.
    pub fn new(path: &str, dir: &str, text: &str, cmd: Handle, sourced: usize, is_root: bool) -> (source:
        Source)
        ensures
            source.wf(),
            source@ == SourceView::fresh(
                path@,
                dir@,
                text@,
                cmd@,
                sourced as nat,
                is_root,
                Seq::empty(),
            ),
    {
        Source {
            read: LineReader::new(DirectiveReader::new(text)),
            path: path.to_owned(),
            cmd,
            sourced,
            dir: dir.to_owned(),
            is_root,
            warning_watcher: Watch::Sleeping,
            line_map: None,
        }
    }
}

} // verus!
