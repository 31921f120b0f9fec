//! A document in the making: the files that are open, and what was made of
//! them so far.
use crate::cmd::{CmdView, Directory};
use crate::directive::DirectiveView;
use crate::import::{included, opened_view, set_views, Import, ImportView, Inclusion, Registry};
use crate::laws::law_step_keeps_lines;
use crate::line::{Line, LineModel};
use crate::path_set::PathSet;
use crate::source::{Opened, OpenedView, Source, SourceView};
use crate::source_action::{line_models, performed, ActionView, Draft, SourceAction};
use crate::{escape_path_from, escaped, home_dir};
use vstd::prelude::*;

verus! {

/// How far a document is.
#[derive(Debug)]
pub enum Progress {
    /// There is more to read.
    Continue,
    /// Every file was read to its end: the document is complete.
    Finished,
    /// The file that `import` names is wanted. It is to be looked for at
    /// `path`, the path that `import` names with the home directory filled
    /// in, from the directory `dir`. What was found is to be handed to
    /// [`LineView::resolve`] with `import` and `position`.
    Import { import: Import, path: String, dir: String, position: usize },
}

/// A [`Progress`] as a mathematical value.
pub ghost enum ProgressView {
    Continue,
    Finished,
    Import { import: ImportView, path: Seq<char>, dir: Seq<char>, position: nat },
}

impl View for Progress {
    type V = ProgressView;

    open spec fn view(&self) -> ProgressView {
        match self {
            Progress::Continue => ProgressView::Continue,
            Progress::Finished => ProgressView::Finished,
            Progress::Import { import, path, dir, position } => ProgressView::Import {
                import: import@,
                path: path@,
                dir: dir@,
                position: *position as nat,
            },
        }
    }
}

/// A document in the making, as a mathematical value.
pub ghost struct RunView {
    /// The path of the root file.
    pub root: Seq<char>,
    /// The home directory of the user, if it has one.
    pub home: Option<Seq<char>>,
    /// The files that were imported, the root among them.
    pub imported: Set<Seq<char>>,
    /// Every file that was entered.
    pub visited: Set<Seq<char>>,
    /// The title set so far; empty until a title is set.
    pub title: Seq<char>,
    /// The lines emitted so far.
    pub lines: Seq<LineModel>,
    /// The open files; the last one is being read.
    pub sources: Seq<SourceView>,
    /// The command templates, by handle.
    pub cmds: Seq<CmdView>,
    /// For each lineage of sourced files, the files that were sourced in it.
    pub sourced: Seq<Set<Seq<char>>>,
}

impl RunView {
    /// The document before anything was read of the root file `path` in
    /// `dir` with the text `text`, for a user with the home directory
    /// `home`.
    pub open spec fn start(
        path: Seq<char>,
        dir: Seq<char>,
        text: Seq<char>,
        home: Option<Seq<char>>,
    ) -> RunView {
        RunView {
            root: path,
            home,
            imported: Set::empty().insert(path),
            visited: Set::empty().insert(path),
            title: Seq::empty(),
            lines: Seq::empty(),
            sources: seq![SourceView::fresh(path, dir, text, 0, 0, true, Seq::empty())],
            cmds: seq![CmdView::empty()],
            sourced: seq![Set::empty()],
        }
    }

    /// Whether every file was read to its end.
    pub open spec fn finished(self) -> bool {
        self.sources.len() == 0
    }

    /// The title of the document: the one that was set, or the path of the
    /// root file where none or an empty one was set.
    pub open spec fn shown_title(self) -> Seq<char> {
        if self.title.len() == 0 {
            self.root
        } else {
            self.title
        }
    }

    /// What the run has made so far, apart from its open files.
    pub open spec fn draft(self) -> Draft {
        Draft { lines: self.lines, title: self.title, cmds: self.cmds }
    }

    /// What the run remembers across its files.
    pub open spec fn registry(self) -> Registry {
        Registry { imported: self.imported, sourced: self.sourced, cmds: self.cmds }
    }

    /// The document after one step, and how far it is then.
    ///
    /// The step is made in the file that is being read. A file that is done
    /// is left, and the file that included it is read on. A request to
    /// include a file leaves the document waiting for that file, at the
    /// path that the request names with the home directory filled in; where
    /// the path lies in a home directory and there is none, the file counts
    /// as not found.
    pub open spec fn advanced(self) -> (RunView, ProgressView) {
        if self.finished() {
            (self, ProgressView::Finished)
        } else {
            let outcome = performed(self.sources.last(), self.draft());
            let below = self.sources.drop_last();
            let run = RunView {
                title: outcome.draft.title,
                lines: outcome.draft.lines,
                cmds: outcome.draft.cmds,
                sources: below.push(outcome.source),
                ..self
            };
            match outcome.action {
                ActionView::Noop => (run, ProgressView::Continue),
                ActionView::Pop => (
                    RunView { sources: below, ..run },
                    if below.len() == 0 {
                        ProgressView::Finished
                    } else {
                        ProgressView::Continue
                    },
                ),
                ActionView::Import { import, position } => match escaped(import.file, self.home) {
                    Ok(path) => (
                        run,
                        ProgressView::Import { import, path, dir: outcome.source.dir, position },
                    ),
                    Err(_) => (run.resolved(import, position, None), ProgressView::Continue),
                },
            }
        }
    }

    /// The document after the file asked for by `import` at `position` was
    /// looked for: `opened` holds the file, or `None` if it could not be
    /// found or read.
    ///
    /// The file is entered, passed over if it was included before, or the
    /// warning that it could not be had is handed back to the file that is
    /// being read. A finished document stays as it is.
    pub open spec fn resolved(
        self,
        import: ImportView,
        position: nat,
        opened: Option<OpenedView>,
    ) -> RunView {
        if self.finished() {
            self
        } else {
            let parent = self.sources.last();
            let (registry, inclusion) = included(import, parent, self.registry(), opened);
            let run = RunView {
                imported: registry.imported,
                sourced: registry.sourced,
                cmds: registry.cmds,
                ..self
            };
            match inclusion {
                Inclusion::Entered(source) => RunView {
                    visited: run.visited.insert(source.path),
                    sources: run.sources.push(source),
                    ..run
                },
                Inclusion::Skipped => run,
                Inclusion::Failed(warning) => RunView {
                    sources: run.sources.drop_last().push(
                        SourceView {
                            read: parent.read.pushed((position, DirectiveView::Warning(warning))),
                            ..parent
                        },
                    ),
                    ..run
                },
            }
        }
    }

    /// The document after at most `limit` steps: it stops early when it is
    /// finished or waits for a file.
    pub open spec fn ran(self, limit: nat) -> (RunView, ProgressView)
        decreases limit,
    {
        if limit == 0 {
            (self, ProgressView::Continue)
        } else {
            let (run, progress) = self.advanced();
            if progress is Continue {
                run.ran((limit - 1) as nat)
            } else {
                (run, progress)
            }
        }
    }
}

/// What a list of open files holds.
pub open spec fn source_views(sources: Seq<Source>) -> Seq<SourceView> {
    Seq::new(sources.len(), |i: int| sources[i]@)
}

/// A document: while it is made, the files that are open and what was made
/// of them so far; once it is finished, its title, its lines and the files
/// it was made of.
pub struct LineView {
    source: String,
    home: Option<String>,
    imported: PathSet,
    visited: PathSet,
    title: String,
    lines: Vec<Line>,
    sources: Vec<Source>,
    cmds: Directory,
    sourced: Vec<PathSet>,
}

impl View for LineView {
    type V = RunView;

    closed spec fn view(&self) -> RunView {
        RunView {
            root: self.source@,
            home: match self.home {
                Some(home) => Some(home@),
                None => None,
            },
            imported: self.imported@,
            visited: self.visited@,
            title: self.title@,
            lines: line_models(self.lines@),
            sources: source_views(self.sources@),
            cmds: self.cmds@,
            sourced: set_views(self.sourced@),
        }
    }
}

impl LineView {
    /// Whether each open file can be read from, and holds a command
    /// template and a lineage of this document.
    pub closed spec fn wf(&self) -> bool {
        forall|i: int|
            0 <= i < self.sources@.len() ==> {
                &&& (#[trigger] self.sources@[i]).wf()
                &&& self.sources@[i]@.cmd < self.cmds@.len()
                &&& self.sources@[i]@.sourced < self.sourced@.len()
            }
    }

    /// A document about to be read from its root file: the file at the
    /// canonical path `path` in the directory `dir`, with the text `text`.
    /// Paths that lie in a home directory are looked for in that of the
    /// current user.
    pub fn open(path: &str, dir: &str, text: &str) -> (view: LineView)
        ensures
            view.wf(),
            exists|home: Option<Seq<char>>| view@ == RunView::start(path@, dir@, text@, home),
    {
        let view = LineView::open_for(path, dir, text, home_dir());
        assert(view@ == RunView::start(path@, dir@, text@, view@.home));
        view
    }

    /// A document about to be read from its root file, for a user with the
    /// home directory `home`, if it has one.
    pub fn open_for(path: &str, dir: &str, text: &str, home: Option<String>) -> (view: LineView)
        ensures
            view.wf(),
            view@ == RunView::start(path@, dir@, text@, match home {
                Some(home) => Some(home@),
                None => None,
            }),
    {
        let mut imported = PathSet::new();
        imported.insert(path);
        let mut visited = PathSet::new();
        visited.insert(path);
        let mut cmds = Directory::new();
        let cmd = cmds.new_handle();
        let mut sourced: Vec<PathSet> = Vec::new();
        sourced.push(PathSet::new());
        let mut sources: Vec<Source> = Vec::new();
        sources.push(Source::new(path, dir, text, cmd, 0, true));
        let view = LineView {
            source: path.to_owned(),
            home,
            imported,
            visited,
            title: String::new(),
            lines: Vec::new(),
            sources,
            cmds,
            sourced,
        };
        assert(view@.lines =~= Seq::empty());
        assert(view@.sources =~= seq![
            SourceView::fresh(path@, dir@, text@, 0, 0, true, Seq::empty()),
        ]);
        assert(view@.cmds =~= seq![CmdView::empty()]);
        assert(view@.sourced =~= seq![Set::empty()]);
        view
    }

    /// The home directory that paths are looked for in, if there is one.
    pub fn home(&self) -> (home: Option<&str>)
        ensures
            match home {
                Some(home) => self@.home == Some(home@),
                None => self@.home is None,
            },
    {
        match &self.home {
            Some(home) => Some(home.as_str()),
            None => None,
        }
    }

    /// Whether every file was read to its end.
    pub fn is_finished(&self) -> (finished: bool)
        ensures
            finished == self@.finished(),
    {
        self.sources.len() == 0
    }

    /// Makes one step in the file that is being read, and says how far the
    /// document is then.
    pub fn advance(&mut self) -> (progress: Progress)
        requires
            old(self).wf(),
        ensures
            final(self).wf(),
            final(self)@ == old(self)@.advanced().0,
            progress@ == old(self)@.advanced().1,
            old(self)@.lines.is_prefix_of(final(self)@.lines),
    {
        proof {
            law_step_keeps_lines(old(self)@);
        }
        let ghost below = self@.sources.drop_last();
        let mut source = match self.sources.pop() {
            Some(source) => source,
            None => {
                return Progress::Finished;
            },
        };
        assert(source_views(self.sources@) =~= below);
        let action = SourceAction::perform(
            &mut source,
            &mut self.lines,
            &mut self.title,
            &mut self.cmds,
        );
        match action {
            SourceAction::Noop => {
                self.sources.push(source);
                assert(source_views(self.sources@) =~= below.push(source@));
                Progress::Continue
            },
            SourceAction::Pop => {
                if self.sources.len() == 0 {
                    Progress::Finished
                } else {
                    Progress::Continue
                }
            },
            SourceAction::Import { import, position } => {
                let dir = source.dir.clone();
                self.sources.push(source);
                assert(source_views(self.sources@) =~= below.push(source@));
                match escape_path_from(import.file(), self.home()) {
                    Ok(path) => Progress::Import { import, path, dir, position },
                    Err(_) => {
                        self.resolve(import, position, None);
                        Progress::Continue
                    },
                }
            },
        }
    }

    /// Takes what was found for the file that `import` asked for at
    /// `position`: `opened` holds the file, or `None` if it could not be
    /// found or read.
    pub fn resolve(&mut self, import: Import, position: usize, opened: Option<Opened>)
        requires
            old(self).wf(),
        ensures
            final(self).wf(),
            final(self)@ == old(self)@.resolved(import@, position as nat, opened_view(opened)),
            final(self)@.lines == old(self)@.lines,
    {
        let ghost below = self@.sources.drop_last();
        let mut parent = match self.sources.pop() {
            Some(parent) => parent,
            None => {
                return ;
            },
        };
        assert(source_views(self.sources@) =~= below);
        let result = import.perform_import(
            &parent,
            &mut self.imported,
            &mut self.sourced,
            &mut self.cmds,
            opened,
        );
        match result {
            Ok(Some(source)) => {
                self.visited.insert(source.path.as_str());
                self.sources.push(parent);
                self.sources.push(source);
                assert(source_views(self.sources@) =~= below.push(parent@).push(source@));
                assert(below.push(parent@) =~= old(self)@.sources);
            },
            Ok(None) => {
                self.sources.push(parent);
                assert(source_views(self.sources@) =~= old(self)@.sources);
            },
            Err(directive) => {
                parent.read.push(position, directive);
                self.sources.push(parent);
                assert(source_views(self.sources@) =~= below.push(parent@));
            },
        }
    }

    /// Makes steps until the document is finished or waits for a file, but
    /// no more than `limit` of them.
    pub fn run(&mut self, limit: usize) -> (progress: Progress)
        requires
            old(self).wf(),
        ensures
            final(self).wf(),
            final(self)@ == old(self)@.ran(limit as nat).0,
            progress@ == old(self)@.ran(limit as nat).1,
            old(self)@.lines.is_prefix_of(final(self)@.lines),
    {
        let mut left: usize = limit;
        while left > 0
            invariant
                self.wf(),
                self@.ran(left as nat) == old(self)@.ran(limit as nat),
                old(self)@.lines.is_prefix_of(self@.lines),
            decreases left,
        {
            let progress = self.advance();
            match progress {
                Progress::Continue => {},
                other => {
                    return other;
                },
            }
            left -= 1;
        }
        Progress::Continue
    }

    /// The title of the document: the one that was set, or the path of the
    /// root file where none or an empty one was set.
    pub fn title(&self) -> (title: &str)
        ensures
            title@ == self@.shown_title(),
    {
        if self.title.as_str().is_empty() {
            self.source.as_str()
        } else {
            self.title.as_str()
        }
    }

    /// The path of the root file.
    pub fn source(&self) -> (path: &str)
        ensures
            path@ == self@.root,
    {
        self.source.as_str()
    }

    /// The number of lines emitted so far.
    pub fn len(&self) -> (len: usize)
        ensures
            len == self@.lines.len(),
    {
        self.lines.len()
    }

    /// The line at `index`, if there is one.
    pub fn get(&self, index: usize) -> (line: Option<&Line>)
        ensures
            match line {
                Some(line) => index < self@.lines.len() && line@ == self@.lines[index as int],
                None => index >= self@.lines.len(),
            },
    {
        if index < self.lines.len() {
            Some(&self.lines[index])
        } else {
            None
        }
    }

    /// The lines emitted so far, in order.
    pub fn as_slice(&self) -> (lines: &[Line])
        ensures
            line_models(lines@) == self@.lines,
    {
        self.lines.as_slice()
    }

    /// The texts of the lines emitted so far, in order.
    pub fn lines(&self) -> (texts: Vec<String>)
        ensures
            texts@.len() == self@.lines.len(),
            forall|i: int| 0 <= i < texts@.len() ==> (#[trigger] texts@[i])@ == self@.lines[i].text,
    {
        let mut texts: Vec<String> = Vec::new();
        let mut i: usize = 0;
        while i < self.lines.len()
            invariant
                i <= self.lines.len(),
                texts@.len() == i,
                forall|j: int|
                    0 <= j < i ==> (#[trigger] texts@[j])@ == line_models(self.lines@)[j].text,
            decreases self.lines.len() - i,
        {
            texts.push(self.lines[i].text().to_owned());
            i += 1;
        }
        texts
    }

    /// The paths of the files that were entered, each once, in no
    /// particular order.
    pub fn all_sources(&self) -> (paths: Vec<String>)
        ensures
            forall|i: int| 0 <= i < paths@.len() ==> self@.visited.contains(#[trigger] paths@[i]@),
            forall|path: Seq<char>|
                self@.visited.contains(path) ==> exists|i: int|
                    0 <= i < paths@.len() && #[trigger] paths@[i]@ == path,
            forall|i: int, j: int|
                0 <= i < j < paths@.len() ==> #[trigger] paths@[i]@ != #[trigger] paths@[j]@,
    {
        self.visited.paths()
    }
}

} // verus!
