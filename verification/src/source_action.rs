//! One step of a run: read a directive from a file, pass it through the open
//! scopes, and act on what comes out.
use crate::cmd::{Cmd, CmdView, Directory};
use crate::directive::{lemma_view_multiple, views, Directive, DirectiveView};
use crate::import::{Import, ImportView};
use crate::laws::law_perform_keeps_lines;
use crate::line::{Builder, Kind, Line, LineModel, Source as LineSource};
use crate::line_map::{apply_chain, Else, LineMapNode, Mapper, MapperView, ScopeView, Then};
use crate::line_read::{LineRead, LineReader, LineReaderView};
use crate::source::{Source, SourceView};
use vstd::prelude::*;

verus! {

/// What the run has to do after a step.
#[derive(Debug)]
pub enum SourceAction {
    /// Go on with the same file.
    Noop,
    /// The file is done: leave it.
    Pop,
    /// Find the file that `import` names and enter it; `position` is the
    /// line that asked for it.
    Import { import: Import, position: usize },
}

/// A [`SourceAction`] as a mathematical value.
pub ghost enum ActionView {
    Noop,
    Pop,
    Import { import: ImportView, position: nat },
}

impl View for SourceAction {
    type V = ActionView;

    open spec fn view(&self) -> ActionView {
        match self {
            SourceAction::Noop => ActionView::Noop,
            SourceAction::Pop => ActionView::Pop,
            SourceAction::Import { import, position } => ActionView::Import {
                import: import@,
                position: *position as nat,
            },
        }
    }
}

/// What a run has made so far, apart from its open files.
pub ghost struct Draft {
    /// The lines emitted so far.
    pub lines: Seq<LineModel>,
    /// The title of the document.
    pub title: Seq<char>,
    /// The command templates, by handle.
    pub cmds: Seq<CmdView>,
}

/// The outcome of a step.
pub ghost struct Performed {
    pub source: SourceView,
    pub draft: Draft,
    pub action: ActionView,
}

/// What a list of lines holds.
pub open spec fn line_models(lines: Seq<Line>) -> Seq<LineModel> {
    Seq::new(lines.len(), |i: int| lines[i]@)
}

/// Nothing changes and the run goes on.
pub open spec fn unchanged(source: SourceView, draft: Draft) -> Performed {
    Performed { source, draft, action: ActionView::Noop }
}

/// The line that the file `source` emits at `position`.
pub open spec fn line_of(
    source: SourceView,
    position: nat,
    kind: Kind,
    text: Seq<char>,
    cmd: CmdView,
) -> LineModel {
    LineModel { text, source: source.path, position, cmd, kind }
}

/// One more line is emitted.
pub open spec fn emitted(source: SourceView, draft: Draft, line: LineModel) -> Performed {
    Performed {
        source,
        draft: Draft { lines: draft.lines.push(line), ..draft },
        action: ActionView::Noop,
    }
}

/// A warning occurs: it is collected while the file is watching, and
/// emitted as a line otherwise.
pub open spec fn warned(
    source: SourceView,
    draft: Draft,
    position: nat,
    text: Seq<char>,
) -> Performed {
    match source.watch {
        Some(occured) => unchanged(SourceView { watch: Some(occured.push(text)), ..source }, draft),
        None => emitted(
            source,
            draft,
            line_of(source, position, Kind::Warning, text, CmdView::empty()),
        ),
    }
}

/// A manual scope with the rule `mapper` is opened inside the open scopes.
pub open spec fn scoped(source: SourceView, draft: Draft, mapper: MapperView) -> Performed {
    unchanged(
        SourceView {
            line_map: seq![ScopeView { mapper, automatic: false }] + source.line_map,
            ..source
        },
        draft,
    )
}

/// The reader after the directives of `list` were handed back at
/// `position`: the first of them comes out first.
pub open spec fn handed_back(
    read: LineReaderView,
    position: nat,
    list: Seq<DirectiveView>,
) -> LineReaderView {
    LineReaderView {
        stack: read.stack + Seq::new(list.len(), |i: int| (position, list[list.len() - 1 - i])),
        line_read: read.line_read,
    }
}

/// The warning for an end of scope that closes nothing: the innermost scope
/// is of the other kind, or no scope is open.
pub open spec fn end_map_mismatch(chain: Seq<ScopeView>, automatic: bool) -> Seq<char> {
    if chain.len() > 0 {
        if automatic {
            "EndMap directive was issued automatically whilst a manual end directive was required"@
        } else {
            "end directive was given when an automatic EndMap directive was required"@
        }
    } else {
        if automatic {
            "EndMap directive was issued automatically with no LineMap in use"@
        } else {
            "end directive used with nothing to end"@
        }
    }
}

/// What the directive `directive`, read at `position` and already passed
/// through the open scopes, does to the file it was read in and to the
/// draft.
pub open spec fn dispatch(
    source: SourceView,
    draft: Draft,
    position: nat,
    directive: DirectiveView,
) -> Performed {
    match directive {
        DirectiveView::Noop => unchanged(source, draft),
        DirectiveView::Comment(_) => unchanged(source, draft),
        DirectiveView::Close => Performed { source, draft, action: ActionView::Pop },
        DirectiveView::Clean => unchanged(
            SourceView { cmd: draft.cmds.len(), ..source },
            Draft { cmds: draft.cmds.push(CmdView::empty()), ..draft },
        ),
        DirectiveView::Prefix(arg) => unchanged(
            source,
            Draft {
                cmds: draft.cmds.update(source.cmd as int, draft.cmds[source.cmd as int].pre(arg)),
                ..draft
            },
        ),
        DirectiveView::Suffix(arg) => unchanged(
            source,
            Draft {
                cmds: draft.cmds.update(source.cmd as int, draft.cmds[source.cmd as int].suf(arg)),
                ..draft
            },
        ),
        DirectiveView::Watch => match source.watch {
            Some(_) => warned(
                source,
                draft,
                position,
                "watch called multiple times before else or then block"@,
            ),
            None => unchanged(SourceView { watch: Some(Seq::empty()), ..source }, draft),
        },
        DirectiveView::Then => match source.watch {
            Some(occured) => scoped(
                SourceView { watch: None, ..source },
                draft,
                MapperView::Then(occured),
            ),
            None => warned(
                source,
                draft,
                position,
                "then blocks need to be placed somewhere after a watch directive"@,
            ),
        },
        DirectiveView::Else => match source.watch {
            Some(occured) => scoped(
                SourceView { watch: None, ..source },
                draft,
                MapperView::Else(occured),
            ),
            None => warned(
                source,
                draft,
                position,
                "else blocks need to be placed somewhere after a watch directive"@,
            ),
        },
        DirectiveView::DisplayWarnings => warned(
            source,
            draft,
            position,
            "warnings can only be displayed in else blocks"@,
        ),
        DirectiveView::IgnoreWarnings => scoped(source, draft, MapperView::IgnoreWarnings),
        DirectiveView::IgnoreText => scoped(source, draft, MapperView::IgnoreText),
        DirectiveView::Debug => scoped(source, draft, MapperView::Debug),
        DirectiveView::EndMap { automatic } => if source.line_map.len() > 0
            && source.line_map[0].automatic == automatic {
            unchanged(SourceView { line_map: source.line_map.drop_first(), ..source }, draft)
        } else {
            warned(source, draft, position, end_map_mismatch(source.line_map, automatic))
        },
        DirectiveView::Warning(text) => warned(source, draft, position, text),
        DirectiveView::Title(text) => if source.is_root {
            unchanged(source, Draft { title: text, ..draft })
        } else {
            unchanged(source, draft)
        },
        DirectiveView::Subtitle(text) => emitted(
            source,
            draft,
            line_of(source, position, Kind::Title, text, CmdView::empty()),
        ),
        DirectiveView::Import(import) => Performed {
            source,
            draft,
            action: ActionView::Import { import, position },
        },
        DirectiveView::Empty => emitted(
            source,
            draft,
            line_of(source, position, Kind::Normal, Seq::empty(), CmdView::empty()),
        ),
        DirectiveView::Text(text) => emitted(
            source,
            draft,
            line_of(source, position, Kind::Normal, text, draft.cmds[source.cmd as int]),
        ),
        DirectiveView::Multiple(list) => unchanged(
            SourceView { read: handed_back(source.read, position, list), ..source },
            draft,
        ),
    }
}

/// One step in the file `source`: the next directive is read, passed
/// through the open scopes from the innermost one out, and acted on.
pub open spec fn performed(source: SourceView, draft: Draft) -> Performed {
    let (position, raw) = source.read.upcoming();
    let directive = apply_chain(source.line_map, raw, 0);
    dispatch(SourceView { read: source.read.advanced(), ..source }, draft, position, directive)
}

/// Whether the changed values are what `outcome` says.
pub open spec fn is_outcome(
    outcome: Performed,
    source: Source,
    lines: Vec<Line>,
    title: String,
    cmds: Directory,
    action: SourceAction,
) -> bool {
    &&& source@ == outcome.source
    &&& line_models(lines@) == outcome.draft.lines
    &&& title@ == outcome.draft.title
    &&& cmds@ == outcome.draft.cmds
    &&& action@ == outcome.action
}

/// The draft that `lines`, `title` and `cmds` hold.
pub open spec fn draft_of(lines: Vec<Line>, title: String, cmds: Directory) -> Draft {
    Draft { lines: line_models(lines@), title: title@, cmds: cmds@ }
}

/// Emits a line of the file `source`.
fn emit(
    lines: &mut Vec<Line>,
    source: &Source,
    position: usize,
    kind: Kind,
    text: String,
    cmd: Option<Cmd>,
)
    ensures
        line_models(final(lines)@) == line_models(old(lines)@).push(
            line_of(
                source@,
                position as nat,
                kind,
                text@,
                match cmd {
                    Some(cmd) => cmd@,
                    None => CmdView::empty(),
                },
            ),
        ),
{
    let builder = Builder::new().source(LineSource::file(source.path.as_str())).position(
        position,
    ).text(text);
    let builder = match kind {
        Kind::Normal => builder,
        Kind::Title => builder.title(),
        Kind::Warning => builder.warning(),
    };
    let builder = match cmd {
        Some(cmd) => builder.cmd(cmd),
        None => builder,
    };
    let line = builder.build();
    let ghost model = line@;
    lines.push(line);
    assert(line_models(lines@) =~= line_models(old(lines)@).push(model));
}

/// Collects the warning `text` if the file is watching, and emits it as a
/// line otherwise.
fn push_warning(source: &mut Source, lines: &mut Vec<Line>, position: usize, text: &str)
    ensures
        final(source).wf() == old(source).wf(),
        ({
            let outcome = warned(
                old(source)@,
                Draft { lines: line_models(old(lines)@), title: Seq::empty(), cmds: Seq::empty() },
                position as nat,
                text@,
            );
            &&& final(source)@ == outcome.source
            &&& line_models(final(lines)@) == outcome.draft.lines
        }),
{
    if !source.warning_watcher.record(text) {
        emit(lines, source, position, Kind::Warning, text.to_owned(), None);
    }
}

/// Opens a manual scope with the rule `mapper` inside the open scopes.
fn open_scope(source: &mut Source, mapper: Mapper)
    ensures
        final(source).wf() == old(source).wf(),
        final(source)@ == (SourceView {
            line_map: seq![ScopeView { mapper: mapper@, automatic: false }] + old(source)@.line_map,
            ..old(source)@
        }),
{
    let prev = source.line_map.take();
    source.line_map = Some(LineMapNode::new(mapper, prev, false));
}

/// Hands the directives of `list` back to `read`, so that the first of them
/// comes out first.
fn hand_back(read: &mut LineReader, position: usize, list: Vec<Directive>)
    ensures
        final(read).wf() == old(read).wf(),
        final(read)@ == handed_back(old(read)@, position as nat, views(list@)),
{
    let mut list = list;
    let ghost all = views(list@);
    assert(read@.stack =~= old(read)@.stack + Seq::new(
        0,
        |i: int| (position as nat, all[all.len() - 1 - i]),
    ));
    while list.len() > 0
        invariant
            list.len() <= all.len(),
            views(list@) == all.subrange(0, list.len() as int),
            read.wf() == old(read).wf(),
            read@.line_read == old(read)@.line_read,
            read@.stack == old(read)@.stack + Seq::new(
                (all.len() - list.len()) as nat,
                |i: int| (position as nat, all[all.len() - 1 - i]),
            ),
        decreases list.len(),
    {
        let ghost before = list@;
        let directive = list.pop().unwrap();
        assert(directive@ == views(before)[before.len() - 1]);
        assert(views(list@) =~= all.subrange(0, list.len() as int));
        read.push(position, directive);
        assert(read@.stack =~= old(read)@.stack + Seq::new(
            (all.len() - list.len()) as nat,
            |i: int| (position as nat, all[all.len() - 1 - i]),
        ));
    }
}

impl SourceAction {
    /// One step in the file `source`.
    ///
    /// Reads the next directive of the file, passes it through the open
    /// scopes and acts on what comes out: a directive may change the state
    /// of the file, the command templates and the title, emit a line, or
    /// ask the run to leave the file or to enter another.
    pub fn perform(
        source: &mut Source,
        lines: &mut Vec<Line>,
        title: &mut String,
        cmds: &mut Directory,
    ) -> (action: SourceAction)
        requires
            old(source).wf(),
            old(source)@.cmd < old(cmds)@.len(),
        ensures
            final(source).wf(),
            final(source)@.cmd < final(cmds)@.len(),
            final(cmds)@.len() >= old(cmds)@.len(),
            line_models(old(lines)@).is_prefix_of(line_models(final(lines)@)),
            is_outcome(
                performed(old(source)@, draft_of(*old(lines), *old(title), *old(cmds))),
                *final(source),
                *final(lines),
                *final(title),
                *final(cmds),
                action,
            ),
    {
        proof {
            law_perform_keeps_lines(old(source)@, draft_of(*old(lines), *old(title), *old(cmds)));
        }
        let (position, raw) = source.read.read();
        let directive = match &source.line_map {
            Some(line_map) => line_map.apply(raw),
            None => raw,
        };
        match directive {
            Directive::Noop => SourceAction::Noop,
            Directive::Comment(_) => SourceAction::Noop,
            Directive::Close => SourceAction::Pop,
            Directive::Clean => {
                source.cmd = cmds.new_handle();
                SourceAction::Noop
            },
            Directive::Prefix(arg) => {
                cmds.pre(source.cmd, arg.as_str());
                SourceAction::Noop
            },
            Directive::Suffix(arg) => {
                cmds.suf(source.cmd, arg.as_str());
                SourceAction::Noop
            },
            Directive::Watch => {
                if source.warning_watcher.is_sleeping() {
                    source.warning_watcher.watch();
                } else {
                    push_warning(
                        source,
                        lines,
                        position,
                        "watch called multiple times before else or then block",
                    );
                }
                SourceAction::Noop
            },
            Directive::Then => {
                match source.warning_watcher.take() {
                    Some(occured) => {
                        open_scope(source, Mapper::Then(Then::new(occured)));
                    },
                    None => {
                        push_warning(
                            source,
                            lines,
                            position,
                            "then blocks need to be placed somewhere after a watch directive",
                        );
                    },
                }
                SourceAction::Noop
            },
            Directive::Else => {
                match source.warning_watcher.take() {
                    Some(occured) => {
                        open_scope(source, Mapper::Else(Else::new(occured)));
                    },
                    None => {
                        push_warning(
                            source,
                            lines,
                            position,
                            "else blocks need to be placed somewhere after a watch directive",
                        );
                    },
                }
                SourceAction::Noop
            },
            Directive::DisplayWarnings => {
                push_warning(
                    source,
                    lines,
                    position,
                    "warnings can only be displayed in else blocks",
                );
                SourceAction::Noop
            },
            Directive::IgnoreWarnings => {
                open_scope(source, Mapper::IgnoreWarnings);
                SourceAction::Noop
            },
            Directive::IgnoreText => {
                open_scope(source, Mapper::IgnoreText);
                SourceAction::Noop
            },
            Directive::Debug => {
                open_scope(source, Mapper::Debug);
                SourceAction::Noop
            },
            Directive::EndMap { automatic } => {
                end_map(source, lines, position, automatic);
                SourceAction::Noop
            },
            Directive::Warning(text) => {
                push_warning(source, lines, position, text.as_str());
                SourceAction::Noop
            },
            Directive::Title(text) => {
                if source.is_root {
                    *title = text;
                }
                SourceAction::Noop
            },
            Directive::Subtitle(text) => {
                emit(lines, source, position, Kind::Title, text, None);
                SourceAction::Noop
            },
            Directive::Import(import) => SourceAction::Import { import, position },
            Directive::Empty => {
                emit(lines, source, position, Kind::Normal, String::new(), None);
                SourceAction::Noop
            },
            Directive::Text(text) => {
                let cmd = cmds.snapshot(source.cmd);
                emit(lines, source, position, Kind::Normal, text, Some(cmd));
                SourceAction::Noop
            },
            Directive::Multiple(list) => {
                proof {
                    lemma_view_multiple(list);
                }
                hand_back(&mut source.read, position, list);
                SourceAction::Noop
            },
        }
    }
}

/// Closes the innermost scope if it is of the kind that `automatic` names,
/// and warns otherwise.
fn end_map(source: &mut Source, lines: &mut Vec<Line>, position: usize, automatic: bool)
    ensures
        final(source).wf() == old(source).wf(),
        ({
            let outcome = dispatch(
                old(source)@,
                Draft { lines: line_models(old(lines)@), title: Seq::empty(), cmds: Seq::empty() },
                position as nat,
                DirectiveView::EndMap { automatic },
            );
            &&& final(source)@ == outcome.source
            &&& line_models(final(lines)@) == outcome.draft.lines
        }),
{
    let closes = match &source.line_map {
        Some(line_map) => line_map.automatic() == automatic,
        None => false,
    };
    if closes {
        let prev = match &source.line_map {
            Some(line_map) => line_map.prev(),
            None => None,
        };
        source.line_map = prev;
    } else if source.line_map.is_some() {
        if automatic {
            push_warning(
                source,
                lines,
                position,
                "EndMap directive was issued automatically whilst a manual end directive was required",
            );
        } else {
            push_warning(
                source,
                lines,
                position,
                "end directive was given when an automatic EndMap directive was required",
            );
        }
    } else {
        if automatic {
            push_warning(
                source,
                lines,
                position,
                "EndMap directive was issued automatically with no LineMap in use",
            );
        } else {
            push_warning(source, lines, position, "end directive used with nothing to end");
        }
    }
}

} // verus!
