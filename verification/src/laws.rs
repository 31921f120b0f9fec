//! What holds of every document, proved from the definitions that the
//! contracts of the library are stated with.
use crate::directive::DirectiveView;
use crate::import::{included, ImportKind, ImportView, Inclusion};
use crate::line_map::{
    apply_chain, else_spec, then_spec, warnings_of, MapperView, ScopeView,
};
use crate::line_read::LineReaderView;
use crate::line_view::{ProgressView, RunView};
use crate::source::{OpenedView, SourceView};
use crate::source_action::{dispatch, handed_back, performed, Draft};
use vstd::prelude::*;

verus! {

/// What the files of a machine hold: the file that is found at a path
/// looked for from a directory, if any.
pub type Files = spec_fn(Seq<char>, Seq<char>) -> Option<OpenedView>;

/// The document `run` after at most `steps` steps, where each file that is
/// asked for is taken from `files`.
pub open spec fn built(run: RunView, files: Files, steps: nat) -> RunView
    decreases steps,
{
    if steps == 0 {
        run
    } else {
        let (next, progress) = run.advanced();
        match progress {
            ProgressView::Finished => next,
            ProgressView::Continue => built(next, files, (steps - 1) as nat),
            ProgressView::Import { import, path, dir, position } => built(
                next.resolved(import, position, files(dir, path)),
                files,
                (steps - 1) as nat,
            ),
        }
    }
}

/// A document is a function of its root file, of the files it includes and
/// of the home directory of the user: read twice from the same files, it
/// comes out the same both times, line for line and with the same title.
pub proof fn law_same_files_same_document(
    path: Seq<char>,
    dir: Seq<char>,
    text: Seq<char>,
    home: Option<Seq<char>>,
    first: Files,
    second: Files,
    steps: nat,
)
    requires
        forall|from: Seq<char>, at: Seq<char>| #[trigger] first(from, at) == second(from, at),
    ensures
        built(RunView::start(path, dir, text, home), first, steps) == built(
            RunView::start(path, dir, text, home),
            second,
            steps,
        ),
{
    lemma_built_agrees(RunView::start(path, dir, text, home), first, second, steps);
}

proof fn lemma_built_agrees(run: RunView, first: Files, second: Files, steps: nat)
    requires
        forall|from: Seq<char>, at: Seq<char>| #[trigger] first(from, at) == second(from, at),
    ensures
        built(run, first, steps) == built(run, second, steps),
    decreases steps,
{
    if steps > 0 {
        let (next, progress) = run.advanced();
        match progress {
            ProgressView::Finished => {},
            ProgressView::Continue => {
                lemma_built_agrees(next, first, second, (steps - 1) as nat);
            },
            ProgressView::Import { import, path, dir, position } => {
                assert(first(dir, path) == second(dir, path));
                lemma_built_agrees(
                    next.resolved(import, position, first(dir, path)),
                    first,
                    second,
                    (steps - 1) as nat,
                );
            },
        }
    }
}

/// No step takes a line back or changes one: the lines emitted before a
/// step are the first lines after it, each with the text, the kind and the
/// command template it was emitted with. So a `clean`, a `pre` or a `suf`
/// that comes later leaves the command template of an emitted line alone.
pub proof fn law_step_keeps_lines(run: RunView)
    ensures
        run.lines.is_prefix_of(run.advanced().0.lines),
{
    if !run.finished() {
        law_perform_keeps_lines(run.sources.last(), run.draft());
    }
}

/// Entering a file, passing it over or failing to find it emits no line and
/// changes none.
pub proof fn law_resolve_keeps_lines(
    run: RunView,
    import: ImportView,
    position: nat,
    opened: Option<OpenedView>,
)
    ensures
        run.resolved(import, position, opened).lines == run.lines,
        run.resolved(import, position, opened).title == run.title,
{
}

/// However far a document is read on, whatever its files hold, the lines
/// emitted so far stay as they are.
pub proof fn law_lines_are_kept(run: RunView, files: Files, steps: nat)
    ensures
        run.lines.is_prefix_of(built(run, files, steps).lines),
    decreases steps,
{
    if steps > 0 {
        let (next, progress) = run.advanced();
        law_step_keeps_lines(run);
        match progress {
            ProgressView::Finished => {},
            ProgressView::Continue => {
                law_lines_are_kept(next, files, (steps - 1) as nat);
            },
            ProgressView::Import { import, path, dir, position } => {
                let entered = next.resolved(import, position, files(dir, path));
                law_resolve_keeps_lines(next, import, position, files(dir, path));
                law_lines_are_kept(entered, files, (steps - 1) as nat);
            },
        }
    }
}

/// A step in a file takes no line back and changes none.
pub proof fn law_perform_keeps_lines(source: SourceView, draft: Draft)
    ensures
        draft.lines.is_prefix_of(performed(source, draft).draft.lines),
{
}

/// The title changes only in a file that may set it: a step in any other
/// file, such as one that was imported, leaves the title as it is.
pub proof fn law_title_needs_root(run: RunView)
    requires
        !run.finished(),
        !run.sources.last().is_root,
    ensures
        run.advanced().0.title == run.title,
{
}

/// In a file that may set the title, a title directive that reaches the end
/// of the open scopes sets it.
pub proof fn law_title_in_root_is_taken(
    source: SourceView,
    draft: Draft,
    position: nat,
    title: Seq<char>,
)
    requires
        source.is_root,
    ensures
        dispatch(source, draft, position, DirectiveView::Title(title)).draft.title == title,
{
}

/// A file that is imported, or of which only the lines are taken, may never
/// set the title. A file that is sourced may set it if and only if the file
/// that sources it may.
pub proof fn law_who_may_set_the_title(
    run: RunView,
    import: ImportView,
    position: nat,
    file: OpenedView,
)
    requires
        !run.finished(),
    ensures
        included(import, run.sources.last(), run.registry(), Some(file)).1 matches Inclusion::Entered(
            source,
        ) ==> source.is_root == (import.kind == ImportKind::Source && run.sources.last().is_root),
{
}

/// The files that were imported stay imported, and the files that were
/// entered stay known.
pub proof fn law_step_keeps_imported(run: RunView)
    ensures
        run.advanced().0.imported == run.imported,
        run.advanced().0.visited == run.visited,
{
}

/// A file is imported at most once in a run: an import of a file that was
/// imported before, the root among them, changes nothing. So a cycle of
/// imports comes to an end.
pub proof fn law_import_twice_is_skipped(
    run: RunView,
    import: ImportView,
    position: nat,
    file: OpenedView,
)
    requires
        import.kind == ImportKind::Import,
        run.imported.contains(file.path),
    ensures
        run.resolved(import, position, Some(file)) == run,
{
}

/// An import that is entered is of a file that was not imported before, and
/// the file is imported from then on: there are no more imports entered
/// than there are files.
pub proof fn law_import_is_recorded(
    run: RunView,
    import: ImportView,
    position: nat,
    file: OpenedView,
)
    requires
        !run.finished(),
        import.kind == ImportKind::Import,
        !run.imported.contains(file.path),
    ensures
        run.resolved(import, position, Some(file)).imported == run.imported.insert(file.path),
        run.resolved(import, position, Some(file)).sources == run.sources.push(
            SourceView::fresh(
                file.path,
                file.dir,
                file.text,
                run.cmds.len(),
                run.sourced.len(),
                false,
                Seq::empty(),
            ),
        ),
{
}

/// The root file counts as imported from the start.
pub proof fn law_root_is_imported(
    path: Seq<char>,
    dir: Seq<char>,
    text: Seq<char>,
    home: Option<Seq<char>>,
)
    ensures
        RunView::start(path, dir, text, home).imported.contains(path),
{
}

/// A file of which only the lines are taken is entered every time it is
/// asked for, whatever was entered before: nothing ends a cycle of such
/// files.
pub proof fn law_lines_is_never_skipped(
    run: RunView,
    import: ImportView,
    position: nat,
    file: OpenedView,
)
    requires
        !run.finished(),
        import.kind == ImportKind::Lines,
    ensures
        run.resolved(import, position, Some(file)).sources.len() == run.sources.len() + 1,
        run.resolved(import, position, Some(file)).sources.last().path == file.path,
        run.resolved(import, position, Some(file)).imported == run.imported,
{
}

/// After a watch in which no warning was collected, the block after `then`
/// lets every directive through as it is.
pub proof fn law_then_without_warnings(line: DirectiveView, depth: nat)
    ensures
        then_spec(Seq::empty(), line, depth) == line,
{
}

/// After a watch in which a warning was collected, the block after `then`
/// drops every directive but the end of the file, the end of the block
/// itself, and the `else` that follows the block.
pub proof fn law_then_with_warnings(warnings: Seq<Seq<char>>, line: DirectiveView, depth: nat)
    requires
        warnings.len() > 0,
    ensures
        line is Close ==> then_spec(warnings, line, depth) == line,
        line is EndMap && depth == 0 ==> then_spec(warnings, line, depth) == line,
        !(line is Close) && !(line is Else) && !(line is EndMap && depth == 0) ==> then_spec(
            warnings,
            line,
            depth,
        ) == DirectiveView::Noop,
{
}

/// In the block after `else`, a request to display the warnings gives the
/// warnings that were collected, each as it was collected and in the order
/// in which they were.
pub proof fn law_else_displays_warnings(warnings: Seq<Seq<char>>, depth: nat)
    requires
        warnings.len() > 0,
    ensures
        else_spec(warnings, DirectiveView::DisplayWarnings, depth) == DirectiveView::Multiple(
            warnings_of(warnings),
        ),
        warnings_of(warnings).len() == warnings.len(),
        forall|i: int|
            0 <= i < warnings.len() ==> #[trigger] warnings_of(warnings)[i]
                == DirectiveView::Warning(warnings[i]),
{
}

/// A directive that is read in a block after `then` that is skipped does
/// nothing: no line is emitted, no command template and no title changes,
/// and the file stays as it is but for the directive being read. This holds
/// of every directive but the end of the file, the end of the block and the
/// `else` that follows the block, where the scopes around the block let
/// every directive through.
pub proof fn law_skipped_block_does_nothing(
    source: SourceView,
    draft: Draft,
    warnings: Seq<Seq<char>>,
    outer: Seq<ScopeView>,
)
    requires
        warnings.len() > 0,
        source.line_map == seq![
            ScopeView { mapper: MapperView::Then(warnings), automatic: false },
        ] + outer,
        lets_all_through(outer),
        !(source.read.upcoming().1 is Close),
        !(source.read.upcoming().1 is EndMap),
        !(source.read.upcoming().1 is Else),
    ensures
        performed(source, draft).draft == draft,
        performed(source, draft).action is Noop,
        performed(source, draft).source == (SourceView {
            read: source.read.advanced(),
            ..source
        }),
{
    assert(source.line_map.drop_first() =~= outer);
    lemma_through(source.line_map, outer, source.read.upcoming().1, DirectiveView::Noop);
}

/// The file `source` and the draft after `steps` steps in the file.
pub open spec fn performed_times(source: SourceView, draft: Draft, steps: nat) -> (
    SourceView,
    Draft,
)
    decreases steps,
{
    if steps == 0 {
        (source, draft)
    } else {
        let outcome = performed(source, draft);
        performed_times(outcome.source, outcome.draft, (steps - 1) as nat)
    }
}

/// Whether the scopes of `chain` let every directive through as it is.
pub open spec fn lets_all_through(chain: Seq<ScopeView>) -> bool {
    forall|line: DirectiveView, depth: nat| #[trigger] apply_chain(chain, line, depth) == line
}

/// An `else` that follows a block after `then` that was skipped gets the
/// warnings that were collected before the `then`.
///
/// Where the innermost scope of a file is such a block, with the warnings
/// `warnings`, the scopes around it let every directive through, and the
/// next directive of the file is `else`: once the `else` is dealt with, in
/// as many steps as there are warnings and four more, the block after
/// `then` is closed and the block after `else` is open in its place, with
/// the same warnings in the same order. No line was emitted meanwhile, and
/// nothing else has changed but that the `else` was read.
pub proof fn law_else_gets_the_warnings(
    source: SourceView,
    draft: Draft,
    warnings: Seq<Seq<char>>,
    outer: Seq<ScopeView>,
)
    requires
        warnings.len() > 0,
        source.line_map == seq![
            ScopeView { mapper: MapperView::Then(warnings), automatic: false },
        ] + outer,
        lets_all_through(outer),
        source.watch is None,
        source.read.upcoming().1 is Else,
    ensures
        performed_times(source, draft, warnings.len() + 4) == (
            SourceView {
                read: source.read.advanced(),
                line_map: seq![ScopeView { mapper: MapperView::Else(warnings), automatic: false }]
                    + outer,
                ..source
            },
            draft,
        ),
{
    let k = warnings.len();
    let position = source.read.upcoming().0;
    let read = source.read.advanced();
    let list = seq![DirectiveView::EndMap { automatic: false }, DirectiveView::Watch] + warnings_of(
        warnings,
    ) + seq![DirectiveView::Else];
    assert(source.line_map.drop_first() =~= outer);
    // the `else` becomes the list and the list is handed back
    let first = performed(source, draft);
    assert(first.source.line_map == source.line_map && first.draft == draft && first.source.read
        == handed_back(read, position, list)) by {
        lemma_through(
            source.line_map,
            outer,
            DirectiveView::Else,
            DirectiveView::Multiple(list),
        );
    }
    let tail = rebuffering(read, position, warnings, 0);
    let stack1 = tail.stack.push((position, DirectiveView::Watch)).push(
        (position, DirectiveView::EndMap { automatic: false }),
    );
    assert(first.source.read.stack =~= stack1);
    let a = SourceView { read: handed_back(read, position, list), ..source };
    assert(first.source == a);
    // the end of the block closes the block
    let second = performed(a, draft);
    let b = SourceView {
        read: LineReaderView {
            stack: tail.stack.push((position, DirectiveView::Watch)),
            line_read: read.line_read,
        },
        line_map: outer,
        ..source
    };
    assert(second.source == b && second.draft == draft) by {
        lemma_through(
            source.line_map,
            outer,
            DirectiveView::EndMap { automatic: false },
            DirectiveView::EndMap { automatic: false },
        );
        assert(a.read.advanced().stack =~= b.read.stack);
    }
    // the watch starts anew
    let third = performed(b, draft);
    let c = rebuffered(source, outer, read, position, warnings, 0);
    assert(third.source == c && third.draft == draft) by {
        assert(b.read.advanced().stack =~= tail.stack);
        assert(warnings.subrange(0, 0) =~= Seq::<Seq<char>>::empty());
    }
    // the warnings are collected again
    lemma_rebuffer(source, outer, read, position, warnings, draft, 0);
    let d = rebuffered(source, outer, read, position, warnings, k);
    assert(performed_times(c, draft, k) == (d, draft));
    // the `else` opens its block
    let last = performed(d, draft);
    let e = SourceView {
        read,
        line_map: seq![ScopeView { mapper: MapperView::Else(warnings), automatic: false }] + outer,
        ..source
    };
    assert(last.source == e && last.draft == draft) by {
        assert(d.read.stack =~= read.stack.push((position, DirectiveView::Else)));
        assert(d.read.advanced().stack =~= read.stack);
        assert(warnings.subrange(0, k as int) =~= warnings);
    }
    assert(performed_times(d, draft, 1) == (e, draft)) by {
        assert(performed_times(e, draft, 0) == (e, draft));
    }
    lemma_performed_times_add(c, draft, k, 1);
    assert(performed_times(c, draft, k + 1) == (e, draft));
    assert(performed_times(b, draft, k + 2) == (e, draft));
    assert(performed_times(a, draft, k + 3) == (e, draft));
    assert(performed_times(source, draft, k + 4) == (e, draft));
}

/// The reader while the warnings are collected again: the `else` and the
/// warnings from the one at `done` on are still to come.
spec fn rebuffering(
    read: LineReaderView,
    position: nat,
    warnings: Seq<Seq<char>>,
    done: nat,
) -> LineReaderView {
    LineReaderView {
        stack: read.stack.push((position, DirectiveView::Else)) + Seq::new(
            (warnings.len() - done) as nat,
            |i: int| (position, DirectiveView::Warning(warnings[warnings.len() - 1 - i])),
        ),
        line_read: read.line_read,
    }
}

/// The file while the warnings are collected again: the first `done` of
/// them are collected.
spec fn rebuffered(
    source: SourceView,
    outer: Seq<ScopeView>,
    read: LineReaderView,
    position: nat,
    warnings: Seq<Seq<char>>,
    done: nat,
) -> SourceView {
    SourceView {
        read: rebuffering(read, position, warnings, done),
        watch: Some(warnings.subrange(0, done as int)),
        line_map: outer,
        ..source
    }
}

proof fn lemma_rebuffer(
    source: SourceView,
    outer: Seq<ScopeView>,
    read: LineReaderView,
    position: nat,
    warnings: Seq<Seq<char>>,
    draft: Draft,
    done: nat,
)
    requires
        done <= warnings.len(),
        lets_all_through(outer),
    ensures
        performed_times(
            rebuffered(source, outer, read, position, warnings, done),
            draft,
            (warnings.len() - done) as nat,
        ) == (rebuffered(source, outer, read, position, warnings, warnings.len()), draft),
    decreases warnings.len() - done,
{
    if done < warnings.len() {
        let now = rebuffered(source, outer, read, position, warnings, done);
        let next = rebuffered(source, outer, read, position, warnings, done + 1);
        let outcome = performed(now, draft);
        assert(now.read.upcoming() == (position, DirectiveView::Warning(warnings[done as int])));
        assert(now.read.advanced().stack =~= next.read.stack);
        assert(apply_chain(outer, DirectiveView::Warning(warnings[done as int]), 0)
            == DirectiveView::Warning(warnings[done as int]));
        assert(warnings.subrange(0, done as int).push(warnings[done as int]) =~= warnings.subrange(
            0,
            done as int + 1,
        ));
        assert(outcome.source == next && outcome.draft == draft);
        lemma_rebuffer(source, outer, read, position, warnings, draft, done + 1);
    }
}

/// What a directive becomes in a chain whose innermost scope makes `inner`
/// of it and whose other scopes let every directive through.
proof fn lemma_through(
    chain: Seq<ScopeView>,
    outer: Seq<ScopeView>,
    line: DirectiveView,
    inner: DirectiveView,
)
    requires
        chain.len() > 0,
        chain.drop_first() == outer,
        lets_all_through(outer),
        chain[0].mapper.mapped(line, 0) == inner,
    ensures
        apply_chain(chain, line, 0) == inner,
{
    assert(apply_chain(chain, line, 0) == apply_chain(outer, inner, 1));
}

proof fn lemma_performed_times_add(source: SourceView, draft: Draft, first: nat, second: nat)
    ensures
        performed_times(source, draft, first + second) == performed_times(
            performed_times(source, draft, first).0,
            performed_times(source, draft, first).1,
            second,
        ),
    decreases first,
{
    if first > 0 {
        let outcome = performed(source, draft);
        lemma_performed_times_add(outcome.source, outcome.draft, (first - 1) as nat, second);
        assert(performed_times(source, draft, first + second) == performed_times(
            outcome.source,
            outcome.draft,
            (first + second - 1) as nat,
        ));
    }
}

} // verus!
