use line_view::cmd::Directory;
use line_view::line_map::{LineMapNode, Mapper};
use line_view::{
    Directive, Import, ImportKind, Line, LineReader, LineView, Opened, PathSet, Progress, Source,
    SourceAction,
};

struct Run {
    source: Source,
    lines: Vec<Line>,
    title: String,
    cmds: Directory,
}

fn start(text: &str, is_root: bool) -> Run {
    let mut cmds = Directory::new();
    let cmd = cmds.new_handle();
    Run {
        source: Source::new("/f", "/", text, cmd, 0, is_root),
        lines: Vec::new(),
        title: String::new(),
        cmds,
    }
}

fn step(run: &mut Run) -> SourceAction {
    SourceAction::perform(&mut run.source, &mut run.lines, &mut run.title, &mut run.cmds)
}

fn opened(path: &str, text: &str) -> Option<Opened> {
    Some(Opened { path: path.to_string(), dir: "/d".to_string(), text: text.to_string() })
}

#[test]
fn perform_reads_one_directive_at_a_time() {
    let mut run = start("#-pre echo\nhello\n#-import x\n", true);
    assert!(matches!(step(&mut run), SourceAction::Noop));
    assert!(run.lines.is_empty());
    assert_eq!(*run.cmds.snapshot(run.source.cmd).prefix(), ["echo"]);
    assert!(matches!(step(&mut run), SourceAction::Noop));
    assert_eq!(run.lines.len(), 1);
    assert_eq!(run.lines[0].text(), "hello");
    assert_eq!(run.lines[0].line(), 1);
    assert_eq!(run.lines[0].source().path(), "/f");
    match step(&mut run) {
        SourceAction::Import { import, position } => {
            assert_eq!(import.file(), "x");
            assert_eq!(import.kind(), ImportKind::Import);
            assert_eq!(position, 2);
        }
        other => panic!("unexpected {other:?}"),
    }
    assert!(matches!(step(&mut run), SourceAction::Pop));
}

#[test]
fn clean_takes_a_new_template() {
    let mut run = start("#-pre a\n#-clean\n#-pre b\n", true);
    let first = run.source.cmd;
    step(&mut run);
    step(&mut run);
    assert!(run.source.cmd != first);
    step(&mut run);
    assert_eq!(*run.cmds.snapshot(first).prefix(), ["a"]);
    assert_eq!(*run.cmds.snapshot(run.source.cmd).prefix(), ["b"]);
}

#[test]
fn title_only_counts_in_a_root() {
    let mut run = start("#-title T\n#-title U\n", true);
    step(&mut run);
    assert_eq!(run.title, "T");
    step(&mut run);
    assert_eq!(run.title, "U");
    let mut run = start("#-title T\n", false);
    step(&mut run);
    assert_eq!(run.title, "");
    assert!(run.lines.is_empty());
}

#[test]
fn several_directives_come_out_in_order() {
    let mut run = start("last\n", true);
    run.source.read.push(
        5,
        Directive::Multiple(vec![
            Directive::Text("one".into()),
            Directive::Multiple(vec![Directive::Text("two".into()), Directive::Text("three".into())]),
            Directive::Subtitle("four".into()),
        ]),
    );
    for _ in 0..7 {
        step(&mut run);
    }
    let texts: Vec<&str> = run.lines.iter().map(Line::text).collect();
    assert_eq!(texts, ["one", "two", "three", "four", "last"]);
    assert!(run.lines[..4].iter().all(|line| line.line() == 5));
    assert!(run.lines[3].is_title());
    assert_eq!(run.lines[4].line(), 0);
}

#[test]
fn end_that_closes_nothing_warns() {
    let mut run = start("", true);
    run.source.read.push(3, Directive::EndMap { automatic: true });
    step(&mut run);
    assert!(run.lines[0].is_warning());
    assert_eq!(run.lines[0].line(), 3);
    assert_eq!(
        run.lines[0].text(),
        "EndMap directive was issued automatically with no LineMap in use"
    );

    run.source.line_map = Some(LineMapNode::new(Mapper::Debug, None, false));
    run.source.read.push(4, Directive::EndMap { automatic: true });
    step(&mut run);
    assert_eq!(
        run.lines[1].text(),
        "EndMap directive was issued automatically whilst a manual end directive was required"
    );
    assert!(run.source.line_map.is_some());

    run.source.line_map = Some(LineMapNode::new(Mapper::Debug, None, true));
    run.source.read.push(5, Directive::EndMap { automatic: false });
    step(&mut run);
    assert_eq!(
        run.lines[2].text(),
        "end directive was given when an automatic EndMap directive was required"
    );
    assert!(run.source.line_map.is_some());

    run.source.read.push(6, Directive::EndMap { automatic: true });
    step(&mut run);
    assert_eq!(run.lines.len(), 3);
    assert!(run.source.line_map.is_none());
}

#[test]
fn debug_scope_changes_nothing() {
    let mut run = start("a\n#-warning w\n#-end\n#-end\n", true);
    run.source.read.push(0, Directive::Debug);
    for _ in 0..5 {
        step(&mut run);
    }
    let texts: Vec<&str> = run.lines.iter().map(Line::text).collect();
    assert_eq!(texts, ["a", "w", "end directive used with nothing to end"]);
}

#[test]
fn perform_import_by_kind() {
    let mut cmds = Directory::new();
    let cmd = cmds.new_handle();
    cmds.pre(cmd, "echo");
    let parent = Source::new("/p", "/", "", cmd, 0, true);
    let mut imported = PathSet::new();
    let mut sourced = vec![PathSet::new()];

    let found = Import::new_import("a")
        .perform_import(&parent, &mut imported, &mut sourced, &mut cmds, opened("/d/a", "x\n"))
        .unwrap()
        .unwrap();
    assert_eq!((found.path.as_str(), found.dir.as_str()), ("/d/a", "/d"));
    assert!(!found.is_root && found.line_map.is_none());
    assert!(found.cmd != parent.cmd && found.sourced == 1);
    assert!(cmds.snapshot(found.cmd).is_empty());
    assert!(imported.contains("/d/a") && sourced.len() == 2);
    let again = Import::new_import("a")
        .perform_import(&parent, &mut imported, &mut sourced, &mut cmds, opened("/d/a", "x\n"))
        .unwrap();
    assert!(again.is_none());
    assert!(sourced.len() == 2);

    let found = Import::new_source("a")
        .perform_import(&parent, &mut imported, &mut sourced, &mut cmds, opened("/d/a", "x\n"))
        .unwrap()
        .unwrap();
    assert!(found.is_root && found.cmd == parent.cmd && found.sourced == 0);
    assert!(sourced[0].contains("/d/a") && !sourced[1].contains("/d/a"));
    let again = Import::new_source("a")
        .perform_import(&parent, &mut imported, &mut sourced, &mut cmds, opened("/d/a", "x\n"))
        .unwrap();
    assert!(again.is_none());

    for _ in 0..2 {
        let found = Import::new_lines("a")
            .perform_import(&parent, &mut imported, &mut sourced, &mut cmds, opened("/d/a", "x\n"))
            .unwrap()
            .unwrap();
        assert!(!found.is_root && found.cmd == parent.cmd);
        let scope = found.line_map.unwrap();
        assert!(scope.automatic() && scope.prev().is_none());
        assert_eq!(scope.name(), "skip_directives");
    }
    assert!(sourced.len() == 4);

    for import in [Import::new_import("m"), Import::new_source("m"), Import::new_lines("m")] {
        match import.perform_import(&parent, &mut imported, &mut sourced, &mut cmds, None) {
            Err(Directive::Warning(text)) => {
                assert_eq!(text, "could not source/import/lines m")
            }
            _ => panic!("a file that was not found is a warning"),
        }
    }
    assert!(!imported.contains("m"));
}

#[test]
fn failed_import_is_collected_while_watching() {
    let mut view = LineView::open("/r", "/", "#-watch\n#-import gone\n#-else\n#-display-warnings\n#-end\n");
    loop {
        match view.run(100) {
            Progress::Finished => break,
            Progress::Continue => panic!("the document does not end"),
            Progress::Import { import, position, .. } => view.resolve(import, position, None),
        }
    }
    assert_eq!(view.lines(), ["could not source/import/lines gone"]);
    assert!(view.get(0).unwrap().is_warning());
}

#[test]
fn run_stops_at_its_limit() {
    let mut view = LineView::open("/r", "/", "a\nb\nc\n");
    assert!(matches!(view.run(0), Progress::Continue));
    assert_eq!(view.len(), 0);
    assert!(matches!(view.run(2), Progress::Continue));
    assert_eq!(view.lines(), ["a", "b"]);
    assert!(!view.is_finished());
    assert!(matches!(view.advance(), Progress::Continue));
    assert!(matches!(view.advance(), Progress::Finished));
    assert!(view.is_finished());
    assert!(matches!(view.advance(), Progress::Finished));
    assert!(matches!(view.run(5), Progress::Finished));
    assert_eq!(view.lines(), ["a", "b", "c"]);
    // a finished document takes no more files
    view.resolve(
        Import::new_lines("x"),
        0,
        Some(Opened { path: "/x".into(), dir: "/".into(), text: "x\n".into() }),
    );
    assert!(view.is_finished());
    assert_eq!(view.all_sources(), ["/r"]);
    assert!(view.get(3).is_none());
}

#[test]
fn reading_twice_gives_the_same_document() {
    let text = "#-title T\n#-pre echo\na\n#-import i\n#-watch\n#-nope\n#-then\nb\n#-else\n#-display-warnings\n#-end\n#-lines i\n";
    let build = || {
        let mut view = LineView::open("/r", "/", text);
        loop {
            match view.run(usize::MAX) {
                Progress::Finished => break,
                Progress::Continue => {}
                Progress::Import { import, position, .. } => {
                    let file = Opened {
                        path: "/i".into(),
                        dir: "/".into(),
                        text: "#-suf s\nin\n".into(),
                    };
                    view.resolve(import, position, Some(file))
                }
            }
        }
        let lines: Vec<_> = (0..view.len())
            .map(|i| {
                let line = view.get(i).unwrap();
                (
                    line.text().to_string(),
                    line.line(),
                    line.source().path().to_string(),
                    line.is_title(),
                    line.is_warning(),
                    line.arguments(),
                )
            })
            .collect();
        (view.title().to_string(), lines)
    };
    let first = build();
    assert_eq!(first, build());
    assert_eq!(first.0, "T");
    let texts: Vec<&str> = first.1.iter().map(|line| line.0.as_str()).collect();
    assert_eq!(texts, ["a", "in", "nope is not a directive", "in"]);
    assert_eq!(first.1[1].5, ["in", "s"]);
    assert_eq!(first.1[3].5, ["echo", "in"]);
}

#[test]
fn reader_can_be_built_by_hand() {
    let mut source = Source::new("/f", "/", "x\n", Directory::new().new_handle(), 0, false);
    source.read = LineReader::new(line_view::DirectiveReader::new("y\n"));
    let mut cmds = Directory::new();
    source.cmd = cmds.new_handle();
    let mut lines = Vec::new();
    let mut title = String::new();
    SourceAction::perform(&mut source, &mut lines, &mut title, &mut cmds);
    assert_eq!(lines[0].text(), "y");
}
