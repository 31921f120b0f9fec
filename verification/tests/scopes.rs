use line_view::line_map::{LineMap, LineMapNode, Mapper, Then, Else};
use line_view::{Directive, LineView, Progress};

fn build(text: &str) -> LineView {
    let mut view = LineView::open("/menu", "/", text);
    loop {
        match view.run(10_000) {
            Progress::Finished => return view,
            Progress::Continue => panic!("the document does not end"),
            Progress::Import { import, position, .. } => view.resolve(import, position, None),
        }
    }
}

/// Each line as its text, a warning with `!` in front and a heading with `=`.
fn shown(view: &LineView) -> Vec<String> {
    (0..view.len())
        .map(|i| {
            let line = view.get(i).unwrap();
            if line.is_warning() {
                format!("!{}", line.text())
            } else if line.is_title() {
                format!("={}", line.text())
            } else {
                line.text().to_string()
            }
        })
        .collect()
}

fn warnings(list: &[&str]) -> Vec<String> {
    list.iter().map(|s| s.to_string()).collect()
}

#[test]
fn then_block_runs_without_warnings() {
    let view = build("#-watch\nfine\n#-then\n#-pre echo\nrun\n#-end\nafter\n");
    assert_eq!(shown(&view), ["fine", "run", "after"]);
    assert_eq!(view.get(1).unwrap().arguments(), ["echo", "run"]);
}

#[test]
fn then_block_is_skipped_after_a_warning() {
    let view = build("#-watch\n#-warning w1\n#-then\n#-pre echo\nskipped\n#-end\nafter\n");
    assert_eq!(shown(&view), ["after"]);
    assert!(!view.get(0).unwrap().has_command());
}

#[test]
fn else_block_gets_the_warnings() {
    let view = build(
        "#-watch\n#-warning w1\n#-frob\n#-then\nskipped\n#-else\n#-display-warnings\nshown\n#-end\nafter\n",
    );
    assert_eq!(shown(&view), ["!w1", "!frob is not a directive", "shown", "after"]);
}

#[test]
fn else_block_alone_is_skipped_without_warnings() {
    let view = build("#-watch\n#-else\nalt\n#-display-warnings\n#-end\nafter\n");
    assert_eq!(shown(&view), ["after"]);
}

#[test]
fn else_block_alone_runs_after_a_warning() {
    let view = build("#-watch\n#-warning w\n#-else\nalt\n#-end\nafter\n");
    assert_eq!(shown(&view), ["alt", "after"]);
}

#[test]
fn watch_twice_is_a_warning_that_is_collected() {
    let view = build("#-watch\n#-watch\n#-else\n#-display-warnings\n#-end\n");
    assert_eq!(shown(&view), ["!watch called multiple times before else or then block"]);
}

#[test]
fn misuse_warns() {
    let view = build("#-then\n#-else\n#-display-warnings\n#-end\n");
    assert_eq!(
        shown(&view),
        [
            "!then blocks need to be placed somewhere after a watch directive",
            "!else blocks need to be placed somewhere after a watch directive",
            "!warnings can only be displayed in else blocks",
            "!end directive used with nothing to end",
        ]
    );
}

#[test]
fn ignore_scopes() {
    let view = build("#-ignore-warnings\n#-warning w\nx\n#-end\n#-warning v\n");
    assert_eq!(shown(&view), ["x", "!v"]);
    let view = build("#-ignore-text\nx\n#-text y\n#-warning w\n#-end\nz\n");
    assert_eq!(shown(&view), ["!w", "z"]);
}

#[test]
fn close_ends_the_file_early() {
    let view = build("a\n#-close\nb\n");
    assert_eq!(shown(&view), ["a"]);
    // also inside a block that is skipped
    let view = build("#-watch\n#-warning w\n#-then\n#-close\n#-end\nb\n");
    assert_eq!(shown(&view), Vec::<String>::new());
}

#[test]
fn nested_scopes_close_innermost_first() {
    let view = build("#-ignore-text\n#-ignore-warnings\na\n#-warning w\n#-end\nb\n#-warning v\n#-end\nc\n");
    assert_eq!(shown(&view), ["!v", "c"]);
}

#[test]
fn then_rule_by_itself() {
    let empty = Then::new(vec![]);
    assert!(matches!(empty.map(Directive::Text("t".into()), 0), Directive::Text(t) if t == "t"));
    assert!(matches!(empty.map(Directive::Else, 0), Directive::Else));

    let block = Then::new(warnings(&["w1", "w2"]));
    assert!(matches!(block.map(Directive::Text("t".into()), 0), Directive::Noop));
    assert!(matches!(block.map(Directive::Close, 3), Directive::Close));
    assert!(matches!(
        block.map(Directive::EndMap { automatic: false }, 0),
        Directive::EndMap { automatic: false }
    ));
    assert!(matches!(block.map(Directive::EndMap { automatic: false }, 1), Directive::Noop));
    match block.map(Directive::Else, 0) {
        Directive::Multiple(list) => {
            assert_eq!(list.len(), 5);
            assert!(matches!(list[0], Directive::EndMap { automatic: false }));
            assert!(matches!(list[1], Directive::Watch));
            assert!(matches!(&list[2], Directive::Warning(w) if w == "w1"));
            assert!(matches!(&list[3], Directive::Warning(w) if w == "w2"));
            assert!(matches!(list[4], Directive::Else));
        }
        other => panic!("unexpected {other:?}"),
    }
    assert_eq!(block.name(), "Then");
}

#[test]
fn else_rule_by_itself() {
    let empty = Else::new(vec![]);
    assert!(matches!(empty.map(Directive::Text("t".into()), 0), Directive::Noop));
    assert!(matches!(empty.map(Directive::DisplayWarnings, 0), Directive::Noop));
    assert!(matches!(empty.map(Directive::Close, 0), Directive::Close));
    assert!(matches!(empty.map(Directive::EndMap { automatic: true }, 0), Directive::EndMap { automatic: true }));
    assert!(matches!(empty.map(Directive::EndMap { automatic: true }, 2), Directive::Noop));

    let block = Else::new(warnings(&["w1"]));
    assert!(matches!(block.map(Directive::Text("t".into()), 0), Directive::Text(t) if t == "t"));
    match block.map(Directive::DisplayWarnings, 4) {
        Directive::Multiple(list) => {
            assert_eq!(list.len(), 1);
            assert!(matches!(&list[0], Directive::Warning(w) if w == "w1"));
        }
        other => panic!("unexpected {other:?}"),
    }
    assert_eq!(block.name(), "Else");
}

#[test]
fn chain_applies_innermost_first() {
    // the inner block is skipped: its end passes at depth 0, but the outer
    // skipped block, one further out, drops it
    let outer = LineMapNode::new(Mapper::Else(Else::new(vec![])), None, false);
    let inner = LineMapNode::new(Mapper::Then(Then::new(warnings(&["w"]))), Some(outer), false);
    assert!(matches!(inner.apply(Directive::EndMap { automatic: false }), Directive::Noop));
    assert!(matches!(inner.apply(Directive::Close), Directive::Close));

    let outer = LineMapNode::new(Mapper::IgnoreText, None, true);
    let inner = LineMapNode::new(Mapper::IgnoreWarnings, Some(outer), false);
    assert!(matches!(inner.apply(Directive::Warning("w".into())), Directive::Noop));
    assert!(matches!(inner.apply(Directive::Text("t".into())), Directive::Noop));
    assert!(matches!(inner.apply(Directive::Clean), Directive::Clean));
    assert!(!inner.automatic());
    assert_eq!(inner.name(), "ignore_warnings");

    let prev = inner.prev().unwrap();
    assert!(prev.automatic());
    assert_eq!(prev.name(), "ignore_text");
    assert!(matches!(prev.apply(Directive::Warning("w".into())), Directive::Warning(_)));
    assert!(prev.prev().is_none());

    let mut iter = inner.iter();
    assert_eq!(iter.next().unwrap().name(), "ignore_warnings");
    assert_eq!(iter.next().unwrap().name(), "ignore_text");
    assert!(iter.next().is_none());
    assert!(iter.next().is_none());
}

#[test]
fn automatic_scope_is_not_closed_by_end() {
    let mut view = LineView::open("/menu", "/", "#-lines l\nafter\n");
    let (import, position) = match view.run(100) {
        Progress::Import { import, position, .. } => (import, position),
        other => panic!("unexpected {other:?}"),
    };
    view.resolve(
        import,
        position,
        Some(line_view::Opened { path: "/l".into(), dir: "/".into(), text: "#-end\nx\n".into() }),
    );
    assert!(matches!(view.run(100), Progress::Finished));
    assert_eq!(shown(&view), ["x", "after"]);
}
