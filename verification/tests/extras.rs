use line_view::extensions::TapIf;
use line_view::history::History;
use line_view::{Cmd, Directive, DirectiveReader, LineRead, LineReader};

#[test]
fn tap_if_applies_only_under_the_condition() {
    assert_eq!(3.tap_if(true, |n| n + 1), 4);
    assert_eq!(3.tap_if(false, |n| n + 1), 3);
    assert_eq!("a".to_string().tap_if(true, |s| s + "b"), "ab");
    assert_eq!(3.tap_if_else(true, |n| format!("yes {n}"), |n| format!("no {n}")), "yes 3");
    assert_eq!(3.tap_if_else(false, |n| format!("yes {n}"), |n| format!("no {n}")), "no 3");
}

#[test]
fn history_goes_back_and_forth() {
    let mut history = History::from_states(vec!["a", "b", "c"], "none");
    assert_eq!(*history.current(), "c");
    assert!(history.has_past() && !history.has_future());
    history.redo();
    assert_eq!(*history.current(), "c");
    history.undo();
    assert_eq!(*history.current(), "b");
    assert!(history.has_past() && history.has_future());
    history.undo();
    history.undo();
    assert_eq!(*history.current(), "a");
    assert!(!history.has_past() && history.has_future());
    history.redo();
    assert_eq!(*history.current(), "b");
    history.soft_reset();
    assert_eq!(*history.current(), "a");
}

#[test]
fn history_push_forgets_the_future() {
    let mut history = History::from_states(vec![], 0);
    assert_eq!(*history.current(), 0);
    assert!(!history.has_past() && !history.has_future());
    history.push(1).push(2).push(3);
    assert_eq!(*history.current(), 3);
    history.undo();
    history.undo();
    assert_eq!(*history.current(), 1);
    history.push(9);
    assert_eq!(*history.current(), 9);
    assert!(!history.has_future());
    history.undo();
    assert_eq!(*history.current(), 1);
    history.undo();
    assert_eq!(*history.current(), 0);
    history.redo();
    history.redo();
    history.redo();
    assert_eq!(*history.current(), 9);
}

#[test]
fn calls_chain() {
    let mut cmd = Cmd::new();
    cmd.pre("a").pre("b").suf("c").suf("d");
    assert_eq!(*cmd.prefix(), ["a", "b"]);
    assert_eq!(*cmd.suffix(), ["c", "d"]);

    let mut reader = LineReader::new(DirectiveReader::new(""));
    reader.push(1, Directive::Watch).push(2, Directive::Then);
    assert!(matches!(reader.read(), (2, Directive::Then)));
    assert!(matches!(reader.read(), (1, Directive::Watch)));
    assert!(matches!(reader.read(), (0, Directive::Close)));
}
