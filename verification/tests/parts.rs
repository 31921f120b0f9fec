use line_view::cmd::Directory;
use line_view::line::{Builder, Source};
use line_view::{
    escape_path, escape_path_from, Cmd, Directive, DirectiveReader, Fused, LineRead, LineReader,
    PathSet, Watch,
};

#[test]
fn cmd_collects_arguments() {
    let mut cmd = Cmd::new();
    assert!(cmd.is_empty());
    assert!(Cmd::default().is_empty());
    cmd.suf("--tail");
    assert!(!cmd.is_empty());
    cmd.pre("echo");
    cmd.pre("-n");
    assert_eq!(*cmd.prefix(), ["echo", "-n"]);
    assert_eq!(*cmd.suffix(), ["--tail"]);
    let params = vec!["a".to_string(), "b".to_string()];
    assert_eq!(cmd.arguments(&params), ["echo", "-n", "a", "b", "--tail"]);
    assert!(Cmd::new().arguments(&vec![]).is_empty());
    let copy = cmd.clone();
    cmd.pre("later");
    assert_eq!(*copy.prefix(), ["echo", "-n"]);
}

#[test]
fn directory_keeps_templates_apart() {
    let mut directory = Directory::new();
    let a = directory.new_handle();
    let b = directory.new_handle();
    assert!(directory.holds(a) && directory.holds(b));
    directory.pre(a, "echo");
    directory.suf(b, "tail");
    let before = directory.snapshot(a);
    directory.pre(a, "more");
    assert_eq!(*before.prefix(), ["echo"]);
    assert_eq!(*directory.snapshot(a).prefix(), ["echo", "more"]);
    assert!(directory.snapshot(a).suffix().is_empty());
    assert_eq!(*directory.snapshot(b).suffix(), ["tail"]);
    assert!(directory.snapshot(b).prefix().is_empty());
}

#[test]
fn builder_builds_what_was_set() {
    let line = Builder::new().source(Source::file("/f")).position(7).build();
    assert_eq!(line.text(), "");
    assert_eq!(line.line(), 7);
    assert_eq!(line.source().path(), "/f");
    assert!(!line.is_title() && !line.is_warning() && !line.has_command());

    let mut cmd = Cmd::new();
    cmd.pre("echo");
    let line = Builder::new()
        .text("hello".to_string())
        .cmd(cmd)
        .position(1)
        .title()
        .source(Source::file("/g"))
        .build();
    assert_eq!(line.text(), "hello");
    assert!(line.is_title() && !line.is_warning() && line.has_command());
    assert_eq!(line.arguments(), ["echo", "hello"]);

    let line = Builder::new().warning().source(Source::file("/g")).position(0).build();
    assert!(line.is_warning() && !line.is_title());
    let copy = line.clone();
    assert!(copy.is_warning());
}

#[test]
fn watch_collects_between_watch_and_take() {
    let mut watch = Watch::default();
    assert!(watch.is_sleeping() && !watch.is_watching());
    assert!(!watch.record("lost"));
    assert!(watch.take().is_none());
    watch.watch();
    assert!(watch.is_watching() && !watch.is_sleeping());
    assert!(watch.record("a"));
    watch.watch();
    assert!(watch.record("b"));
    assert_eq!(watch.take().unwrap(), ["a", "b"]);
    assert!(watch.is_sleeping());
    watch.watch();
    watch.record("c");
    watch.sleep();
    assert!(watch.is_sleeping());
    watch.sleep();
    watch.watch();
    assert!(watch.take().unwrap().is_empty());
}

#[test]
fn reader_gives_lines_then_close() {
    let mut reader = DirectiveReader::new("a\n\n#-clean\r\nlast");
    assert!(matches!(reader.read(), (0, Directive::Text(t)) if t == "a"));
    assert!(matches!(reader.read(), (1, Directive::Empty)));
    assert!(matches!(reader.read(), (2, Directive::Clean)));
    assert!(matches!(reader.read(), (3, Directive::Text(t)) if t == "last"));
    assert!(matches!(reader.read(), (4, Directive::Close)));
    assert!(matches!(reader.read(), (4, Directive::Close)));
    let mut reader = DirectiveReader::new("");
    assert!(matches!(reader.read(), (0, Directive::Close)));
}

#[test]
fn line_reader_hands_out_what_was_handed_back_first() {
    let mut reader = LineReader::new(DirectiveReader::new("a\nb\n"));
    assert!(matches!(reader.read(), (0, Directive::Text(t)) if t == "a"));
    reader.push(9, Directive::Watch);
    reader.push(8, Directive::Then);
    assert!(matches!(reader.read(), (8, Directive::Then)));
    assert!(matches!(reader.read(), (9, Directive::Watch)));
    assert!(matches!(reader.read(), (1, Directive::Text(t)) if t == "b"));
    assert!(matches!(reader.read(), (2, Directive::Close)));
}

#[test]
fn fused_reader_gives_blank_lines_after_close() {
    let mut reader = Fused::from(DirectiveReader::new("a\n#-close\nb\n"));
    assert!(matches!(reader.read(), (0, Directive::Text(t)) if t == "a"));
    assert!(matches!(reader.read(), (1, Directive::Close)));
    assert!(matches!(reader.read(), (1, Directive::Empty)));
    assert!(matches!(reader.read(), (1, Directive::Empty)));

    let mut reader = LineReader::new(DirectiveReader::new("a"));
    assert!(matches!(reader.read(), (0, Directive::Text(t)) if t == "a"));
    assert!(matches!(reader.read(), (1, Directive::Close)));
    assert!(matches!(reader.read(), (1, Directive::Empty)));
    reader.push(7, Directive::Close);
    assert!(matches!(reader.read(), (7, Directive::Close)));
    assert!(matches!(reader.read(), (1, Directive::Empty)));
}

#[test]
fn path_set_holds_each_path_once() {
    let mut set = PathSet::new();
    assert!(!set.contains("/a"));
    assert!(set.paths().is_empty());
    assert!(set.insert("/a"));
    assert!(set.contains("/a"));
    assert!(!set.contains("/b"));
    assert!(!set.insert("/a"));
    assert!(set.insert("/b"));
    let mut paths = set.paths();
    paths.sort();
    assert_eq!(paths, ["/a", "/b"]);
}

#[test]
fn escape_path_expands_the_home_marker() {
    assert_eq!(escape_path_from("plain/x", Some("/home/u")), Ok("plain/x".to_string()));
    assert_eq!(escape_path_from("/abs/x", None), Ok("/abs/x".to_string()));
    assert_eq!(escape_path_from("~", None), Ok("~".to_string()));
    assert_eq!(escape_path_from("~x/y", None), Ok("~x/y".to_string()));
    assert_eq!(escape_path_from("~/~/x", None), Ok("~/x".to_string()));
    assert_eq!(escape_path_from("~/~/", Some("/home/u")), Ok("~/".to_string()));
    assert_eq!(escape_path_from("~/x", None), Err("could not find user home"));
    assert_eq!(escape_path_from("~/", None), Err("could not find user home"));
    let joined = escape_path_from("~/docs/x", Some("/home/u")).unwrap();
    assert_eq!(std::path::Path::new(&joined), std::path::Path::new("/home/u/docs/x"));
    assert_eq!(escape_path("plain"), Ok("plain".to_string()));
    assert_eq!(escape_path("~/~/menu"), Ok("~/menu".to_string()));
    match escape_path("~/menu") {
        Ok(path) => assert!(path.ends_with("menu") && path != "~/menu"),
        Err(reason) => assert_eq!(reason, "could not find user home"),
    }
}
