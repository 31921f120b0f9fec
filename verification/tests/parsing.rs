use line_view::directive::Directive;

#[test]
fn plain_text_is_text() {
    match Directive::parse_line("hello\n") {
        Directive::Text(text) => assert_eq!(text, "hello"),
        other => panic!("unexpected {other:?}"),
    }
}

#[test]
fn prefix_takes_its_argument() {
    match Directive::parse_line("#-pre \"echo hi\"  \n") {
        Directive::Prefix(text) => assert_eq!(text, "echo hi"),
        other => panic!("unexpected {other:?}"),
    }
}

#[test]
fn unknown_keyword_warns() {
    match Directive::parse_line("#-frobnicate now") {
        Directive::Warning(text) => assert_eq!(text, "frobnicate is not a directive"),
        other => panic!("unexpected {other:?}"),
    }
}

#[test]
fn missing_argument_warns() {
    match Directive::parse_line("#-title") {
        Directive::Warning(text) => assert_eq!(text, "directive title requires an argument"),
        other => panic!("unexpected {other:?}"),
    }
}

fn text_of(directive: Directive) -> (&'static str, String) {
    match directive {
        Directive::Prefix(t) => ("pre", t),
        Directive::Suffix(t) => ("suf", t),
        Directive::Warning(t) => ("warning", t),
        Directive::Title(t) => ("title", t),
        Directive::Subtitle(t) => ("subtitle", t),
        Directive::Text(t) => ("text", t),
        Directive::Comment(t) => ("comment", t),
        Directive::Import(i) => (
            match i.kind() {
                line_view::ImportKind::Import => "import",
                line_view::ImportKind::Source => "source",
                line_view::ImportKind::Lines => "lines",
            },
            i.file().to_string(),
        ),
        other => panic!("no text in {other:?}"),
    }
}

#[test]
fn blank_lines_are_empty() {
    assert!(matches!(Directive::parse_line(""), Directive::Empty));
    assert!(matches!(Directive::parse_line("\n"), Directive::Empty));
    assert!(matches!(Directive::parse_line("  \t \r\n"), Directive::Empty));
    assert!(matches!(Directive::parse_line("\u{3000}\u{a0}"), Directive::Empty));
}

#[test]
fn text_keeps_leading_and_loses_trailing_whitespace() {
    assert_eq!(text_of(Directive::parse_line("  a b \t\r\n")), ("text", "  a b".to_string()));
    assert_eq!(text_of(Directive::parse_line(" #-pre x")), ("text", " #-pre x".to_string()));
    assert_eq!(text_of(Directive::parse_line("a\u{2003}")), ("text", "a".to_string()));
    // a zero width space is no whitespace
    assert_eq!(text_of(Directive::parse_line("a\u{200b}")), ("text", "a\u{200b}".to_string()));
}

#[test]
fn doubled_marker_escapes() {
    assert_eq!(text_of(Directive::parse_line("##x")), ("text", "#x".to_string()));
    assert_eq!(text_of(Directive::parse_line("##")), ("text", "#".to_string()));
    assert_eq!(text_of(Directive::parse_line("###-pre")), ("text", "##-pre".to_string()));
}

#[test]
fn single_marker_is_a_comment() {
    assert_eq!(text_of(Directive::parse_line("#")), ("comment", String::new()));
    assert_eq!(text_of(Directive::parse_line("#  note  ")), ("comment", "note".to_string()));
    assert_eq!(text_of(Directive::parse_line("#!/usr/bin/env x")), ("comment", "!/usr/bin/env x".to_string()));
}

#[test]
fn keywords_without_argument() {
    assert!(matches!(Directive::parse_line("#-clean"), Directive::Clean));
    assert!(matches!(Directive::parse_line("#-  clean  and more"), Directive::Clean));
    assert!(matches!(Directive::parse_line("#-empty"), Directive::Empty));
    assert!(matches!(Directive::parse_line("#-close"), Directive::Close));
    assert!(matches!(Directive::parse_line("#-end"), Directive::EndMap { automatic: false }));
    assert!(matches!(Directive::parse_line("#-ignore-warnings"), Directive::IgnoreWarnings));
    assert!(matches!(Directive::parse_line("#-ignore-text"), Directive::IgnoreText));
    assert!(matches!(Directive::parse_line("#-watch"), Directive::Watch));
    assert!(matches!(Directive::parse_line("#-then"), Directive::Then));
    assert!(matches!(Directive::parse_line("#-else"), Directive::Else));
    assert!(matches!(Directive::parse_line("#-display-warnings"), Directive::DisplayWarnings));
}

#[test]
fn keywords_with_argument() {
    for keyword in
        ["pre", "suf", "title", "subtitle", "import", "lines", "source", "warning", "text", "comment"]
    {
        let found = text_of(Directive::parse_line(&format!("#-{keyword}\t  some  thing \n")));
        assert_eq!(found, (keyword, "some  thing".to_string()));
        let found = text_of(Directive::parse_line(&format!("#-{keyword}")));
        assert_eq!(found, ("warning", format!("directive {keyword} requires an argument")));
    }
}

#[test]
fn quotes_are_stripped_once_and_only_in_pairs() {
    assert_eq!(text_of(Directive::parse_directive("pre \"a b\"")), ("pre", "a b".to_string()));
    assert_eq!(text_of(Directive::parse_directive("pre \" a \"")), ("pre", " a ".to_string()));
    assert_eq!(text_of(Directive::parse_directive("pre \"\"a\"\"")), ("pre", "\"a\"".to_string()));
    assert_eq!(text_of(Directive::parse_directive("pre \"a")), ("pre", "\"a".to_string()));
    assert_eq!(text_of(Directive::parse_directive("pre a\"")), ("pre", "a\"".to_string()));
    assert_eq!(text_of(Directive::parse_directive("pre \"")), ("pre", "\"".to_string()));
    assert_eq!(text_of(Directive::parse_directive("pre \"\"")), ("pre", String::new()));
    assert_eq!(text_of(Directive::parse_directive("pre a\"b\"c")), ("pre", "a\"b\"c".to_string()));
}

#[test]
fn words_that_are_no_keyword() {
    assert_eq!(text_of(Directive::parse_line("#-")), ("warning", " is not a directive".to_string()));
    assert_eq!(text_of(Directive::parse_line("#-Pre x")), ("warning", "Pre is not a directive".to_string()));
    assert_eq!(text_of(Directive::parse_line("#-prefix x")), ("warning", "prefix is not a directive".to_string()));
    assert_eq!(text_of(Directive::parse_line("#-pre\u{a0}x")), ("pre", "x".to_string()));
}

#[test]
fn parse_directive_result_tells_failures_apart() {
    assert!(matches!(Directive::parse_directive_result("watch"), Ok(Directive::Watch)));
    assert_eq!(
        Directive::parse_directive_result("nope").unwrap_err(),
        "nope is not a directive"
    );
    assert_eq!(
        Directive::parse_directive_result("suf").unwrap_err(),
        "directive suf requires an argument"
    );
    assert!(matches!(
        Directive::parse_directive_result("warning boo"),
        Ok(Directive::Warning(w)) if w == "boo"
    ));
}
