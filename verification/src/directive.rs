//! The meaning of one line of a document, and the parser that finds it.
use crate::import::{Import, ImportKind, ImportView};
use crate::text::{
    chars_of, collect, concat, range_is, strip_quotes, trim, trim_end, trim_end_index, trim_start,
    trim_start_index, word_end_index, word_len,
};
use vstd::prelude::*;

verus! {

/// What one line of a document asks for.
#[derive(Debug)]
pub enum Directive {
    /// Nothing.
    Noop,
    /// A blank line.
    Empty,
    /// The end of the current file.
    Close,
    /// Detach the command template.
    Clean,
    /// Drop warnings until the scope is closed.
    IgnoreWarnings,
    /// Drop literal text until the scope is closed.
    IgnoreText,
    /// Start collecting warnings.
    Watch,
    /// Open the block that runs if no warning was collected.
    Then,
    /// Open the block that runs if a warning was collected.
    Else,
    /// Show the collected warnings.
    DisplayWarnings,
    /// Close the innermost scope.
    EndMap { automatic: bool },
    /// Append an argument before the line's text.
    Prefix(String),
    /// Append an argument after the line's text.
    Suffix(String),
    /// A warning to show or to collect.
    Warning(String),
    /// The title of the document.
    Title(String),
    /// A heading inside the document.
    Subtitle(String),
    /// A selectable line.
    Text(String),
    /// A remark that is never shown.
    Comment(String),
    /// Include another file.
    Import(Import),
    /// Several directives, to be taken in order.
    Multiple(Vec<Directive>),
    /// Open a scope that lets every directive through unchanged.
    Debug,
}

/// A [`Directive`] as a mathematical value.
pub ghost enum DirectiveView {
    Noop,
    Empty,
    Close,
    Clean,
    IgnoreWarnings,
    IgnoreText,
    Watch,
    Then,
    Else,
    DisplayWarnings,
    EndMap { automatic: bool },
    Prefix(Seq<char>),
    Suffix(Seq<char>),
    Warning(Seq<char>),
    Title(Seq<char>),
    Subtitle(Seq<char>),
    Text(Seq<char>),
    Comment(Seq<char>),
    Import(ImportView),
    Multiple(Seq<DirectiveView>),
    Debug,
}

impl View for Directive {
    type V = DirectiveView;

    open spec fn view(&self) -> DirectiveView
        decreases self,
    {
        match self {
            Directive::Noop => DirectiveView::Noop,
            Directive::Empty => DirectiveView::Empty,
            Directive::Close => DirectiveView::Close,
            Directive::Clean => DirectiveView::Clean,
            Directive::IgnoreWarnings => DirectiveView::IgnoreWarnings,
            Directive::IgnoreText => DirectiveView::IgnoreText,
            Directive::Watch => DirectiveView::Watch,
            Directive::Then => DirectiveView::Then,
            Directive::Else => DirectiveView::Else,
            Directive::DisplayWarnings => DirectiveView::DisplayWarnings,
            Directive::EndMap { automatic } => DirectiveView::EndMap { automatic: *automatic },
            Directive::Prefix(text) => DirectiveView::Prefix(text@),
            Directive::Suffix(text) => DirectiveView::Suffix(text@),
            Directive::Warning(text) => DirectiveView::Warning(text@),
            Directive::Title(text) => DirectiveView::Title(text@),
            Directive::Subtitle(text) => DirectiveView::Subtitle(text@),
            Directive::Text(text) => DirectiveView::Text(text@),
            Directive::Comment(text) => DirectiveView::Comment(text@),
            Directive::Import(import) => DirectiveView::Import(import@),
            Directive::Multiple(list) => DirectiveView::Multiple(
                Seq::new(
                    list@.len(),
                    |i: int|
                        if 0 <= i < list@.len() {
                            list@[i].view()
                        } else {
                            DirectiveView::Noop
                        },
                ),
            ),
            Directive::Debug => DirectiveView::Debug,
        }
    }
}

/// The views of a list of directives, in order.
pub open spec fn views(list: Seq<Directive>) -> Seq<DirectiveView> {
    Seq::new(list.len(), |i: int| list[i]@)
}

/// The view of `Multiple(list)` is `Multiple` of the views of `list`.
pub proof fn lemma_view_multiple(list: Vec<Directive>)
    ensures
        Directive::Multiple(list)@ == DirectiveView::Multiple(views(list@)),
{
    assert(Directive::Multiple(list)@->Multiple_0 =~= views(list@));
}

/// The warning for a keyword that came without the argument it needs.
pub open spec fn missing_argument(keyword: Seq<char>) -> Seq<char> {
    "directive "@ + keyword + " requires an argument"@
}

/// The warning for a word that is no keyword.
pub open spec fn unknown_keyword(word: Seq<char>) -> Seq<char> {
    word + " is not a directive"@
}

/// `found` if the keyword came with an argument, else the warning that it
/// is missing.
pub open spec fn with_argument(
    keyword: Seq<char>,
    argument: Option<Seq<char>>,
    found: DirectiveView,
) -> Result<DirectiveView, Seq<char>> {
    if argument is Some {
        Ok(found)
    } else {
        Err(missing_argument(keyword))
    }
}

/// The keyword of a directive command: its first word.
pub open spec fn keyword_of(command: Seq<char>) -> Seq<char> {
    let c = trim_start(command);
    c.subrange(0, word_len(c) as int)
}

/// The argument of a directive command: what follows the whitespace
/// character after the keyword, trimmed and without enclosing quotes; `None`
/// if nothing follows the keyword.
pub open spec fn argument_of(command: Seq<char>) -> Option<Seq<char>> {
    let c = trim_start(command);
    if word_len(c) < c.len() {
        Some(strip_quotes(trim(c.subrange(word_len(c) as int + 1, c.len() as int))))
    } else {
        None
    }
}

/// What the text behind the directive marker means, or the warning that says
/// why it means nothing.
pub open spec fn parse_directive_result_spec(command: Seq<char>) -> Result<
    DirectiveView,
    Seq<char>,
> {
    let word = keyword_of(command);
    let argument = argument_of(command);
    let text = argument.unwrap_or(Seq::empty());
    if word == "pre"@ {
        with_argument(word, argument, DirectiveView::Prefix(text))
    } else if word == "suf"@ {
        with_argument(word, argument, DirectiveView::Suffix(text))
    } else if word == "clean"@ {
        Ok(DirectiveView::Clean)
    } else if word == "title"@ {
        with_argument(word, argument, DirectiveView::Title(text))
    } else if word == "subtitle"@ {
        with_argument(word, argument, DirectiveView::Subtitle(text))
    } else if word == "import"@ {
        with_argument(
            word,
            argument,
            DirectiveView::Import(ImportView { file: text, kind: ImportKind::Import }),
        )
    } else if word == "lines"@ {
        with_argument(
            word,
            argument,
            DirectiveView::Import(ImportView { file: text, kind: ImportKind::Lines }),
        )
    } else if word == "source"@ {
        with_argument(
            word,
            argument,
            DirectiveView::Import(ImportView { file: text, kind: ImportKind::Source }),
        )
    } else if word == "warning"@ {
        with_argument(word, argument, DirectiveView::Warning(text))
    } else if word == "text"@ {
        with_argument(word, argument, DirectiveView::Text(text))
    } else if word == "empty"@ {
        Ok(DirectiveView::Empty)
    } else if word == "comment"@ {
        with_argument(word, argument, DirectiveView::Comment(text))
    } else if word == "close"@ {
        Ok(DirectiveView::Close)
    } else if word == "end"@ {
        Ok(DirectiveView::EndMap { automatic: false })
    } else if word == "ignore-warnings"@ {
        Ok(DirectiveView::IgnoreWarnings)
    } else if word == "ignore-text"@ {
        Ok(DirectiveView::IgnoreText)
    } else if word == "watch"@ {
        Ok(DirectiveView::Watch)
    } else if word == "then"@ {
        Ok(DirectiveView::Then)
    } else if word == "else"@ {
        Ok(DirectiveView::Else)
    } else if word == "display-warnings"@ {
        Ok(DirectiveView::DisplayWarnings)
    } else {
        Err(unknown_keyword(word))
    }
}

/// What the text behind the directive marker means; a malformed command
/// means a warning.
pub open spec fn parse_directive_spec(command: Seq<char>) -> DirectiveView {
    match parse_directive_result_spec(command) {
        Ok(directive) => directive,
        Err(warning) => DirectiveView::Warning(warning),
    }
}

/// What one line of a document means.
pub open spec fn parse_line_spec(line: Seq<char>) -> DirectiveView {
    let text = trim_end(line);
    if text.len() == 0 {
        DirectiveView::Empty
    } else if text.len() >= 2 && text[0] == '#' && text[1] == '-' {
        parse_directive_spec(text.subrange(2, text.len() as int))
    } else if text.len() >= 2 && text[0] == '#' && text[1] == '#' {
        DirectiveView::Text(text.subrange(1, text.len() as int))
    } else if text[0] == '#' {
        DirectiveView::Comment(trim_start(text.subrange(1, text.len() as int)))
    } else {
        DirectiveView::Text(text)
    }
}

/// Whether `parsed` is what `expected` says, views compared.
pub open spec fn result_views(
    parsed: Result<Directive, String>,
    expected: Result<DirectiveView, Seq<char>>,
) -> bool {
    match parsed {
        Ok(directive) => expected == Ok::<DirectiveView, Seq<char>>(directive@),
        Err(warning) => expected == Err::<DirectiveView, Seq<char>>(warning@),
    }
}

fn missing(keyword: &str) -> (warning: String)
    ensures
        warning@ == missing_argument(keyword@),
{
    let mut warning = concat("directive ", keyword);
    warning.append(" requires an argument");
    warning
}

/// The argument of the command `chars[from..to]`, whose keyword ends at
/// `word_end`.
fn argument_in(chars: &Vec<char>, from: usize, word_end: usize, to: usize) -> (argument: Option<
    String,
>)
    requires
        from <= word_end <= to <= chars.len(),
        chars@.subrange(from as int, to as int) == trim_start(
            chars@.subrange(from as int, to as int),
        ),
        word_end - from == word_len(chars@.subrange(from as int, to as int)),
    ensures
        match argument {
            Some(text) => argument_of(chars@.subrange(from as int, to as int)) == Some(text@),
            None => argument_of(chars@.subrange(from as int, to as int)) is None,
        },
{
    if word_end < to {
        let ghost command = chars@.subrange(from as int, to as int);
        let ghost rest = chars@.subrange(word_end + 1, to as int);
        assert(command.subrange(word_len(command) as int + 1, command.len() as int) =~= rest);
        let end = trim_end_index(chars, word_end + 1, to);
        let start = trim_start_index(chars, word_end + 1, end);
        let ghost inner = chars@.subrange(start as int, end as int);
        assert(inner == trim(rest));
        if end - start >= 2 && chars[start] == '"' && chars[end - 1] == '"' {
            assert(inner.subrange(1, inner.len() - 1) =~= chars@.subrange(start + 1, end - 1));
            Some(collect(chars, start + 1, end - 1))
        } else {
            Some(collect(chars, start, end))
        }
    } else {
        None
    }
}

/// Parses the command `chars[from..to]`.
fn parse_command(chars: &Vec<char>, from: usize, to: usize) -> (parsed: Result<Directive, String>)
    requires
        from <= to <= chars.len(),
    ensures
        result_views(parsed, parse_directive_result_spec(chars@.subrange(from as int, to as int))),
{
    let ghost command = chars@.subrange(from as int, to as int);
    let start = trim_start_index(chars, from, to);
    let ghost trimmed = chars@.subrange(start as int, to as int);
    proof {
        lemma_trim_start_idempotent(command);
    }
    let word_end = word_end_index(chars, start, to);
    assert(trimmed.subrange(0, word_len(trimmed) as int) =~= chars@.subrange(
        start as int,
        word_end as int,
    ));
    let argument = argument_in(chars, start, word_end, to);
    if range_is(chars, start, word_end, "pre") {
        match argument {
            Some(text) => Ok(Directive::Prefix(text)),
            None => Err(missing("pre")),
        }
    } else if range_is(chars, start, word_end, "suf") {
        match argument {
            Some(text) => Ok(Directive::Suffix(text)),
            None => Err(missing("suf")),
        }
    } else if range_is(chars, start, word_end, "clean") {
        Ok(Directive::Clean)
    } else if range_is(chars, start, word_end, "title") {
        match argument {
            Some(text) => Ok(Directive::Title(text)),
            None => Err(missing("title")),
        }
    } else if range_is(chars, start, word_end, "subtitle") {
        match argument {
            Some(text) => Ok(Directive::Subtitle(text)),
            None => Err(missing("subtitle")),
        }
    } else if range_is(chars, start, word_end, "import") {
        match argument {
            Some(text) => Ok(Directive::Import(Import::new_import(text.as_str()))),
            None => Err(missing("import")),
        }
    } else if range_is(chars, start, word_end, "lines") {
        match argument {
            Some(text) => Ok(Directive::Import(Import::new_lines(text.as_str()))),
            None => Err(missing("lines")),
        }
    } else if range_is(chars, start, word_end, "source") {
        match argument {
            Some(text) => Ok(Directive::Import(Import::new_source(text.as_str()))),
            None => Err(missing("source")),
        }
    } else if range_is(chars, start, word_end, "warning") {
        match argument {
            Some(text) => Ok(Directive::Warning(text)),
            None => Err(missing("warning")),
        }
    } else if range_is(chars, start, word_end, "text") {
        match argument {
            Some(text) => Ok(Directive::Text(text)),
            None => Err(missing("text")),
        }
    } else if range_is(chars, start, word_end, "empty") {
        Ok(Directive::Empty)
    } else if range_is(chars, start, word_end, "comment") {
        match argument {
            Some(text) => Ok(Directive::Comment(text)),
            None => Err(missing("comment")),
        }
    } else if range_is(chars, start, word_end, "close") {
        Ok(Directive::Close)
    } else if range_is(chars, start, word_end, "end") {
        Ok(Directive::EndMap { automatic: false })
    } else if range_is(chars, start, word_end, "ignore-warnings") {
        Ok(Directive::IgnoreWarnings)
    } else if range_is(chars, start, word_end, "ignore-text") {
        Ok(Directive::IgnoreText)
    } else if range_is(chars, start, word_end, "watch") {
        Ok(Directive::Watch)
    } else if range_is(chars, start, word_end, "then") {
        Ok(Directive::Then)
    } else if range_is(chars, start, word_end, "else") {
        Ok(Directive::Else)
    } else if range_is(chars, start, word_end, "display-warnings") {
        Ok(Directive::DisplayWarnings)
    } else {
        let word = collect(chars, start, word_end);
        Err(concat(word.as_str(), " is not a directive"))
    }
}

/// Trimming the start twice is trimming it once.
pub proof fn lemma_trim_start_idempotent(s: Seq<char>)
    ensures
        trim_start(trim_start(s)) == trim_start(s),
    decreases s.len(),
{
    if s.len() > 0 && crate::text::is_whitespace(s[0]) {
        lemma_trim_start_idempotent(s.drop_first());
    }
}

/// Parses the line `chars[from..to]`.
pub(crate) fn parse_line_in(chars: &Vec<char>, from: usize, to: usize) -> (directive: Directive)
    requires
        from <= to <= chars.len(),
    ensures
        directive@ == parse_line_spec(chars@.subrange(from as int, to as int)),
{
    let end = trim_end_index(chars, from, to);
    let ghost text = chars@.subrange(from as int, end as int);
    if end == from {
        Directive::Empty
    } else if end - from >= 2 && chars[from] == '#' && chars[from + 1] == '-' {
        assert(text.subrange(2, text.len() as int) =~= chars@.subrange(from + 2, end as int));
        match parse_command(chars, from + 2, end) {
            Ok(directive) => directive,
            Err(warning) => Directive::Warning(warning),
        }
    } else if end - from >= 2 && chars[from] == '#' && chars[from + 1] == '#' {
        assert(text.subrange(1, text.len() as int) =~= chars@.subrange(from + 1, end as int));
        Directive::Text(collect(chars, from + 1, end))
    } else if chars[from] == '#' {
        assert(text.subrange(1, text.len() as int) =~= chars@.subrange(from + 1, end as int));
        let start = trim_start_index(chars, from + 1, end);
        Directive::Comment(collect(chars, start, end))
    } else {
        Directive::Text(collect(chars, from, end))
    }
}

impl Directive {
    /// Parses the text behind the directive marker. `Err` holds the warning
    /// for a word that is no keyword, or for a keyword without the argument
    /// it needs.
    pub fn parse_directive_result(text: &str) -> (parsed: Result<Directive, String>)
        ensures
            result_views(parsed, parse_directive_result_spec(text@)),
    {
        let chars = chars_of(text);
        assert(chars@.subrange(0, chars@.len() as int) =~= chars@);
        parse_command(&chars, 0, chars.len())
    }

    /// Parses the text behind the directive marker; a malformed command
    /// becomes a `Warning`.
    pub fn parse_directive(text: &str) -> (directive: Directive)
        ensures
            directive@ == parse_directive_spec(text@),
    {
        match Directive::parse_directive_result(text) {
            Err(warning) => Directive::Warning(warning),
            Ok(directive) => directive,
        }
    }

    /// Parses one line of a document, with or without its line break.
    pub fn parse_line(text: &str) -> (directive: Directive)
        ensures
            directive@ == parse_line_spec(text@),
    {
        let chars = chars_of(text);
        assert(chars@.subrange(0, chars@.len() as int) =~= chars@);
        parse_line_in(&chars, 0, chars.len())
    }
}

} // verus!
