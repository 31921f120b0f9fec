//! Turns a menu document into a list of selectable lines.
//!
//! A document is a text file. Each of its lines is literal text, a comment,
//! or a directive that changes how the lines after it are read: directives
//! build the command that a line runs, set titles, raise and collect
//! warnings, and include other files. [`LineView`] holds a document while it
//! is made and once it is complete. The library reads no file itself: it
//! asks for each file it needs and is handed the text.
pub mod cmd;
pub mod directive;
pub mod directive_reader;
pub mod extensions;
pub mod history;
pub mod import;
pub mod laws;
pub mod line;
pub mod line_map;
pub mod line_read;
pub mod line_view;
pub mod path_set;
pub mod source;
pub mod source_action;
pub mod text;
pub mod watch;

pub use crate::cmd::Cmd;
pub use crate::directive::Directive;
pub use crate::directive_reader::DirectiveReader;
pub use crate::import::{Import, ImportKind};
pub use crate::line::{Line, Source as LineSource};
pub use crate::line_read::{Fused, LineRead, LineReader};
pub use crate::line_view::{LineView, Progress};
pub use crate::path_set::PathSet;
pub use crate::source::{Opened, Source};
pub use crate::source_action::SourceAction;
pub use crate::watch::Watch;

use crate::text::{chars_of, collect};
use std::path::Path;
use vstd::prelude::*;

verus! {

/// The path that `Path::join` makes of `base` and `rest`.
pub uninterp spec fn joined_path(base: Seq<char>, rest: Seq<char>) -> Seq<char>;

/// `Path::join` adjoins `rest` to `base`; the result is a function of the
/// two paths alone.
#[verifier::external_body]
fn join_path(base: &str, rest: &str) -> (path: String)
    ensures
        path@ == joined_path(base@, rest@),
{
    Path::new(base).join(rest).to_string_lossy().into_owned()
}

/// `home::home_dir` gives the home directory of the current user, if it can
/// be found: it depends on the environment, so nothing is known of it.
#[verifier::external_body]
pub(crate) fn home_dir() -> (home: Option<String>) {
    match home::home_dir() {
        Some(path) => Some(path.to_string_lossy().into_owned()),
        None => None,
    }
}

/// Whether `path` starts with the marker of the home directory, `~/`.
pub open spec fn in_home(path: Seq<char>) -> bool {
    path.len() >= 2 && path[0] == '~' && path[1] == '/'
}

/// The path that `line` stands for, given the home directory of the user if
/// it has one.
///
/// A path that starts with `~/` lies in the home directory; without a home
/// directory it stands for nothing. A path that starts with `~/~/` is the
/// path behind the first marker, taken as it is written. Any other path
/// stands for itself.
pub open spec fn escaped(line: Seq<char>, home: Option<Seq<char>>) -> Result<
    Seq<char>,
    Seq<char>,
> {
    if in_home(line) {
        let rest = line.subrange(2, line.len() as int);
        if in_home(rest) {
            Ok(rest)
        } else {
            match home {
                Some(home) => Ok(joined_path(home, rest)),
                None => Err("could not find user home"@),
            }
        }
    } else {
        Ok(line)
    }
}

/// Whether `result` is what `expected` says, views compared.
pub open spec fn is_escaped(
    result: Result<String, &'static str>,
    expected: Result<Seq<char>, Seq<char>>,
) -> bool {
    match result {
        Ok(path) => expected == Ok::<Seq<char>, Seq<char>>(path@),
        Err(reason) => expected == Err::<Seq<char>, Seq<char>>(reason@),
    }
}

/// Expands the marker of the home directory in `line`, given the home
/// directory `home` of the user, if it has one.
pub fn escape_path_from(line: &str, home: Option<&str>) -> (result: Result<String, &'static str>)
    ensures
        is_escaped(result, escaped(line@, match home {
            Some(home) => Some(home@),
            None => None,
        })),
{
    let chars = chars_of(line);
    let len = chars.len();
    if len >= 2 && chars[0] == '~' && chars[1] == '/' {
        if len >= 4 && chars[2] == '~' && chars[3] == '/' {
            Ok(collect(&chars, 2, len))
        } else {
            match home {
                Some(home) => {
                    let rest = collect(&chars, 2, len);
                    Ok(join_path(home, rest.as_str()))
                },
                None => Err("could not find user home"),
            }
        }
    } else {
        Ok(line.to_owned())
    }
}

/// Expands the marker of the home directory in `line`: a path that starts
/// with `~/` is looked for in the home directory of the current user.
pub fn escape_path(line: &str) -> (result: Result<String, &'static str>)
    ensures
        exists|home: Option<Seq<char>>| is_escaped(result, escaped(line@, home)),
{
    let home = home_dir();
    let result = match &home {
        Some(home) => escape_path_from(line, Some(home.as_str())),
        None => escape_path_from(line, None),
    };
    assert(is_escaped(result, escaped(line@, match home {
        Some(home) => Some(home@),
        None => None,
    })));
    result
}

} // verus!
