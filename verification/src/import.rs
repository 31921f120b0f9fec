//! The payload of the three inclusion directives.
use crate::cmd::{CmdView, Directory};
use crate::directive::{Directive, DirectiveView};
use crate::line_map::{LineMapNode, Mapper, MapperView, ScopeView};
use crate::path_set::PathSet;
use crate::source::{Opened, OpenedView, Source, SourceView};
use crate::text::concat;
use vstd::prelude::*;

verus! {

/// How an included file relates to the context that includes it.
#[derive(Debug, Clone, Copy, PartialEq, Eq, Structural)]
pub enum ImportKind {
    /// Continues the including context: shares its command template, its
    /// set of sourced files and its right to set the title.
    Source,
    /// A context of its own, entered at most once in a whole run.
    Import,
    /// Only the literal lines of the file, under the including context's
    /// command template.
    Lines,
}

/// A request to include a file.
#[derive(Debug)]
pub struct Import {
    file: String,
    kind: ImportKind,
}

/// What an [`Import`] holds, as mathematical values.
pub ghost struct ImportView {
    pub file: Seq<char>,
    pub kind: ImportKind,
}

impl View for Import {
    type V = ImportView;

    closed spec fn view(&self) -> ImportView {
        ImportView { file: self.file@, kind: self.kind }
    }
}

impl Clone for Import {
    fn clone(&self) -> (copy: Import)
        ensures
            copy@ == self@,
    {
        Import { file: self.file.clone(), kind: self.kind }
    }
}

impl Import {
    /// An `import` of `path`.
    pub fn new_import(path: &str) -> (import: Import)
        ensures
            import@ == (ImportView { file: path@, kind: ImportKind::Import }),
    {
        Import { file: path.to_owned(), kind: ImportKind::Import }
    }

    /// A `source` of `path`.
    pub fn new_source(path: &str) -> (import: Import)
        ensures
            import@ == (ImportView { file: path@, kind: ImportKind::Source }),
    {
        Import { file: path.to_owned(), kind: ImportKind::Source }
    }

    /// A `lines` of `path`.
    pub fn new_lines(path: &str) -> (import: Import)
        ensures
            import@ == (ImportView { file: path@, kind: ImportKind::Lines }),
    {
        Import { file: path.to_owned(), kind: ImportKind::Lines }
    }

    /// The path as it was written in the document.
    pub fn file(&self) -> (file: &str)
        ensures
            file@ == self@.file,
    {
        self.file.as_str()
    }

    /// The kind of inclusion asked for.
    pub fn kind(&self) -> (kind: ImportKind)
        ensures
            kind == self@.kind,
    {
        self.kind
    }
}

/// What a run remembers across its files.
pub ghost struct Registry {
    /// The files that were imported, the root among them.
    pub imported: Set<Seq<char>>,
    /// For each lineage of sourced files, the files that were sourced in it.
    pub sourced: Seq<Set<Seq<char>>>,
    /// The command templates, by handle.
    pub cmds: Seq<CmdView>,
}

/// What became of a request to include a file.
pub ghost enum Inclusion {
    /// The file is entered, in this state.
    Entered(SourceView),
    /// The file was included before: nothing is to be done.
    Skipped,
    /// The file could not be had; the warning says so.
    Failed(Seq<char>),
}

/// What a list of sets holds.
pub open spec fn set_views(sets: Seq<PathSet>) -> Seq<Set<Seq<char>>> {
    Seq::new(sets.len(), |i: int| sets[i]@)
}

/// The file that was found, if any, as a mathematical value.
pub open spec fn opened_view(opened: Option<Opened>) -> Option<OpenedView> {
    match opened {
        Some(file) => Some(file@),
        None => None,
    }
}

/// The warning for a file that could not be included.
pub open spec fn import_failure(file: Seq<char>) -> Seq<char> {
    "could not source/import/lines "@ + file
}

/// What the request `import`, made in the file `parent`, leads to, given the
/// file that was found for it, if any.
///
/// An `import` enters a file at most once in a run, with a command
/// template, a lineage and a title scope of its own. A `source` enters a
/// file at most once in the lineage of `parent`, and shares the command
/// template, the lineage and the right to set the title with `parent`. A
/// `lines` enters a file every time, shares only the command template, and
/// opens a scope in which only the lines of the file count.
pub open spec fn included(
    import: ImportView,
    parent: SourceView,
    registry: Registry,
    opened: Option<OpenedView>,
) -> (Registry, Inclusion) {
    match opened {
        None => (registry, Inclusion::Failed(import_failure(import.file))),
        Some(file) => match import.kind {
            ImportKind::Import => if registry.imported.contains(file.path) {
                (registry, Inclusion::Skipped)
            } else {
                (
                    Registry {
                        imported: registry.imported.insert(file.path),
                        sourced: registry.sourced.push(Set::empty()),
                        cmds: registry.cmds.push(CmdView::empty()),
                    },
                    Inclusion::Entered(
                        SourceView::fresh(
                            file.path,
                            file.dir,
                            file.text,
                            registry.cmds.len(),
                            registry.sourced.len(),
                            false,
                            Seq::empty(),
                        ),
                    ),
                )
            },
            ImportKind::Source => if registry.sourced[parent.sourced as int].contains(file.path) {
                (registry, Inclusion::Skipped)
            } else {
                (
                    Registry {
                        sourced: registry.sourced.update(
                            parent.sourced as int,
                            registry.sourced[parent.sourced as int].insert(file.path),
                        ),
                        ..registry
                    },
                    Inclusion::Entered(
                        SourceView::fresh(
                            file.path,
                            file.dir,
                            file.text,
                            parent.cmd,
                            parent.sourced,
                            parent.is_root,
                            Seq::empty(),
                        ),
                    ),
                )
            },
            ImportKind::Lines => (
                Registry { sourced: registry.sourced.push(Set::empty()), ..registry },
                Inclusion::Entered(
                    SourceView::fresh(
                        file.path,
                        file.dir,
                        file.text,
                        parent.cmd,
                        registry.sourced.len(),
                        false,
                        seq![ScopeView { mapper: MapperView::SkipDirectives, automatic: true }],
                    ),
                ),
            ),
        },
    }
}

/// Whether `result` is what `inclusion` says.
pub open spec fn is_inclusion(
    inclusion: Inclusion,
    result: Result<Option<Source>, Directive>,
) -> bool {
    match result {
        Ok(Some(source)) => source.wf() && inclusion == Inclusion::Entered(source@),
        Ok(None) => inclusion == Inclusion::Skipped,
        Err(directive) => inclusion matches Inclusion::Failed(warning) && directive@
            == DirectiveView::Warning(warning),
    }
}

impl Import {
    /// Acts on the request, made in the file `parent`, once the file it
    /// names was looked for: `opened` holds the file, or `None` if it could
    /// not be found or read.
    ///
    /// Gives the file to enter, `Ok(None)` if the file was included before
    /// and is to be passed over in silence, or the warning to replay in
    /// `parent`.
    pub fn perform_import(
        self,
        parent: &Source,
        imported: &mut PathSet,
        sourced: &mut Vec<PathSet>,
        cmds: &mut Directory,
        opened: Option<Opened>,
    ) -> (result: Result<Option<Source>, Directive>)
        requires
            parent@.sourced < old(sourced)@.len(),
            parent@.cmd < old(cmds)@.len(),
        ensures
            ({
                let outcome = included(
                    self@,
                    parent@,
                    Registry {
                        imported: old(imported)@,
                        sourced: set_views(old(sourced)@),
                        cmds: old(cmds)@,
                    },
                    opened_view(opened),
                );
                &&& final(imported)@ == outcome.0.imported
                &&& set_views(final(sourced)@) == outcome.0.sourced
                &&& final(cmds)@ == outcome.0.cmds
                &&& is_inclusion(outcome.1, result)
            }),
            final(sourced)@.len() >= old(sourced)@.len(),
            final(cmds)@.len() >= old(cmds)@.len(),
            result matches Ok(Some(source)) ==> source@.sourced < final(sourced)@.len() && source@.cmd
                < final(cmds)@.len(),
    {
        let file = match opened {
            Some(file) => file,
            None => {
                return Err(
                    Directive::Warning(
                        concat("could not source/import/lines ", self.file.as_str()),
                    ),
                );
            },
        };
        match self.kind {
            ImportKind::Import => {
                if imported.contains(file.path.as_str()) {
                    return Ok(None);
                }
                imported.insert(file.path.as_str());
                let lineage = sourced.len();
                sourced.push(PathSet::new());
                assert(set_views(sourced@) =~= set_views(old(sourced)@).push(Set::empty()));
                let cmd = cmds.new_handle();
                Ok(
                    Some(
                        Source::new(
                            file.path.as_str(),
                            file.dir.as_str(),
                            file.text.as_str(),
                            cmd,
                            lineage,
                            false,
                        ),
                    ),
                )
            },
            ImportKind::Source => {
                let lineage = parent.sourced;
                if sourced[lineage].contains(file.path.as_str()) {
                    return Ok(None);
                }
                sourced[lineage].insert(file.path.as_str());
                assert(set_views(sourced@) =~= set_views(old(sourced)@).update(
                    lineage as int,
                    set_views(old(sourced)@)[lineage as int].insert(file.path@),
                ));
                Ok(
                    Some(
                        Source::new(
                            file.path.as_str(),
                            file.dir.as_str(),
                            file.text.as_str(),
                            parent.cmd,
                            lineage,
                            parent.is_root,
                        ),
                    ),
                )
            },
            ImportKind::Lines => {
                let lineage = sourced.len();
                sourced.push(PathSet::new());
                assert(set_views(sourced@) =~= set_views(old(sourced)@).push(Set::empty()));
                let mut source = Source::new(
                    file.path.as_str(),
                    file.dir.as_str(),
                    file.text.as_str(),
                    parent.cmd,
                    lineage,
                    false,
                );
                source.line_map = Some(LineMapNode::new(Mapper::SkipDirectives, None, true));
                assert(source@.line_map =~= seq![
                    ScopeView { mapper: MapperView::SkipDirectives, automatic: true },
                ]);
                Ok(Some(source))
            },
        }
    }
}

} // verus!
