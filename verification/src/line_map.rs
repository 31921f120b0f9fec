//! Scopes that rewrite directives, and the chain of the scopes that are open.
use crate::directive::{lemma_view_multiple, views, Directive, DirectiveView};
use crate::text::texts;
use std::rc::Rc;
use vstd::prelude::*;

verus! {

/// A rule that rewrites each directive that passes a scope.
pub trait LineMap {
    /// What `line` becomes in this scope, `depth` scopes away from the
    /// innermost one.
    spec fn mapped(&self, line: DirectiveView, depth: nat) -> DirectiveView;

    /// The name of the rule.
    spec fn label(&self) -> Seq<char>;

    /// Rewrites `line`; `depth` is the distance of this scope from the
    /// innermost one.
    fn map(&self, line: Directive, depth: usize) -> (mapped: Directive)
        ensures
            mapped@ == self.mapped(line@, depth as nat),
    ;

    /// The name of the rule.
    fn name(&self) -> (name: &'static str)
        ensures
            name@ == self.label(),
    ;
}

/// One `Warning` for each text of `warnings`, in order.
pub open spec fn warnings_of(warnings: Seq<Seq<char>>) -> Seq<DirectiveView> {
    Seq::new(warnings.len(), |i: int| DirectiveView::Warning(warnings[i]))
}

/// What a directive becomes in a scope that drops warnings.
pub open spec fn ignore_warnings_spec(line: DirectiveView) -> DirectiveView {
    match line {
        DirectiveView::Warning(_) => DirectiveView::Noop,
        other => other,
    }
}

/// What a directive becomes in a scope that drops literal text.
pub open spec fn ignore_text_spec(line: DirectiveView) -> DirectiveView {
    match line {
        DirectiveView::Text(_) => DirectiveView::Noop,
        other => other,
    }
}

/// What a directive becomes in a file of which only the lines count.
pub open spec fn skip_directives_spec(line: DirectiveView) -> DirectiveView {
    match line {
        DirectiveView::Close => line,
        DirectiveView::Empty => line,
        DirectiveView::Text(_) => line,
        _ => DirectiveView::Noop,
    }
}

/// What a directive becomes in a block that is skipped: the end of the file
/// and the end of the block itself still pass.
pub open spec fn suppressed(line: DirectiveView, depth: nat) -> DirectiveView {
    match line {
        DirectiveView::Close => line,
        DirectiveView::EndMap { .. } => if depth == 0 {
            line
        } else {
            DirectiveView::Noop
        },
        _ => DirectiveView::Noop,
    }
}

/// What a directive becomes in the block after `then`, given the warnings
/// that were collected before it.
pub open spec fn then_spec(
    warnings: Seq<Seq<char>>,
    line: DirectiveView,
    depth: nat,
) -> DirectiveView {
    if warnings.len() == 0 {
        line
    } else if line is Else {
        DirectiveView::Multiple(
            seq![DirectiveView::EndMap { automatic: false }, DirectiveView::Watch] + warnings_of(
                warnings,
            ) + seq![DirectiveView::Else],
        )
    } else {
        suppressed(line, depth)
    }
}

/// What a directive becomes in the block after `else`, given the warnings
/// that were collected before it.
pub open spec fn else_spec(
    warnings: Seq<Seq<char>>,
    line: DirectiveView,
    depth: nat,
) -> DirectiveView {
    if warnings.len() == 0 {
        suppressed(line, depth)
    } else if line is DisplayWarnings {
        DirectiveView::Multiple(warnings_of(warnings))
    } else {
        line
    }
}

/// Drops warnings.
pub fn ignore_warnings(line: Directive) -> (mapped: Directive)
    ensures
        mapped@ == ignore_warnings_spec(line@),
{
    match line {
        Directive::Warning(_) => Directive::Noop,
        other => other,
    }
}

/// Drops literal text.
pub fn ignore_text(line: Directive) -> (mapped: Directive)
    ensures
        mapped@ == ignore_text_spec(line@),
{
    match line {
        Directive::Text(_) => Directive::Noop,
        other => other,
    }
}

/// Drops all but literal text, blank lines and the end of the file.
pub fn skip_directives(line: Directive) -> (mapped: Directive)
    ensures
        mapped@ == skip_directives_spec(line@),
{
    match line {
        Directive::Close => Directive::Close,
        Directive::Empty => Directive::Empty,
        Directive::Text(text) => Directive::Text(text),
        _ => Directive::Noop,
    }
}

/// Lets the directive through unchanged.
pub fn directive_debug(line: Directive) -> (mapped: Directive)
    ensures
        mapped@ == line@,
{
    line
}

/// Drops all but the end of the file and, in the innermost scope, the end of
/// the scope.
fn suppress(line: Directive, depth: usize) -> (mapped: Directive)
    ensures
        mapped@ == suppressed(line@, depth as nat),
{
    match line {
        Directive::Close => Directive::Close,
        Directive::EndMap { automatic } => if depth == 0 {
            Directive::EndMap { automatic }
        } else {
            Directive::Noop
        },
        _ => Directive::Noop,
    }
}

/// Appends one `Warning` for each text of `warnings` to `list`.
fn push_warnings(list: &mut Vec<Directive>, warnings: &Vec<String>)
    ensures
        views(final(list)@) == views(old(list)@) + warnings_of(texts(warnings@)),
{
    let mut i: usize = 0;
    while i < warnings.len()
        invariant
            i <= warnings.len(),
            list.len() == old(list).len() + i,
            forall|j: int| 0 <= j < old(list).len() ==> list@[j] == old(list)@[j],
            forall|j: int| 0 <= j < i ==> (#[trigger] list@[old(list).len() + j])@
                == DirectiveView::Warning(warnings@[j]@),
        decreases warnings.len() - i,
    {
        list.push(Directive::Warning(warnings[i].clone()));
        i += 1;
    }
    assert(views(list@) =~= views(old(list)@) + warnings_of(texts(warnings@))) by {
        assert forall|k: int| 0 <= k < list.len() implies views(list@)[k] == (views(old(list)@)
            + warnings_of(texts(warnings@)))[k] by {
            if k >= old(list).len() {
                let j = k - old(list).len();
                assert(list@[old(list).len() + j]@ == DirectiveView::Warning(warnings@[j]@));
            }
        }
    }
}

/// The block after `then`: it runs if no warning was collected.
#[derive(Debug)]
pub struct Then {
    warnings: Vec<String>,
}

impl View for Then {
    /// The warnings that were collected before the block.
    type V = Seq<Seq<char>>;

    closed spec fn view(&self) -> Seq<Seq<char>> {
        texts(self.warnings@)
    }
}

impl Then {
    /// The block that follows a watch in which `warnings` were collected.
    pub fn new(warnings: Vec<String>) -> (block: Then)
        ensures
            block@ == texts(warnings@),
    {
        Then { warnings }
    }
}

impl LineMap for Then {
    open spec fn mapped(&self, line: DirectiveView, depth: nat) -> DirectiveView {
        then_spec(self@, line, depth)
    }

    open spec fn label(&self) -> Seq<char> {
        "Then"@
    }

    fn map(&self, line: Directive, depth: usize) -> (mapped: Directive) {
        if self.warnings.len() == 0 {
            line
        } else {
            match line {
                Directive::Else => {
                    let mut list: Vec<Directive> = Vec::new();
                    list.push(Directive::EndMap { automatic: false });
                    list.push(Directive::Watch);
                    assert(views(list@) =~= seq![
                        DirectiveView::EndMap { automatic: false },
                        DirectiveView::Watch,
                    ]);
                    push_warnings(&mut list, &self.warnings);
                    let ghost before = list@;
                    list.push(Directive::Else);
                    assert(views(list@) =~= views(before) + seq![DirectiveView::Else]);
                    proof {
                        lemma_view_multiple(list);
                    }
                    Directive::Multiple(list)
                },
                other => suppress(other, depth),
            }
        }
    }

    fn name(&self) -> (name: &'static str) {
        "Then"
    }
}

/// The block after `else`: it runs if a warning was collected.
#[derive(Debug)]
pub struct Else {
    warnings: Vec<String>,
}

impl View for Else {
    /// The warnings that were collected before the block.
    type V = Seq<Seq<char>>;

    closed spec fn view(&self) -> Seq<Seq<char>> {
        texts(self.warnings@)
    }
}

impl Else {
    /// The block that follows a watch in which `warnings` were collected.
    pub fn new(warnings: Vec<String>) -> (block: Else)
        ensures
            block@ == texts(warnings@),
    {
        Else { warnings }
    }
}

impl LineMap for Else {
    open spec fn mapped(&self, line: DirectiveView, depth: nat) -> DirectiveView {
        else_spec(self@, line, depth)
    }

    open spec fn label(&self) -> Seq<char> {
        "Else"@
    }

    fn map(&self, line: Directive, depth: usize) -> (mapped: Directive) {
        if self.warnings.len() == 0 {
            suppress(line, depth)
        } else {
            match line {
                Directive::DisplayWarnings => {
                    let mut list: Vec<Directive> = Vec::new();
                    assert(views(list@) =~= Seq::empty());
                    push_warnings(&mut list, &self.warnings);
                    assert(views(list@) =~= warnings_of(self@));
                    proof {
                        lemma_view_multiple(list);
                    }
                    Directive::Multiple(list)
                },
                other => other,
            }
        }
    }

    fn name(&self) -> (name: &'static str) {
        "Else"
    }
}

/// The rule of a scope.
#[derive(Debug)]
pub enum Mapper {
    /// Drops warnings.
    IgnoreWarnings,
    /// Drops literal text.
    IgnoreText,
    /// Drops all but literal text, blank lines and the end of the file.
    SkipDirectives,
    /// The block after `then`.
    Then(Then),
    /// The block after `else`.
    Else(Else),
    /// Lets every directive through unchanged.
    Debug,
}

/// A [`Mapper`] as a mathematical value.
pub ghost enum MapperView {
    IgnoreWarnings,
    IgnoreText,
    SkipDirectives,
    Then(Seq<Seq<char>>),
    Else(Seq<Seq<char>>),
    Debug,
}

impl MapperView {
    /// What `line` becomes in a scope with this rule, `depth` scopes away
    /// from the innermost one.
    pub open spec fn mapped(self, line: DirectiveView, depth: nat) -> DirectiveView {
        match self {
            MapperView::IgnoreWarnings => ignore_warnings_spec(line),
            MapperView::IgnoreText => ignore_text_spec(line),
            MapperView::SkipDirectives => skip_directives_spec(line),
            MapperView::Then(warnings) => then_spec(warnings, line, depth),
            MapperView::Else(warnings) => else_spec(warnings, line, depth),
            MapperView::Debug => line,
        }
    }

    /// Of `depth`, a rule reads only whether it is zero.
    pub proof fn lemma_depth(self, line: DirectiveView, a: nat, b: nat)
        requires
            (a == 0) == (b == 0),
        ensures
            self.mapped(line, a) == self.mapped(line, b),
    {
    }
}

impl View for Mapper {
    type V = MapperView;

    open spec fn view(&self) -> MapperView {
        match self {
            Mapper::IgnoreWarnings => MapperView::IgnoreWarnings,
            Mapper::IgnoreText => MapperView::IgnoreText,
            Mapper::SkipDirectives => MapperView::SkipDirectives,
            Mapper::Then(block) => MapperView::Then(block@),
            Mapper::Else(block) => MapperView::Else(block@),
            Mapper::Debug => MapperView::Debug,
        }
    }
}

impl LineMap for Mapper {
    open spec fn mapped(&self, line: DirectiveView, depth: nat) -> DirectiveView {
        self@.mapped(line, depth)
    }

    open spec fn label(&self) -> Seq<char> {
        match self {
            Mapper::IgnoreWarnings => "ignore_warnings"@,
            Mapper::IgnoreText => "ignore_text"@,
            Mapper::SkipDirectives => "skip_directives"@,
            Mapper::Then(block) => block.label(),
            Mapper::Else(block) => block.label(),
            Mapper::Debug => "directive_debug"@,
        }
    }

    fn map(&self, line: Directive, depth: usize) -> (mapped: Directive) {
        match self {
            Mapper::IgnoreWarnings => ignore_warnings(line),
            Mapper::IgnoreText => ignore_text(line),
            Mapper::SkipDirectives => skip_directives(line),
            Mapper::Then(block) => block.map(line, depth),
            Mapper::Else(block) => block.map(line, depth),
            Mapper::Debug => directive_debug(line),
        }
    }

    fn name(&self) -> (name: &'static str) {
        match self {
            Mapper::IgnoreWarnings => "ignore_warnings",
            Mapper::IgnoreText => "ignore_text",
            Mapper::SkipDirectives => "skip_directives",
            Mapper::Then(block) => block.name(),
            Mapper::Else(block) => block.name(),
            Mapper::Debug => "directive_debug",
        }
    }
}

/// One open scope, as a mathematical value.
pub ghost struct ScopeView {
    pub mapper: MapperView,
    /// Whether the scope is closed by the end of its file and not by `end`.
    pub automatic: bool,
}

/// What `line` becomes after passing the scopes of `chain`, innermost
/// first; the first of them is `depth` scopes away from the innermost one.
pub open spec fn apply_chain(chain: Seq<ScopeView>, line: DirectiveView, depth: nat) -> DirectiveView
    decreases chain.len(),
{
    if chain.len() == 0 {
        line
    } else {
        apply_chain(chain.drop_first(), chain[0].mapper.mapped(line, depth), depth + 1)
    }
}

struct Node {
    prev: Option<Rc<Node>>,
    line_map: Mapper,
    automatic: bool,
}

impl Node {
    spec fn scopes(&self) -> Seq<ScopeView>
        decreases self,
    {
        let first = ScopeView { mapper: self.line_map@, automatic: self.automatic };
        match self.prev {
            Some(prev) => seq![first] + prev.scopes(),
            None => seq![first],
        }
    }

    proof fn lemma_scopes(&self)
        ensures
            self.scopes().len() >= 1,
            self.scopes()[0] == (ScopeView { mapper: self.line_map@, automatic: self.automatic }),
            self.scopes().drop_first() == match self.prev {
                Some(prev) => prev.scopes(),
                None => Seq::empty(),
            },
    {
        match self.prev {
            Some(prev) => {
                assert(self.scopes().drop_first() =~= prev.scopes());
            },
            None => {
                assert(self.scopes().drop_first() =~= Seq::empty());
            },
        }
    }
}

/// `Rc::clone` makes another pointer to the same node.
#[verifier::external_body]
fn share(node: &Rc<Node>) -> (shared: Rc<Node>)
    ensures
        shared == *node,
{
    Rc::clone(node)
}

/// The innermost open scope, with the scopes around it. Nodes are shared
/// and never change: closing a scope means going on with the node before it.
pub struct LineMapNode {
    this: Rc<Node>,
}

impl View for LineMapNode {
    /// The open scopes, innermost first. There is at least one.
    type V = Seq<ScopeView>;

    closed spec fn view(&self) -> Seq<ScopeView> {
        self.this.scopes()
    }
}

impl Clone for LineMapNode {
    fn clone(&self) -> (copy: LineMapNode)
        ensures
            copy@ == self@,
    {
        LineMapNode { this: share(&self.this) }
    }
}

impl LineMapNode {
    /// Opens a scope with the rule `line_map` inside the scopes of `prev`.
    pub fn new(line_map: Mapper, prev: Option<LineMapNode>, automatic: bool) -> (node: LineMapNode)
        ensures
            node@ == seq![ScopeView { mapper: line_map@, automatic }] + scopes_of(prev),
    {
        let prev = match prev {
            Some(prev) => Some(prev.this),
            None => None,
        };
        let node = LineMapNode { this: Rc::new(Node { prev, line_map, automatic }) };
        assert(node@ =~= seq![ScopeView { mapper: line_map@, automatic }] + scopes_of(prev_of(node)))
            by {
            node.this.lemma_scopes();
        }
        node
    }

    /// The scopes around the innermost one, if there are any.
    pub fn prev(&self) -> (prev: Option<LineMapNode>)
        ensures
            prev is Some <==> self@.len() > 1,
            scopes_of(prev) == self@.drop_first(),
    {
        proof {
            self.this.lemma_scopes();
        }
        match &self.this.prev {
            Some(prev) => {
                proof {
                    prev.lemma_scopes();
                }
                Some(LineMapNode { this: share(prev) })
            },
            None => None,
        }
    }

    /// Whether the innermost scope is closed by the end of its file and not
    /// by `end`.
    pub fn automatic(&self) -> (automatic: bool)
        ensures
            self@.len() >= 1,
            automatic == self@[0].automatic,
    {
        proof {
            self.this.lemma_scopes();
        }
        self.this.automatic
    }

    /// The name of the rule of the innermost scope.
    pub fn name(&self) -> (name: &'static str)
        ensures
            name@ == self.spec_label(),
    {
        self.this.line_map.name()
    }

    /// The name of the rule of the innermost scope.
    pub closed spec fn spec_label(&self) -> Seq<char> {
        self.this.line_map.label()
    }

    /// Passes `line` through every open scope, from the innermost one out.
    pub fn apply(&self, line: Directive) -> (mapped: Directive)
        ensures
            mapped@ == apply_chain(self@, line@, 0),
    {
        let ghost given = line@;
        let mut node: &Node = &self.this;
        let mut current = line;
        let mut depth: usize = 0;
        let ghost mut passed: nat = 0;
        loop
            invariant
                given == line@,
                (depth == 0) == (passed == 0),
                apply_chain(self@, given, 0) == apply_chain(node.scopes(), current@, passed),
            decreases node.scopes().len(),
        {
            proof {
                node.lemma_scopes();
                node.line_map@.lemma_depth(current@, depth as nat, passed);
            }
            let ghost before = current@;
            current = node.line_map.map(current, depth);
            if depth < usize::MAX {
                depth += 1;
            }
            proof {
                assert(apply_chain(node.scopes(), before, passed) == apply_chain(
                    node.scopes().drop_first(),
                    current@,
                    passed + 1,
                ));
                passed = passed + 1;
            }
            match &node.prev {
                Some(prev) => {
                    proof {
                        prev.lemma_scopes();
                    }
                    node = &**prev;
                },
                None => {
                    assert(apply_chain(node.scopes().drop_first(), current@, passed) == current@);
                    return current;
                },
            }
        }
    }

    /// The scopes from the innermost one out, one node at a time.
    pub fn iter(&self) -> (iter: Iter)
        ensures
            iter@ == self@,
    {
        Iter(Some(self.clone()))
    }
}

/// The scopes of `node`, innermost first; none for `None`.
pub open spec fn scopes_of(node: Option<LineMapNode>) -> Seq<ScopeView> {
    match node {
        Some(node) => node@,
        None => Seq::empty(),
    }
}

spec fn prev_of(node: LineMapNode) -> Option<LineMapNode> {
    match node.this.prev {
        Some(prev) => Some(LineMapNode { this: prev }),
        None => None,
    }
}

/// Walks a chain of scopes from the innermost one out.
pub struct Iter(Option<LineMapNode>);

impl View for Iter {
    /// The scopes still to come, innermost first.
    type V = Seq<ScopeView>;

    closed spec fn view(&self) -> Seq<ScopeView> {
        scopes_of(self.0)
    }
}

impl Iter {
    /// The next node: the chain that starts at the next scope.
    pub fn next(&mut self) -> (node: Option<LineMapNode>)
        ensures
            match node {
                Some(node) => node@ == old(self)@ && final(self)@ == old(self)@.drop_first(),
                None => old(self)@.len() == 0 && final(self)@.len() == 0,
            },
    {
        let mut current: Option<LineMapNode> = None;
        std::mem::swap(&mut self.0, &mut current);
        match current {
            Some(node) => {
                proof {
                    node.this.lemma_scopes();
                }
                self.0 = node.prev();
                Some(node)
            },
            None => None,
        }
    }
}

} // verus!
