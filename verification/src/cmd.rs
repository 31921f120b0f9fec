//! The command template: the arguments that go before and after a line's
//! text when the line is run.
use crate::text::{clone_strings, texts};
use vstd::prelude::*;

verus! {

/// The arguments that surround a line's text.
#[derive(Debug)]
pub struct Cmd {
    pre: Vec<String>,
    suf: Vec<String>,
}

/// A [`Cmd`] as a mathematical value.
pub ghost struct CmdView {
    pub prefix: Seq<Seq<char>>,
    pub suffix: Seq<Seq<char>>,
}

impl CmdView {
    /// The template that was never written to.
    pub open spec fn empty() -> CmdView {
        CmdView { prefix: Seq::empty(), suffix: Seq::empty() }
    }

    /// This template with `arg` appended to its prefix.
    pub open spec fn pre(self, arg: Seq<char>) -> CmdView {
        CmdView { prefix: self.prefix.push(arg), suffix: self.suffix }
    }

    /// This template with `arg` appended to its suffix.
    pub open spec fn suf(self, arg: Seq<char>) -> CmdView {
        CmdView { prefix: self.prefix, suffix: self.suffix.push(arg) }
    }

    /// The argument list for the parameters `params`: the program comes
    /// first.
    pub open spec fn arguments(self, params: Seq<Seq<char>>) -> Seq<Seq<char>> {
        self.prefix + params + self.suffix
    }
}

impl View for Cmd {
    type V = CmdView;

    closed spec fn view(&self) -> CmdView {
        CmdView { prefix: texts(self.pre@), suffix: texts(self.suf@) }
    }
}

impl Clone for Cmd {
    fn clone(&self) -> (copy: Cmd)
        ensures
            copy@ == self@,
    {
        Cmd { pre: clone_strings(&self.pre), suf: clone_strings(&self.suf) }
    }
}

impl Default for Cmd {
    fn default() -> (cmd: Cmd)
        ensures
            cmd@ == CmdView::empty(),
    {
        Cmd::new()
    }
}

impl Cmd {
    /// The empty template.
    pub fn new() -> (cmd: Cmd)
        ensures
            cmd@ == CmdView::empty(),
    {
        let cmd = Cmd { pre: Vec::new(), suf: Vec::new() };
        assert(cmd@.prefix =~= Seq::empty());
        assert(cmd@.suffix =~= Seq::empty());
        cmd
    }

    /// Appends an argument that goes before the line's text, and hands the
    /// template back for more.
    pub fn pre(&mut self, arg: &str) -> (this: &mut Self)
        ensures
            this@ == old(self)@.pre(arg@),
            *final(self) == *final(this),
    {
        self.pre.push(arg.to_owned());
        assert(self@.prefix =~= old(self)@.prefix.push(arg@));
        self
    }

    /// Appends an argument that goes after the line's text, and hands the
    /// template back for more.
    pub fn suf(&mut self, arg: &str) -> (this: &mut Self)
        ensures
            this@ == old(self)@.suf(arg@),
            *final(self) == *final(this),
    {
        self.suf.push(arg.to_owned());
        assert(self@.suffix =~= old(self)@.suffix.push(arg@));
        self
    }

    /// The arguments that go before the line's text.
    pub fn prefix(&self) -> (list: &Vec<String>)
        ensures
            texts(list@) == self@.prefix,
    {
        &self.pre
    }

    /// The arguments that go after the line's text.
    pub fn suffix(&self) -> (list: &Vec<String>)
        ensures
            texts(list@) == self@.suffix,
    {
        &self.suf
    }

    /// Whether the template was never written to.
    pub fn is_empty(&self) -> (empty: bool)
        ensures
            empty == (self@ == CmdView::empty()),
    {
        let empty = self.suf.is_empty() && self.pre.is_empty();
        proof {
            if empty {
                assert(self@.prefix =~= Seq::empty());
                assert(self@.suffix =~= Seq::empty());
            } else {
                assert(self@.prefix.len() > 0 || self@.suffix.len() > 0);
            }
        }
        empty
    }

    /// The argument list that runs this template on `params`: the prefix,
    /// the parameters, the suffix. Its first item, if it has one, is the
    /// program.
    pub fn arguments(&self, params: &Vec<String>) -> (args: Vec<String>)
        ensures
            texts(args@) == self@.arguments(texts(params@)),
    {
        let mut args = clone_strings(&self.pre);
        let mut middle = clone_strings(params);
        let mut end = clone_strings(&self.suf);
        let ghost a = args@;
        let ghost m = middle@;
        let ghost e = end@;
        args.append(&mut middle);
        args.append(&mut end);
        assert(args@ == a + m + e);
        assert(texts(args@) =~= texts(a) + texts(m) + texts(e));
        args
    }
}

/// The place of a command template in a [`Directory`].
#[derive(Debug, Clone, Copy, PartialEq, Eq, Structural)]
pub struct Handle(usize);

impl View for Handle {
    /// The index of the template.
    type V = nat;

    closed spec fn view(&self) -> nat {
        self.0 as nat
    }
}

/// The command templates of one run. Contexts that share a template hold
/// the same handle; a context detaches by taking a new handle.
#[derive(Debug)]
pub struct Directory {
    cmds: Vec<Cmd>,
}

/// What a list of templates holds.
pub open spec fn cmd_views(cmds: Seq<Cmd>) -> Seq<CmdView> {
    Seq::new(cmds.len(), |i: int| cmds[i]@)
}

impl View for Directory {
    /// The templates, by handle.
    type V = Seq<CmdView>;

    closed spec fn view(&self) -> Seq<CmdView> {
        cmd_views(self.cmds@)
    }
}

impl Directory {
    /// A directory without templates.
    pub fn new() -> (directory: Directory)
        ensures
            directory@ == Seq::<CmdView>::empty(),
    {
        let directory = Directory { cmds: Vec::new() };
        assert(directory@ =~= Seq::empty());
        directory
    }

    /// Adds an empty template and gives its handle.
    pub fn new_handle(&mut self) -> (handle: Handle)
        ensures
            handle@ == old(self)@.len(),
            final(self)@ == old(self)@.push(CmdView::empty()),
    {
        let handle = Handle(self.cmds.len());
        self.cmds.push(Cmd::new());
        assert(self@ =~= old(self)@.push(CmdView::empty()));
        handle
    }

    /// Whether `handle` is one of this directory.
    pub fn holds(&self, handle: Handle) -> (held: bool)
        ensures
            held == (handle@ < self@.len()),
    {
        handle.0 < self.cmds.len()
    }

    /// Appends an argument to the prefix of the template at `handle`.
    pub fn pre(&mut self, handle: Handle, arg: &str)
        requires
            handle@ < old(self)@.len(),
        ensures
            final(self)@ == old(self)@.update(handle@ as int, old(self)@[handle@ as int].pre(arg@)),
    {
        self.cmds[handle.0].pre(arg);
        assert(self@ =~= old(self)@.update(handle@ as int, old(self)@[handle@ as int].pre(arg@)));
    }

    /// Appends an argument to the suffix of the template at `handle`.
    pub fn suf(&mut self, handle: Handle, arg: &str)
        requires
            handle@ < old(self)@.len(),
        ensures
            final(self)@ == old(self)@.update(handle@ as int, old(self)@[handle@ as int].suf(arg@)),
    {
        self.cmds[handle.0].suf(arg);
        assert(self@ =~= old(self)@.update(handle@ as int, old(self)@[handle@ as int].suf(arg@)));
    }

    /// A copy of the template at `handle` as it is now.
    pub fn snapshot(&self, handle: Handle) -> (cmd: Cmd)
        requires
            handle@ < self@.len(),
        ensures
            cmd@ == self@[handle@ as int],
    {
        self.cmds[handle.0].clone()
    }
}

} // verus!
