//! The states that a value went through, with a place among them to go
//! back and forth from.
use vstd::prelude::*;

verus! {

/// A list of states, oldest first, and the place of the current one.
#[derive(Debug)]
pub struct History<T> {
    pos: usize,
    history: Vec<T>,
}

impl<T> History<T> {
    /// The states, oldest first. There is at least one.
    pub closed spec fn states(&self) -> Seq<T> {
        self.history@
    }

    /// The place of the current state among the states.
    pub closed spec fn place(&self) -> nat {
        self.pos as nat
    }

    /// Whether the current state is one of the states.
    pub closed spec fn wf(&self) -> bool {
        self.pos < self.history@.len()
    }

    /// The history of the states `states`, at the newest of them. Without
    /// any states it holds `first` alone.
    pub fn from_states(states: Vec<T>, first: T) -> (history: Self)
        ensures
            history.wf(),
            history.states() == if states@.len() == 0 {
                seq![first]
            } else {
                states@
            },
            history.place() == history.states().len() - 1,
    {
        let mut history = states;
        if history.len() == 0 {
            history.push(first);
            assert(history@ =~= seq![first]);
        }
        History { pos: history.len() - 1, history }
    }

    /// Whether there is a state before the current one.
    pub fn has_past(&self) -> (has: bool)
        ensures
            has == (self.place() > 0),
    {
        self.pos > 0
    }

    /// Whether there is a state after the current one.
    pub fn has_future(&self) -> (has: bool)
        requires
            self.wf(),
        ensures
            has == (self.place() + 1 < self.states().len()),
    {
        self.pos < self.history.len() - 1
    }

    /// The current state.
    pub fn current(&self) -> (state: &T)
        requires
            self.wf(),
        ensures
            *state == self.states()[self.place() as int],
    {
        &self.history[self.pos]
    }

    /// Goes back one state, if there is one before the current one.
    pub fn undo(&mut self)
        requires
            old(self).wf(),
        ensures
            final(self).wf(),
            final(self).states() == old(self).states(),
            final(self).place() == if old(self).place() > 0 {
                old(self).place() - 1
            } else {
                0
            },
    {
        if self.has_past() {
            self.pos -= 1;
        }
    }

    /// Goes forth one state, if there is one after the current one.
    pub fn redo(&mut self)
        requires
            old(self).wf(),
        ensures
            final(self).wf(),
            final(self).states() == old(self).states(),
            final(self).place() == if old(self).place() + 1 < old(self).states().len() {
                old(self).place() + 1
            } else {
                old(self).place()
            },
    {
        if self.pos < self.history.len() - 1 {
            self.pos += 1;
        }
    }

    /// Goes back to the oldest state.
    pub fn soft_reset(&mut self)
        requires
            old(self).wf(),
        ensures
            final(self).wf(),
            final(self).states() == old(self).states(),
            final(self).place() == 0,
    {
        self.pos = 0;
    }

    /// Makes `content` the current state: the states after the current one
    /// are forgotten and `content` comes after it.
    pub fn push(&mut self, content: T) -> (this: &mut Self)
        requires
            old(self).wf(),
        ensures
            this.wf(),
            this.states() == old(self).states().subrange(0, old(self).place() as int + 1).push(content),
            this.place() == old(self).place() + 1,
            *final(self) == *final(this),
    {
        if self.pos < self.history.len() - 1 {
            self.history.truncate(self.pos + 1);
        }
        self.history.push(content);
        self.pos = self.history.len() - 1;
        self
    }
}

} // verus!
