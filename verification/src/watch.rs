//! The state that collects warnings between a `watch` and the `then` or
//! `else` that follows it.
use crate::text::texts;
use vstd::prelude::*;

verus! {

/// Whether warnings are being collected, and those collected so far.
#[derive(Debug)]
pub enum Watch {
    /// Warnings are collected in place of being shown.
    Watching { occured: Vec<String> },
    /// Warnings are shown.
    Sleeping,
}

impl View for Watch {
    /// The warnings collected so far, oldest first; `None` while sleeping.
    type V = Option<Seq<Seq<char>>>;

    open spec fn view(&self) -> Option<Seq<Seq<char>>> {
        match self {
            Watch::Watching { occured } => Some(texts(occured@)),
            Watch::Sleeping => None,
        }
    }
}

impl Default for Watch {
    fn default() -> (watch: Watch)
        ensures
            watch@ is None,
    {
        Watch::Sleeping
    }
}

impl Watch {
    /// Starts collecting, with nothing collected yet. Does nothing while
    /// already watching.
    pub fn watch(&mut self)
        ensures
            final(self)@ == match old(self)@ {
                Some(occured) => Some(occured),
                None => Some(Seq::empty()),
            },
    {
        if self.is_sleeping() {
            *self = Watch::Watching { occured: Vec::new() };
            assert(self@->0 =~= Seq::empty());
        }
    }

    /// Stops collecting and forgets what was collected.
    pub fn sleep(&mut self)
        ensures
            final(self)@ is None,
    {
        if self.is_watching() {
            *self = Watch::Sleeping;
        }
    }

    /// Whether warnings are shown.
    pub fn is_sleeping(&self) -> (sleeping: bool)
        ensures
            sleeping == (self@ is None),
    {
        match self {
            Watch::Sleeping => true,
            _ => false,
        }
    }

    /// Whether warnings are collected.
    pub fn is_watching(&self) -> (watching: bool)
        ensures
            watching == (self@ is Some),
    {
        match self {
            Watch::Watching { .. } => true,
            _ => false,
        }
    }

    /// Collects `warning` if watching, and says whether it did.
    pub fn record(&mut self, warning: &str) -> (recorded: bool)
        ensures
            recorded == (old(self)@ is Some),
            final(self)@ == match old(self)@ {
                Some(occured) => Some(occured.push(warning@)),
                None => None,
            },
    {
        match self {
            Watch::Watching { occured } => {
                occured.push(warning.to_owned());
                assert(texts(occured@) =~= texts(old(self)->occured@).push(warning@));
                true
            },
            Watch::Sleeping => false,
        }
    }

    /// Stops collecting and hands over what was collected; `None` if it was
    /// sleeping.
    pub fn take(&mut self) -> (occured: Option<Vec<String>>)
        ensures
            final(self)@ is None,
            match occured {
                Some(list) => old(self)@ == Some(texts(list@)),
                None => old(self)@ is None,
            },
    {
        let mut taken = Watch::Sleeping;
        std::mem::swap(self, &mut taken);
        match taken {
            Watch::Watching { occured } => Some(occured),
            Watch::Sleeping => None,
        }
    }
}

} // verus!
