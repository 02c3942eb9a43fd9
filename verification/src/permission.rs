//! Permission facade: a session carries a set of named rights, and workers
//! gate access during `prepare` by testing a requirement against that set.
//! The contract is "reject early, before any item is emitted".

use vstd::prelude::*;

verus! {

/// The set of named permissions granted to one session.
#[derive(Clone, Debug)]
pub struct Rights {
    granted: Vec<String>,
}

impl View for Rights {
    type V = Seq<Seq<char>>;

    closed spec fn view(&self) -> Seq<Seq<char>> {
        self.granted.deep_view()
    }
}

impl Rights {
    /// A session with no rights granted.
    pub fn new() -> (r: Rights)
        ensures
            r@ == Seq::<Seq<char>>::empty(),
    {
        Rights { granted: Vec::new() }
    }

    /// Grant one named right.
    pub fn grant(&mut self, name: String)
        ensures
            final(self)@ == old(self)@.push(name@),
    {
        self.granted.push(name);
    }

    /// Whether the named right was granted.
    pub fn has(&self, name: &String) -> (r: bool)
        ensures
            r == self@.contains(name@),
    {
        let mut i: usize = 0;
        while i < self.granted.len()
            invariant
                i <= self.granted.len(),
                forall|j: int| 0 <= j < i ==> self@[j] != name@,
                self@.len() == self.granted.len(),
                forall|j: int| 0 <= j < self.granted.len() ==> self@[j] == self.granted[j]@,
            decreases self.granted.len() - i,
        {
            let entry: &String = &self.granted[i];
            if entry.eq(name) {
                proof {
                    assert(self@[i as int] == self.granted@[i as int]@);
                }
                return true;
            }
            proof {
                assert(self@[i as int] == self.granted@[i as int]@);
            }
            i = i + 1;
        }
        false
    }
}

/// A requirement that a worker may demand of a session's rights during
/// `prepare`. Implementations decide what satisfaction means.
pub trait Require {
    /// Whether the given rights satisfy this requirement.
    fn require(&self, rights: &Rights) -> bool;
}

/// The plainest requirement: one named right must have been granted.
pub struct NamedRight {
    pub name: String,
}

impl Require for NamedRight {
    /// Satisfied exactly when the named right was granted.
    fn require(&self, rights: &Rights) -> (r: bool)
        ensures
            r == rights@.contains(self.name@),
    {
        rights.has(&self.name)
    }
}

} // verus!
