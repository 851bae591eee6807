//! Identifiers of messages and transactions.

use vstd::prelude::*;

verus! {

/// An identifier handed out by an [`IdSeq`]: the sequence of the star that made it
/// and a running index.
#[derive(Clone, Copy, Debug, PartialEq, Eq, Hash, Structural)]
pub struct Id {
    pub sequence: i64,
    pub index: i64,
}

impl Id {
    /// The identifier with the given sequence and index.
    pub fn new(sequence: i64, index: i64) -> (r: Self)
        ensures
            r == (Id { sequence, index }),
    {
        Id { sequence, index }
    }
}

/// The generator of identifiers that a star receives when it evolves: the
/// sequence that all its identifiers carry, and the index of the next one.
#[derive(Debug, PartialEq, Eq)]
pub struct IdSeq {
    pub sequence: i64,
    pub index: i64,
}

impl IdSeq {
    /// A generator for `sequence`, starting at index 0.
    pub fn new(sequence: i64) -> (r: Self)
        ensures
            r == (IdSeq { sequence, index: 0 }),
    {
        IdSeq { sequence, index: 0 }
    }

    /// The sequence of this generator.
    pub fn sequence(&self) -> (r: i64)
        ensures
            r == self.sequence,
    {
        self.sequence
    }

    /// The next identifier, or `None` once the indices are used up.
    pub fn next(&mut self) -> (r: Option<Id>)
        ensures
            old(self).index < i64::MAX ==> r == Some(
                Id { sequence: old(self).sequence, index: old(self).index },
            ) && *final(self) == (IdSeq {
                sequence: old(self).sequence,
                index: (old(self).index + 1) as i64,
            }),
            old(self).index == i64::MAX ==> r.is_none() && *final(self) == *old(self),
    {
        if self.index < i64::MAX {
            let id = Id { sequence: self.sequence, index: self.index };
            self.index = self.index + 1;
            Some(id)
        } else {
            None
        }
    }
}

} // verus!
