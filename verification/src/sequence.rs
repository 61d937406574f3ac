//! Cross-expectation call ordering.  A [`Sequence`] issues [`SeqHandle`]s in
//! strictly increasing index order; expectations holding handles of one
//! sequence must be invoked in issuance order, even across different mocked
//! methods.
//!
//! The sequence's whole state is a plain value owned by the test: `level` is
//! the number of leading handles already satisfied.  Dispatch entry points
//! that must check ordering take the sequence by `&mut` reference, so a
//! handle is only meaningful together with the sequence that issued it.

use vstd::prelude::*;

verus! {

/// An ordering constraint shared by a group of expectations.
#[derive(Clone, Copy, Debug, PartialEq, Eq, Structural)]
pub struct Sequence {
    /// Index the next issued handle will carry.
    pub next_index: usize,
    /// Number of leading handles already satisfied: every handle with
    /// `index < level` belongs to an expectation that reached its lower
    /// call-count bound.
    pub level: usize,
}

/// The position of one expectation inside a [`Sequence`].
#[derive(Clone, Copy, Debug, PartialEq, Eq, Structural)]
pub struct SeqHandle {
    /// Issuance position, starting at zero.
    pub index: usize,
}

impl Sequence {
    /// A sequence with no handles issued and nothing satisfied.
    pub open spec fn origin() -> Sequence {
        Sequence { next_index: 0, level: 0 }
    }

    /// Every handle issued before `h` is satisfied, so an expectation
    /// holding `h` may be invoked.
    pub open spec fn spec_ready(self, h: SeqHandle) -> bool {
        self.level >= h.index
    }

    /// The sequence once the expectation holding `h` is satisfied: the
    /// satisfaction level never moves backwards.
    pub open spec fn spec_satisfy(self, h: SeqHandle) -> Sequence {
        let bumped: usize = if h.index == usize::MAX {
            usize::MAX
        } else {
            (h.index + 1) as usize
        };
        if self.level >= bumped {
            self
        } else {
            Sequence { level: bumped, ..self }
        }
    }

    /// A fresh sequence.
    pub fn new() -> (s: Sequence)
        ensures
            s == Sequence::origin(),
    {
        Sequence { next_index: 0, level: 0 }
    }

    /// Issue the next handle, with an index strictly above every handle
    /// issued before.
    pub fn next(&mut self) -> (h: SeqHandle)
        requires
            old(self).next_index < usize::MAX,
        ensures
            h.index == old(self).next_index,
            *final(self) == (Sequence { next_index: (old(self).next_index + 1) as usize, ..*old(self) }),
    {
        let h = SeqHandle { index: self.next_index };
        self.next_index = self.next_index + 1;
        h
    }

    /// Every handle issued before `h` is satisfied.
    pub fn ready(&self, h: &SeqHandle) -> (r: bool)
        ensures
            r == self.spec_ready(*h),
    {
        self.level >= h.index
    }

    /// Mark the expectation holding `h` satisfied.
    pub fn satisfy(&mut self, h: &SeqHandle)
        ensures
            *final(self) == old(self).spec_satisfy(*h),
    {
        let bumped: usize = if h.index == usize::MAX {
            usize::MAX
        } else {
            h.index + 1
        };
        if self.level < bumped {
            self.level = bumped;
        }
    }
}

} // verus!
