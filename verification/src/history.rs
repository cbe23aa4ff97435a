//! The live-mode trace: a fixed-capacity ring of the most recent values.
//!
//! The ring is always full — it starts filled with the initial value and
//! every push evicts the oldest entry — so the trace renderer can rely on a
//! constant length. Entries are ordered newest first.

use crate::fixed::Fx;
use vstd::prelude::*;

verus! {

/// A fixed-capacity ring of the most recent scalars, newest first.
pub struct History {
    buf: Vec<Fx>,
}

impl History {
    /// The entries, newest first.
    pub closed spec fn entries(&self) -> Seq<Fx> {
        self.buf@
    }

    /// Builds a ring of capacity `cap`, filled with `fill`.
    pub fn new(cap: usize, fill: Fx) -> (r: History)
        requires
            cap >= 1,
        ensures
            r.entries().len() == cap,
            forall|i: int| 0 <= i < cap ==> r.entries()[i] == fill,
    {
        let mut buf: Vec<Fx> = Vec::new();
        let mut i: usize = 0;
        while i < cap
            invariant
                i <= cap,
                buf@.len() == i,
                forall|j: int| 0 <= j < i ==> buf@[j] == fill,
            decreases cap - i,
        {
            buf.push(fill);
            i = i + 1;
        }
        History { buf }
    }

    /// Pushes the newest value, evicting the oldest: the ring keeps its
    /// length, `v` stands first, and every older entry moves back one slot
    /// (the last falls off).
    pub fn push(&mut self, v: Fx)
        requires
            old(self).entries().len() >= 1,
        ensures
            final(self).entries().len() == old(self).entries().len(),
            final(self).entries()[0] == v,
            forall|i: int|
                1 <= i < final(self).entries().len() ==> final(self).entries()[i] == old(
                    self,
                ).entries()[i - 1],
    {
        let n: usize = self.buf.len();
        let mut nb: Vec<Fx> = Vec::new();
        nb.push(v);
        let mut i: usize = 0;
        while i < n - 1
            invariant
                i <= n - 1,
                n == self.buf@.len(),
                self.buf@ == old(self).buf@,
                nb@.len() == i + 1,
                nb@[0] == v,
                forall|j: int| 1 <= j <= i ==> nb@[j] == self.buf@[j - 1],
            decreases n - 1 - i,
        {
            let e: Fx = self.buf[i];
            nb.push(e);
            i = i + 1;
        }
        self.buf = nb;
    }

    /// How many entries the ring holds (its capacity: it is always full).
    pub fn len(&self) -> (n: usize)
        ensures
            n == self.entries().len(),
    {
        self.buf.len()
    }

    /// The entry `i` slots back from the newest.
    pub fn get(&self, i: usize) -> (r: Fx)
        requires
            i < self.entries().len(),
        ensures
            r == self.entries()[i as int],
    {
        self.buf[i]
    }

    /// A borrow of the whole trace, newest first, for rendering.
    pub fn values(&self) -> (r: &Vec<Fx>)
        ensures
            r@ == self.entries(),
    {
        &self.buf
    }
}

} // verus!
