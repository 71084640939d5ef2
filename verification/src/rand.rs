//! Where unpredictable bytes come from.
//!
//! There is deliberately no built-in generator. Connection identifiers and stateless reset
//! tokens must be unpredictable, and inventing bytes from a clock would make them
//! predictable, so a caller supplies the source.

use vstd::prelude::*;

use crate::error::Error;

verus! {

/// A source of unpredictable bytes.
///
/// The bytes must be unpredictable to an observer. `fill` may be called while a connection
/// is being built and must not panic: failure is reported by returning an error.
pub trait EntropySource {
    /// How far the source has got, in numbers of its own.
    open spec fn progress(&self) -> Seq<nat> {
        Seq::empty()
    }

    /// Whether the source, asked to fill a buffer that held `asked`, can leave `left` in it,
    /// answer `filled` and then have got as far as `progress`.
    ///
    /// Each source says so for itself. One that says nothing may do anything.
    open spec fn answers(
        &self,
        asked: Seq<u8>,
        left: Seq<u8>,
        filled: Result<(), Error>,
        progress: Seq<nat>,
    ) -> bool {
        true
    }

    /// Fills `dest` entirely with unpredictable bytes.
    fn fill(&mut self, dest: &mut [u8]) -> (filled: Result<(), Error>)
        ensures
            final(dest)@.len() == old(dest)@.len(),
            old(self).answers(old(dest)@, final(dest)@, filled, final(self).progress()),
    ;
}

impl<T: EntropySource> EntropySource for &mut T {
    open spec fn progress(&self) -> Seq<nat> {
        (**self).progress()
    }

    /// A source behind a reference answers as the source itself does.
    open spec fn answers(
        &self,
        asked: Seq<u8>,
        left: Seq<u8>,
        filled: Result<(), Error>,
        progress: Seq<nat>,
    ) -> bool {
        (**self).answers(asked, left, filled, progress)
    }

    fn fill(&mut self, dest: &mut [u8]) -> (filled: Result<(), Error>) {
        (**self).fill(dest)
    }
}

/// A deterministic source that counts upwards, one byte at a time.
///
/// Emphatically not suitable for anything but a demonstration: it produces exactly what an
/// observer would predict. It says how much has been drawn from it and can be replayed.
#[derive(Debug)]
pub struct CountingEntropy {
    next: u8,
    produced: usize,
}

impl CountingEntropy {
    /// The byte that comes next.
    pub closed spec fn upcoming(&self) -> u8 {
        self.next
    }

    /// How many bytes have been handed out.
    pub closed spec fn drawn(&self) -> nat {
        self.produced as nat
    }

    /// How many bytes have been handed out so far.
    pub fn bytes_produced(&self) -> (count: usize)
        ensures
            count == self.drawn(),
    {
        self.produced
    }
}

impl Default for CountingEntropy {
    fn default() -> (source: Self)
        ensures
            source.upcoming() == 0,
            source.drawn() == 0,
    {
        Self { next: 0, produced: 0 }
    }
}

/// The byte `steps` after `start`, counting round from 255 to 0.
pub open spec fn counted(start: u8, steps: int) -> u8 {
    ((start + steps) % 256) as u8
}

impl EntropySource for CountingEntropy {
    /// The byte that comes next, and how many have been handed out.
    open spec fn progress(&self) -> Seq<nat> {
        seq![self.upcoming() as nat, self.drawn()]
    }

    /// It never fails, and counts on from where it stood.
    open spec fn answers(
        &self,
        asked: Seq<u8>,
        left: Seq<u8>,
        filled: Result<(), Error>,
        progress: Seq<nat>,
    ) -> bool {
        &&& filled is Ok
        &&& left == Seq::new(asked.len(), |i: int| counted(self.upcoming(), i))
        &&& progress == seq![
            counted(self.upcoming(), asked.len() as int) as nat,
            if self.drawn() + asked.len() <= usize::MAX {
                self.drawn() + asked.len()
            } else {
                usize::MAX as nat
            },
        ]
    }

    fn fill(&mut self, dest: &mut [u8]) -> (filled: Result<(), Error>)
        ensures
            filled is Ok,
            final(dest)@ == Seq::new(
                old(dest)@.len(),
                |i: int| counted(old(self).upcoming(), i),
            ),
            final(self).upcoming() == counted(old(self).upcoming(), old(dest)@.len() as int),
            final(self).drawn() == if old(self).drawn() + old(dest)@.len() <= usize::MAX {
                old(self).drawn() + old(dest)@.len()
            } else {
                usize::MAX as nat
            },
    {
        let len: usize = dest.len();
        let mut at: usize = 0;
        while at < len
            invariant
                at <= len,
                len == old(dest)@.len(),
                dest@.len() == len,
                forall|i: int| 0 <= i < at ==> dest@[i] == counted(old(self).next, i),
                self.next == counted(old(self).next, at as int),
                self.produced == if old(self).produced + at <= usize::MAX {
                    (old(self).produced + at) as usize
                } else {
                    usize::MAX
                },
            decreases len - at,
        {
            dest[at] = self.next;
            self.next = self.next.wrapping_add(1);
            self.produced = self.produced.saturating_add(1);
            at += 1;
        }
        proof {
            assert(dest@ =~= Seq::new(
                old(dest)@.len(),
                |i: int| counted(old(self).upcoming(), i),
            ));
        }
        Ok(())
    }
}

} // verus!
