//! The sample block: the atomic unit of signal transport.
//!
//! All signal exchange between modules happens in units of one block of
//! [`BUFFER_FRAMES`] samples. The engine routes blocks without interpreting
//! them, so a sample is carried as its 64-bit machine representation; what
//! those bits encode is the business of the modules at either end.

use vstd::prelude::*;

use crate::BUFFER_FRAMES;

verus! {

/// One sample, as its 64-bit machine representation.
pub type Sample = u64;

/// A fixed-length vector of [`BUFFER_FRAMES`] samples.
pub struct Block {
    samples: Vec<Sample>,
}

impl View for Block {
    type V = Seq<Sample>;

    closed spec fn view(&self) -> Seq<Sample> {
        self.samples@
    }
}

/// The all-zeros block: the value every connected input reads before its
/// producer has published anything.
pub open spec fn zero_block() -> Seq<Sample> {
    Seq::new(BUFFER_FRAMES as nat, |i: int| 0u64)
}

impl Block {
    /// A block holds exactly [`BUFFER_FRAMES`] samples.
    pub open spec fn wf(&self) -> bool {
        self@.len() == BUFFER_FRAMES
    }

    /// The block with every sample equal to `value`.
    pub fn splat(value: Sample) -> (r: Block)
        ensures
            r.wf(),
            r@ == Seq::new(BUFFER_FRAMES as nat, |i: int| value),
    {
        let mut samples: Vec<Sample> = Vec::new();
        while samples.len() < BUFFER_FRAMES
            invariant
                samples@.len() <= BUFFER_FRAMES,
                forall|j: int| 0 <= j < samples@.len() ==> samples@[j] == value,
            decreases BUFFER_FRAMES - samples@.len(),
        {
            samples.push(value);
        }
        let r = Block { samples };
        proof {
            assert(r@ =~= Seq::new(BUFFER_FRAMES as nat, |i: int| value));
        }
        r
    }

    /// The all-zeros block.
    pub fn zero() -> (r: Block)
        ensures
            r.wf(),
            r@ == zero_block(),
    {
        Block::splat(0)
    }

    /// A block made from exactly [`BUFFER_FRAMES`] samples.
    pub fn from_samples(samples: Vec<Sample>) -> (r: Block)
        requires
            samples@.len() == BUFFER_FRAMES,
        ensures
            r.wf(),
            r@ == samples@,
    {
        Block { samples }
    }

    /// The sample at frame `frame`.
    pub fn sample(&self, frame: usize) -> (r: Sample)
        requires
            frame < self@.len(),
        ensures
            r == self@[frame as int],
    {
        self.samples[frame]
    }

    /// Replaces the sample at frame `frame`.
    pub fn set_sample(&mut self, frame: usize, value: Sample)
        requires
            frame < old(self)@.len(),
        ensures
            final(self)@ == old(self)@.update(frame as int, value),
    {
        self.samples.set(frame, value);
    }

    /// The samples, in frame order.
    pub fn samples(&self) -> (r: &Vec<Sample>)
        ensures
            r@ == self@,
    {
        &self.samples
    }
}

impl Clone for Block {
    fn clone(&self) -> (r: Block)
        ensures
            r@ == self@,
    {
        let mut samples: Vec<Sample> = Vec::new();
        let mut i: usize = 0;
        while i < self.samples.len()
            invariant
                i <= self.samples@.len(),
                samples@ == self.samples@.take(i as int),
            decreases self.samples@.len() - i,
        {
            samples.push(self.samples[i]);
            i = i + 1;
            proof {
                assert(samples@ =~= self.samples@.take(i as int));
            }
        }
        proof {
            assert(samples@ =~= self.samples@);
        }
        Block { samples }
    }
}

} // verus!
