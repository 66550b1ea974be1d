//! The entropy counter that the front-end feeds, batch by batch, until
//! enough has been gathered.

use vstd::prelude::*;

verus! {

/// How many bits make the counter ready.
pub const TARGET_BITS: u32 = 512;

/// Bits gathered so far towards [`TARGET_BITS`].
pub struct EntropyCounter {
    bits: u32,
}

/// What one batch did to the counter.
#[derive(Debug, Clone, Copy, PartialEq, Eq)]
pub struct EntropyStep {
    /// The bits gathered, never reported above the target.
    pub reported: u32,
    /// Whether the target was reached; the counter then starts over.
    pub ready: bool,
}

/// The bits that a batch of bytes is worth: half a bit for each byte.
pub open spec fn batch_bits(byte_count: u32) -> int {
    byte_count as int / 2
}

/// What crediting a batch reports, for a counter that holds `bits`.
pub open spec fn credited(bits: int, byte_count: u32) -> EntropyStep {
    let total = bits + batch_bits(byte_count);
    if total >= TARGET_BITS {
        EntropyStep { reported: TARGET_BITS, ready: true }
    } else {
        EntropyStep { reported: total as u32, ready: false }
    }
}

/// What a counter that holds `bits` holds after a batch: the total while
/// it is below the target, nothing once the target is reached.
pub open spec fn carried(bits: int, byte_count: u32) -> int {
    let total = bits + batch_bits(byte_count);
    if total >= TARGET_BITS {
        0
    } else {
        total
    }
}

impl EntropyCounter {
    /// The bits gathered so far.
    pub closed spec fn bits(&self) -> int {
        self.bits as int
    }

    #[verifier::type_invariant]
    spec fn below_target(&self) -> bool {
        self.bits < TARGET_BITS
    }

    /// A counter that has gathered nothing.
    pub fn new() -> (counter: EntropyCounter)
        ensures
            counter.bits() == 0,
    {
        EntropyCounter { bits: 0 }
    }

    /// Credits a batch of bytes. Where the target is reached the counter
    /// reports it and starts over; below it the counter keeps the total.
    /// The counter itself always stays below the target.
    pub fn credit(&mut self, byte_count: u32) -> (step: EntropyStep)
        ensures
            step == credited(old(self).bits(), byte_count),
            final(self).bits() == carried(old(self).bits(), byte_count),
            0 <= old(self).bits() < TARGET_BITS,
            0 <= final(self).bits() < TARGET_BITS,
    {
        proof {
            use_type_invariant(&*self);
        }
        let total: u32 = self.bits + byte_count / 2;
        if total >= TARGET_BITS {
            self.bits = 0;
            EntropyStep { reported: TARGET_BITS, ready: true }
        } else {
            self.bits = total;
            EntropyStep { reported: total, ready: false }
        }
    }
}

} // verus!
