//! Deterministic entropy sources: a constant source and a replaying source.

use vstd::prelude::*;
use crate::entropy::EntropySource;

verus! {

/// The draw function of a source that yields one constant forever.
pub open spec fn constant_draws(v: u64) -> spec_fn(nat) -> u64 {
    |i: nat| v
}

/// A source whose every draw is the same constant.
pub struct ConstantSource {
    /// The constant handed out by every draw.
    pub value: u64,
    /// How many draws have been made; tracked only for the model.
    pub spent: Ghost<nat>,
}

impl ConstantSource {
    /// A constant source that will forever draw `value`.
    pub fn new(value: u64) -> (s: Self)
        ensures
            s.draws() == constant_draws(value),
            s.consumed() == 0,
    {
        ConstantSource { value, spent: Ghost(0) }
    }
}

impl EntropySource for ConstantSource {
    open spec fn draws(&self) -> spec_fn(nat) -> u64 {
        constant_draws(self.value)
    }

    open spec fn consumed(&self) -> nat {
        self.spent@
    }

    fn next_u32(&mut self) -> (r: u32)
    {
        proof {
            let v = self.value;
            assert((v % 0x1_0000_0000) as u32 == v as u32) by (bit_vector);
        }
        self.spent = Ghost(self.spent@ + 1);
        #[verifier::truncate] (self.value as u32)
    }

    fn next_u64(&mut self) -> (r: u64)
    {
        self.spent = Ghost(self.spent@ + 1);
        self.value
    }
}

/// The draw function of a source that replays a recorded list and then
/// yields zero forever.
pub open spec fn replay_draws(s: Seq<u64>) -> spec_fn(nat) -> u64 {
    |i: nat|
        if i < s.len() {
            s[i as int]
        } else {
            0
        }
}

/// A deterministic source that replays a recorded list of draws, then
/// yields zero forever.  How far it has read can be observed, which makes
/// draw consumption visible to callers.
pub struct ReplaySource {
    entries: Vec<u64>,
    index: usize,
    spent: Ghost<nat>,
}

impl ReplaySource {
    /// The recorded list of draws.
    pub closed spec fn entry_seq(&self) -> Seq<u64> {
        self.entries@
    }

    #[verifier::type_invariant]
    spec fn inv(&self) -> bool {
        self.index == if self.spent@ < self.entries@.len() {
            self.spent@
        } else {
            self.entries@.len()
        }
    }

    /// A source that will replay `entries` in order.
    pub fn new(entries: Vec<u64>) -> (s: Self)
        ensures
            s.entry_seq() == entries@,
            s.draws() == replay_draws(entries@),
            s.consumed() == 0,
    {
        ReplaySource { entries, index: 0, spent: Ghost(0) }
    }

    /// How far into the recorded list the source has read: the number of
    /// draws consumed, saturating at the list's length.
    pub fn position(&self) -> (r: usize)
        ensures
            r == if self.consumed() < self.entry_seq().len() {
                self.consumed()
            } else {
                self.entry_seq().len()
            },
    {
        proof {
            use_type_invariant(self);
        }
        self.index
    }

    /// Take one raw draw and advance.
    fn take(&mut self) -> (r: u64)
        ensures
            final(self).draws() == old(self).draws(),
            final(self).entry_seq() == old(self).entry_seq(),
            final(self).consumed() == old(self).consumed() + 1,
            r == (old(self).draws())(old(self).consumed()),
    {
        proof {
            use_type_invariant(&*self);
        }
        let mut tmp = ReplaySource { entries: Vec::new(), index: 0, spent: Ghost(0nat) };
        std::mem::swap(self, &mut tmp);
        let ReplaySource { entries, index, spent } = tmp;
        let r: u64;
        let new_index: usize;
        if index < entries.len() {
            r = entries[index];
            new_index = index + 1;
        } else {
            r = 0;
            new_index = index;
        }
        *self = ReplaySource { entries, index: new_index, spent: Ghost(spent@ + 1) };
        r
    }
}

impl EntropySource for ReplaySource {
    closed spec fn draws(&self) -> spec_fn(nat) -> u64 {
        replay_draws(self.entries@)
    }

    closed spec fn consumed(&self) -> nat {
        self.spent@
    }

    fn next_u32(&mut self) -> (r: u32) {
        let v = self.take();
        proof {
            assert((v % 0x1_0000_0000) as u32 == v as u32) by (bit_vector);
        }
        #[verifier::truncate] (v as u32)
    }

    fn next_u64(&mut self) -> (r: u64) {
        self.take()
    }
}

} // verus!
