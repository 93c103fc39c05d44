//! The state word of a task.

use vstd::prelude::*;

verus! {

/// The state word of a task.
///
/// - Bits 0-1: state (idle 0, scheduled 1, running 2, complete 3)
/// - Bits 2-15: flags (aborted `0x4`, join interest `0x8`, panicked `0x10`)
/// - Bits 16-31: waker reference count
#[derive(Debug, Clone, Copy, PartialEq, Eq, Structural)]
pub struct TaskState {
    pub bits: usize,
}

/// The value of bits 0-1 of a state word.
pub open spec fn state_of(bits: usize) -> int {
    bits as int % 4
}

/// The value of bits 2-15 of a state word, left where they stand.
pub open spec fn flags_of(bits: usize) -> int {
    bits as int % 0x1_0000 - bits as int % 4
}

/// The value of bits 16-31 of a state word, as a number.
pub open spec fn refcount_of(bits: usize) -> int {
    bits as int / 0x1_0000 % 0x1_0000
}

/// Whether the aborted flag of a state word is set.
pub open spec fn aborted_bit(bits: usize) -> bool {
    bits as int / 4 % 2 == 1
}

/// Whether the join-interest flag of a state word is set.
pub open spec fn join_interest_bit(bits: usize) -> bool {
    bits as int / 8 % 2 == 1
}

/// Whether the panicked flag of a state word is set.
pub open spec fn panicked_bit(bits: usize) -> bool {
    bits as int / 16 % 2 == 1
}

/// A state word with another state.
pub open spec fn with_state(bits: usize, state: usize) -> usize {
    (bits - state_of(bits) + state) as usize
}

/// A state word with another reference count, of which the low 16 bits are kept.
pub open spec fn with_count(bits: usize, refcount: usize) -> usize {
    (bits - refcount_of(bits) * 0x1_0000 + (refcount as int % 0x1_0000) * 0x1_0000) as usize
}

impl TaskState {
    pub const STATE_MASK: usize = 0x3;

    pub const FLAGS_MASK: usize = 0xFFFC;

    pub const REFCOUNT_SHIFT: usize = 16;

    pub const REFCOUNT_MASK: usize = 0xFFFF0000;

    pub const IDLE: usize = 0;

    pub const SCHEDULED: usize = 1;

    pub const RUNNING: usize = 2;

    pub const COMPLETE: usize = 3;

    pub const ABORTED: usize = 0x4;

    pub const JOIN_INTEREST: usize = 0x8;

    pub const PANICKED: usize = 0x10;

    /// The state word with these bits.
    pub fn from_bits(bits: usize) -> (r: Self)
        ensures
            r.bits == bits,
    {
        Self { bits }
    }

    /// The bits of the state word.
    pub fn bits(self) -> (r: usize)
        ensures
            r == self.bits,
    {
        self.bits
    }

    /// Bits 0-1: idle, scheduled, running or complete.
    pub fn state(self) -> (r: usize)
        ensures
            r == state_of(self.bits),
    {
        let b = self.bits;
        assert(b & 0x3 == b % 4) by (bit_vector);
        self.bits & Self::STATE_MASK
    }

    /// Bits 2-15: the flags.
    pub fn flags(self) -> (r: usize)
        ensures
            r == flags_of(self.bits),
    {
        let b = self.bits;
        assert(b & 0xFFFC == b % 0x1_0000 - b % 4) by (bit_vector);
        self.bits & Self::FLAGS_MASK
    }

    /// Bits 16-31: the number of wakers.
    pub fn refcount(self) -> (r: usize)
        ensures
            r == refcount_of(self.bits),
    {
        let b = self.bits;
        assert((b & 0xFFFF0000) >> 16 == (b / 0x1_0000) % 0x1_0000) by (bit_vector);
        (self.bits & Self::REFCOUNT_MASK) >> Self::REFCOUNT_SHIFT
    }

    pub fn is_idle(self) -> (r: bool)
        ensures
            r == (state_of(self.bits) == Self::IDLE),
    {
        self.state() == Self::IDLE
    }

    pub fn is_scheduled(self) -> (r: bool)
        ensures
            r == (state_of(self.bits) == Self::SCHEDULED),
    {
        self.state() == Self::SCHEDULED
    }

    pub fn is_running(self) -> (r: bool)
        ensures
            r == (state_of(self.bits) == Self::RUNNING),
    {
        self.state() == Self::RUNNING
    }

    pub fn is_complete(self) -> (r: bool)
        ensures
            r == (state_of(self.bits) == Self::COMPLETE),
    {
        self.state() == Self::COMPLETE
    }

    pub fn is_aborted(self) -> (r: bool)
        ensures
            r == aborted_bit(self.bits),
    {
        let b = self.bits;
        assert((b & 0x4 != 0) <==> (b / 4) % 2 == 1) by (bit_vector);
        (self.bits & Self::ABORTED) != 0
    }

    pub fn has_join_interest(self) -> (r: bool)
        ensures
            r == join_interest_bit(self.bits),
    {
        let b = self.bits;
        assert((b & 0x8 != 0) <==> (b / 8) % 2 == 1) by (bit_vector);
        (self.bits & Self::JOIN_INTEREST) != 0
    }

    pub fn has_panicked(self) -> (r: bool)
        ensures
            r == panicked_bit(self.bits),
    {
        let b = self.bits;
        assert((b & 0x10 != 0) <==> (b / 16) % 2 == 1) by (bit_vector);
        (self.bits & Self::PANICKED) != 0
    }

    /// This word with another state.
    pub fn with_state(self, state: usize) -> (r: Self)
        requires
            state <= Self::STATE_MASK,
        ensures
            r.bits == with_state(self.bits, state),
    {
        let b = self.bits;
        assert((b & !3usize) | state == b - b % 4 + state) by (bit_vector)
            requires
                state <= 3,
        ;
        Self { bits: (self.bits & !Self::STATE_MASK) | state }
    }

    /// This word with another reference count; only the low 16 bits of
    /// `refcount` are kept.
    pub fn with_refcount(self, refcount: usize) -> (r: Self)
        ensures
            r.bits == with_count(self.bits, refcount),
    {
        let b = self.bits;
        assert((b & !0xFFFF0000usize) | ((refcount << 16) & 0xFFFF0000) == b - ((b / 0x1_0000)
            % 0x1_0000) * 0x1_0000 + (refcount % 0x1_0000) * 0x1_0000) by (bit_vector);
        let bits: usize = (self.bits & !Self::REFCOUNT_MASK) | ((refcount << Self::REFCOUNT_SHIFT)
            & Self::REFCOUNT_MASK);
        Self { bits }
    }

    /// This word with the bits of `flag` set.
    pub fn with_flag(self, flag: Self) -> (r: Self)
        ensures
            r.bits == self.bits | flag.bits,
    {
        Self { bits: self.bits | flag.bits }
    }

    /// This word with the bits of `flag` cleared.
    pub fn without_flag(self, flag: Self) -> (r: Self)
        ensures
            r.bits == self.bits & !flag.bits,
    {
        Self { bits: self.bits & !flag.bits }
    }
}

/// A state word with one more reference.
pub open spec fn retained(bits: usize) -> usize {
    if bits + 0x1_0000 > usize::MAX {
        (bits + 0x1_0000 - usize::MAX - 1) as usize
    } else {
        (bits + 0x1_0000) as usize
    }
}

/// A state word with one reference fewer.
pub open spec fn released(bits: usize) -> usize {
    if bits < 0x1_0000 {
        (bits - 0x1_0000 + usize::MAX + 1) as usize
    } else {
        (bits - 0x1_0000) as usize
    }
}

/// Setting the state leaves flags and reference count alone.
pub proof fn lemma_state_word(bits: usize, state: usize)
    requires
        state <= TaskState::STATE_MASK,
    ensures
        state_of(with_state(bits, state)) == state,
        flags_of(with_state(bits, state)) == flags_of(bits),
        aborted_bit(with_state(bits, state)) == aborted_bit(bits),
        join_interest_bit(with_state(bits, state)) == join_interest_bit(bits),
        panicked_bit(with_state(bits, state)) == panicked_bit(bits),
        refcount_of(with_state(bits, state)) == refcount_of(bits),
{
    let b = with_state(bits, state);
    assert(bits - bits as int % 4 + state <= usize::MAX) by {
        assert(usize::MAX as int == 0xFFFF_FFFF || usize::MAX as int == 0xFFFF_FFFF_FFFF_FFFF);
    }
    assert({
        &&& b % 4 == state
        &&& b % 0x1_0000 - b % 4 == bits % 0x1_0000 - bits % 4
        &&& b / 4 % 2 == bits / 4 % 2
        &&& b / 8 % 2 == bits / 8 % 2
        &&& b / 16 % 2 == bits / 16 % 2
        &&& b / 0x1_0000 % 0x1_0000 == bits / 0x1_0000 % 0x1_0000
    }) by (bit_vector)
        requires
            state <= 3,
            b == bits - bits % 4 + state,
    ;
}

/// Setting the panicked flag leaves state, the other flags and reference count alone.
pub proof fn lemma_panicked_word(bits: usize)
    ensures
        panicked_bit(bits | TaskState::PANICKED),
        state_of(bits | TaskState::PANICKED) == state_of(bits),
        aborted_bit(bits | TaskState::PANICKED) == aborted_bit(bits),
        join_interest_bit(bits | TaskState::PANICKED) == join_interest_bit(bits),
        refcount_of(bits | TaskState::PANICKED) == refcount_of(bits),
{
    assert({
        let b = bits | 16;
        &&& b / 16 % 2 == 1
        &&& b % 4 == bits % 4
        &&& b / 4 % 2 == bits / 4 % 2
        &&& b / 8 % 2 == bits / 8 % 2
        &&& b / 0x1_0000 % 0x1_0000 == bits / 0x1_0000 % 0x1_0000
    }) by (bit_vector);
}

/// Setting the aborted flag leaves state, join interest and reference count alone.
pub proof fn lemma_aborted_word(bits: usize)
    ensures
        aborted_bit(bits | TaskState::ABORTED),
        state_of(bits | TaskState::ABORTED) == state_of(bits),
        join_interest_bit(bits | TaskState::ABORTED) == join_interest_bit(bits),
        panicked_bit(bits | TaskState::ABORTED) == panicked_bit(bits),
        refcount_of(bits | TaskState::ABORTED) == refcount_of(bits),
{
    assert({
        let b = bits | 4;
        &&& b / 4 % 2 == 1
        &&& b % 4 == bits % 4
        &&& b / 8 % 2 == bits / 8 % 2
        &&& b / 16 % 2 == bits / 16 % 2
        &&& b / 0x1_0000 % 0x1_0000 == bits / 0x1_0000 % 0x1_0000
    }) by (bit_vector);
}

/// Setting the join-interest flag leaves state, abortion and reference count alone.
pub proof fn lemma_join_word(bits: usize)
    ensures
        join_interest_bit(bits | TaskState::JOIN_INTEREST),
        state_of(bits | TaskState::JOIN_INTEREST) == state_of(bits),
        aborted_bit(bits | TaskState::JOIN_INTEREST) == aborted_bit(bits),
        panicked_bit(bits | TaskState::JOIN_INTEREST) == panicked_bit(bits),
        refcount_of(bits | TaskState::JOIN_INTEREST) == refcount_of(bits),
{
    assert({
        let b = bits | 8;
        &&& b / 8 % 2 == 1
        &&& b % 4 == bits % 4
        &&& b / 4 % 2 == bits / 4 % 2
        &&& b / 16 % 2 == bits / 16 % 2
        &&& b / 0x1_0000 % 0x1_0000 == bits / 0x1_0000 % 0x1_0000
    }) by (bit_vector);
}

/// Clearing the join-interest flag leaves state, abortion and reference count alone.
pub proof fn lemma_unjoined_word(bits: usize)
    ensures
        !join_interest_bit(bits & !TaskState::JOIN_INTEREST),
        state_of(bits & !TaskState::JOIN_INTEREST) == state_of(bits),
        aborted_bit(bits & !TaskState::JOIN_INTEREST) == aborted_bit(bits),
        panicked_bit(bits & !TaskState::JOIN_INTEREST) == panicked_bit(bits),
        refcount_of(bits & !TaskState::JOIN_INTEREST) == refcount_of(bits),
{
    assert({
        let b = bits & !8usize;
        &&& b / 8 % 2 == 0
        &&& b % 4 == bits % 4
        &&& b / 4 % 2 == bits / 4 % 2
        &&& b / 16 % 2 == bits / 16 % 2
        &&& b / 0x1_0000 % 0x1_0000 == bits / 0x1_0000 % 0x1_0000
    }) by (bit_vector);
}

/// Words that agree in their low 16 bits agree in state and flags.
proof fn lemma_same_low_bits(a: usize, b: usize)
    requires
        a as int % 0x1_0000 == b as int % 0x1_0000,
    ensures
        state_of(a) == state_of(b),
        flags_of(a) == flags_of(b),
        aborted_bit(a) == aborted_bit(b),
        join_interest_bit(a) == join_interest_bit(b),
        panicked_bit(a) == panicked_bit(b),
{
    assert({
        &&& a % 4 == b % 4
        &&& a / 4 % 2 == b / 4 % 2
        &&& a / 8 % 2 == b / 8 % 2
        &&& a / 16 % 2 == b / 16 % 2
    }) by (bit_vector)
        requires
            a % 0x1_0000 == b % 0x1_0000,
    ;
}

/// A word after its reference count moved by one, as laps and counts.
proof fn lemma_counted_laps(bits: usize)
    ensures
        retained(bits) as int % 0x1_0000 == bits as int % 0x1_0000,
        released(bits) as int % 0x1_0000 == bits as int % 0x1_0000,
        refcount_of(retained(bits)) == (refcount_of(bits) + 1) % 0x1_0000,
        refcount_of(released(bits)) == (refcount_of(bits) + 0xFFFF) % 0x1_0000,
{
    assert(usize::MAX as int == 0xFFFF_FFFF || usize::MAX as int == 0xFFFF_FFFF_FFFF_FFFF);
    let laps: int = (usize::MAX as int + 1) / 0x1_0000;
    let count: int = bits as int / 0x1_0000;
    let low: int = bits as int % 0x1_0000;
    let up: int = if count + 1 >= laps { count + 1 - laps } else { count + 1 };
    let down: int = if count < 1 { count - 1 + laps } else { count - 1 };
    assert(retained(bits) as int == up * 0x1_0000 + low);
    assert(released(bits) as int == down * 0x1_0000 + low);
    assert(retained(bits) as int % 0x1_0000 == low && retained(bits) as int / 0x1_0000 == up);
    assert(released(bits) as int % 0x1_0000 == low && released(bits) as int / 0x1_0000 == down);
    assert(laps % 0x1_0000 == 0);
    assert(up % 0x1_0000 == (count % 0x1_0000 + 1) % 0x1_0000);
    assert(down % 0x1_0000 == (count % 0x1_0000 + 0xFFFF) % 0x1_0000);
}

/// Taking or giving back a reference leaves state and flags alone, and moves
/// the reference count by one, around the end of its 16 bits.
pub proof fn lemma_counted_word(bits: usize)
    ensures
        state_of(retained(bits)) == state_of(bits),
        state_of(released(bits)) == state_of(bits),
        flags_of(retained(bits)) == flags_of(bits),
        flags_of(released(bits)) == flags_of(bits),
        aborted_bit(retained(bits)) == aborted_bit(bits),
        aborted_bit(released(bits)) == aborted_bit(bits),
        join_interest_bit(retained(bits)) == join_interest_bit(bits),
        join_interest_bit(released(bits)) == join_interest_bit(bits),
        panicked_bit(retained(bits)) == panicked_bit(bits),
        panicked_bit(released(bits)) == panicked_bit(bits),
        refcount_of(retained(bits)) == (refcount_of(bits) + 1) % 0x1_0000,
        refcount_of(released(bits)) == (refcount_of(bits) + 0xFFFF) % 0x1_0000,
        0 <= refcount_of(bits) <= 0xFFFF,
{
    let up = retained(bits);
    let down = released(bits);
    lemma_counted_laps(bits);
    lemma_same_low_bits(up, bits);
    lemma_same_low_bits(down, bits);
}

/// The reference count of a word is the one that it was given, and giving it one
/// leaves state and flags alone.
pub proof fn law_refcount_is_set(bits: usize, refcount: usize)
    ensures
        refcount_of(with_count(bits, refcount)) == refcount as int % 0x1_0000,
        state_of(with_count(bits, refcount)) == state_of(bits),
        flags_of(with_count(bits, refcount)) == flags_of(bits),
        with_count(bits, refcount) as int / 0x1_0000_0000 == bits as int / 0x1_0000_0000,
{
    let high: int = bits as int / 0x1_0000 / 0x1_0000;
    let low: int = bits as int % 0x1_0000;
    let count: int = refcount as int % 0x1_0000;
    assert(bits as int == (high * 0x1_0000 + refcount_of(bits)) * 0x1_0000 + low);
    let word: int = (high * 0x1_0000 + count) * 0x1_0000 + low;
    assert(bits - refcount_of(bits) * 0x1_0000 + count * 0x1_0000 == word);
    assert(0 <= word <= usize::MAX) by {
        assert(usize::MAX as int == 0xFFFF_FFFF || usize::MAX as int == 0xFFFF_FFFF_FFFF_FFFF);
    }
    lemma_same_low_bits(with_count(bits, refcount), bits);
}

/// A flag that was set is found set, one that was cleared is found cleared, and
/// neither touches state, reference count or another flag.
pub proof fn law_flags_are_set_and_cleared(bits: usize, flag: usize)
    requires
        flag & TaskState::FLAGS_MASK == flag,
    ensures
        (bits | flag) & flag == flag,
        (bits & !flag) & flag == 0,
        (bits | flag) & !flag == bits & !flag,
        (bits & !flag) | flag == bits | flag,
        state_of(bits | flag) == state_of(bits),
        state_of(bits & !flag) == state_of(bits),
        refcount_of(bits | flag) == refcount_of(bits),
        refcount_of(bits & !flag) == refcount_of(bits),
{
    assert({
        &&& (bits | flag) & flag == flag
        &&& (bits & !flag) & flag == 0
        &&& (bits | flag) & !flag == bits & !flag
        &&& (bits & !flag) | flag == bits | flag
        &&& (bits | flag) % 4 == bits % 4
        &&& (bits & !flag) % 4 == bits % 4
        &&& (bits | flag) / 0x1_0000 % 0x1_0000 == bits / 0x1_0000 % 0x1_0000
        &&& (bits & !flag) / 0x1_0000 % 0x1_0000 == bits / 0x1_0000 % 0x1_0000
    }) by (bit_vector)
        requires
            flag & 0xFFFC == flag,
    ;
}

/// A reference taken and given back, in either order, leaves the word as it was.
pub proof fn lemma_retain_release(bits: usize)
    ensures
        released(retained(bits)) == bits,
        retained(released(bits)) == bits,
{
}

} // verus!
