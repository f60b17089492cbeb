//! Cycle and compute budgets.

use vstd::prelude::*;

verus! {

/// The signed reading of a 64-bit unsigned counter (two's complement).
pub open spec fn as_signed(x: u64) -> int {
    if x <= i64::MAX {
        x as int
    } else {
        x - 0x1_0000_0000_0000_0000int
    }
}

/// The unsigned reading of a signed 64-bit quantity (two's complement).
pub open spec fn as_unsigned(x: int) -> int {
    if x >= 0 {
        x
    } else {
        x + 0x1_0000_0000_0000_0000int
    }
}

/// Tracks an allocated resource budget (cycles or compute) and how much has been consumed.
#[derive(Debug, Clone, Copy)]
pub struct Budget {
    allocated: u64,
    consumed: u64,
}

impl Budget {
    /// The total allocated budget.
    pub closed spec fn spec_allocated(&self) -> u64 {
        self.allocated
    }

    /// The amount consumed so far.
    pub closed spec fn spec_consumed(&self) -> u64 {
        self.consumed
    }

    /// The remaining budget: allocated minus consumed, both read as signed 64-bit counters.
    pub open spec fn spec_remaining(&self) -> int {
        as_signed(self.spec_allocated()) - as_signed(self.spec_consumed())
    }

    /// Whether the remaining budget can be represented as an `i64`.
    pub open spec fn remaining_fits(&self) -> bool {
        i64::MIN <= self.spec_remaining() <= i64::MAX
    }

    /// Whether the budget is fully consumed.
    pub open spec fn is_exhausted(&self) -> bool {
        self.spec_consumed() >= self.spec_allocated()
    }

    /// Creates a budget of `allocated` units, none of them consumed.
    pub fn new(allocated: u64) -> (r: Self)
        ensures
            r.spec_allocated() == allocated,
            r.spec_consumed() == 0,
    {
        Budget { allocated, consumed: 0 }
    }

    /// Consumes `amount` units of the budget.
    pub fn consume(&mut self, amount: u64)
        requires
            old(self).spec_consumed() + amount <= u64::MAX,
        ensures
            final(self).spec_allocated() == old(self).spec_allocated(),
            final(self).spec_consumed() == old(self).spec_consumed() + amount,
    {
        self.consumed = self.consumed + amount;
    }

    /// Returns the total allocated budget.
    #[verifier::when_used_as_spec(spec_allocated)]
    pub fn allocated(&self) -> (r: u64)
        ensures
            r == self.spec_allocated(),
    {
        self.allocated
    }

    /// Returns the amount consumed so far.
    #[verifier::when_used_as_spec(spec_consumed)]
    pub fn consumed(&self) -> (r: u64)
        ensures
            r == self.spec_consumed(),
    {
        self.consumed
    }

    /// Returns the remaining budget (may be negative if over-consumed).
    ///
    /// Both counters are read as signed 64-bit integers, as a two's complement
    /// reinterpretation of their bits.
    pub fn remaining(&self) -> (r: i64)
        requires
            self.remaining_fits(),
        ensures
            r == self.spec_remaining(),
    {
        signed(self.allocated) - signed(self.consumed)
    }

    /// Returns `true` if the budget is fully consumed.
    pub fn exhausted(&self) -> (r: bool)
        ensures
            r == self.is_exhausted(),
    {
        self.consumed >= self.allocated
    }
}

/// Reads the bits of a `u64` as an `i64`.
fn signed(x: u64) -> (r: i64)
    ensures
        r == as_signed(x),
{
    if x <= i64::MAX as u64 {
        x as i64
    } else {
        let high: u64 = x - 0x8000_0000_0000_0000u64;
        (high as i64) - i64::MAX - 1
    }
}

/// While both counters are at most `i64::MAX`, a budget is exhausted exactly
/// when its remaining amount is zero or negative.
pub proof fn lemma_exhausted_iff_nothing_remains(b: Budget)
    requires
        b.spec_allocated() <= i64::MAX,
        b.spec_consumed() <= i64::MAX,
    ensures
        b.is_exhausted() <==> b.spec_remaining() <= 0,
        b.remaining_fits(),
{
}

/// A budget of which nothing is consumed is exhausted exactly when nothing was allocated.
pub proof fn lemma_unspent_budget_exhausted_iff_empty(b: Budget)
    requires
        b.spec_consumed() == 0,
    ensures
        b.is_exhausted() <==> b.spec_allocated() == 0,
{
}

} // verus!
