//! Even parity of the low bits of a value.
use vstd::prelude::*;

verus! {

/// Number of one bits among the low `n` bits of `x`.
#[verifier::opaque]
pub open spec fn ones(x: nat, n: nat) -> nat
    decreases n,
{
    if n == 0 {
        0
    } else {
        x % 2 + ones(x / 2, (n - 1) as nat)
    }
}

/// True when the low `n` bits of `x` hold an even number of ones.
pub open spec fn even_ones(x: nat, n: nat) -> bool {
    ones(x, n) % 2 == 0
}

/// Counts the one bits among the low `size` bits of `input` and reports
/// whether that count is even.
pub fn parity_impl(input: u16, size: u32) -> (r: bool)
    requires
        size <= 16,
    ensures
        r == even_ones(input as nat, size as nat),
{
    reveal(ones);
    let mut high_bits: u32 = 0;
    let mut rest: u16 = input;
    let mut i: u32 = 0;
    while i < size
        invariant
            i <= size,
            high_bits <= i,
            high_bits + ones(rest as nat, (size - i) as nat) == ones(input as nat, size as nat),
        decreases size - i,
    {
        reveal(ones);
        if rest % 2 == 1 {
            high_bits += 1;
        }
        rest = rest / 2;
        i += 1;
    }
    high_bits % 2 == 0
}

/// Values whose parity flag can be computed.
pub trait Parity: Sized {
    /// Whether the value has an even number of one bits.
    spec fn even_population(self) -> bool;

    /// True iff the value has an even number of one bits.
    fn parity(self) -> (r: bool)
        ensures
            r == self.even_population(),
    ;
}

impl Parity for u8 {
    open spec fn even_population(self) -> bool {
        even_ones(self as nat, 8)
    }

    fn parity(self) -> (r: bool) {
        parity_impl(self as u16, 8)
    }
}

impl Parity for u16 {
    open spec fn even_population(self) -> bool {
        even_ones(self as nat, 16)
    }

    fn parity(self) -> (r: bool) {
        parity_impl(self, 16)
    }
}

} // verus!
