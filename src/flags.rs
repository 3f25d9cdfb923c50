//! Condition codes and their packing into the processor status word.
use vstd::prelude::*;

verus! {

/// The five condition flags of the 8080.
#[derive(Clone, Copy, Debug, PartialEq, Eq, Structural)]
pub struct ConditionCodes {
    /// Zero: the last affecting result was zero.
    pub z: bool,
    /// Sign: bit 7 of the last affecting result was set.
    pub s: bool,
    /// Parity: the last affecting result had an even number of one bits.
    pub p: bool,
    /// Carry out of bit 7, or borrow into it.
    pub cy: bool,
    /// Auxiliary carry out of bit 3.
    pub ac: bool,
}

/// 1 for a set flag, 0 for a clear one.
pub open spec fn bit(b: bool) -> int {
    if b {
        1
    } else {
        0
    }
}


/// The status word: S in bit 7, Z in bit 6, AC in bit 4, P in bit 2,
/// a fixed one in bit 1 and CY in bit 0; bits 5 and 3 are zero.
pub open spec fn psw_of(f: ConditionCodes) -> u8 {
    (128 * bit(f.s) + 64 * bit(f.z) + 16 * bit(f.ac) + 4 * bit(f.p) + 2 + bit(f.cy)) as u8
}

/// The flags that a status word holds.
pub open spec fn flags_of_psw(w: u8) -> ConditionCodes {
    ConditionCodes {
        z: (w / 64) % 2 == 1,
        s: (w / 128) % 2 == 1,
        p: (w / 4) % 2 == 1,
        cy: w % 2 == 1,
        ac: (w / 16) % 2 == 1,
    }
}

impl ConditionCodes {
    /// All flags clear.
    pub open spec fn new_spec() -> Self {
        ConditionCodes { z: false, s: false, p: false, cy: false, ac: false }
    }

    /// All flags clear.
    pub fn new() -> (r: Self)
        ensures
            r == Self::new_spec(),
    {
        Self { z: false, s: false, p: false, cy: false, ac: false }
    }

    /// Packs the flags into a status word.
    pub fn to_psw(&self) -> (r: u8)
        ensures
            r == psw_of(*self),
    {
        let mut w: u8 = 2;
        if self.s {
            w = w + 128;
        }
        if self.z {
            w = w + 64;
        }
        if self.ac {
            w = w + 16;
        }
        if self.p {
            w = w + 4;
        }
        if self.cy {
            w = w + 1;
        }
        w
    }

    /// Unpacks the flags from a status word; the fixed bits are ignored.
    pub fn from_psw(w: u8) -> (r: Self)
        ensures
            r == flags_of_psw(w),
    {
        Self {
            z: (w / 64) % 2 == 1,
            s: (w / 128) % 2 == 1,
            p: (w / 4) % 2 == 1,
            cy: w % 2 == 1,
            ac: (w / 16) % 2 == 1,
        }
    }
}

/// Packing the flags into a status word and unpacking it gives back the
/// same flags.
pub proof fn lemma_psw_round_trip(f: ConditionCodes)
    ensures
        flags_of_psw(psw_of(f)) == f,
{
    let w = psw_of(f);
    assert(w as int == 128 * bit(f.s) + 64 * bit(f.z) + 16 * bit(f.ac) + 4 * bit(f.p) + 2 + bit(
        f.cy,
    ));
}

} // verus!
