//! The register file: four general-purpose byte registers addressed by a
//! two-bit selector, plus the two 16-bit control registers `ip` and `rp`.

use vstd::prelude::*;
use crate::errors::VmError;

verus! {

/// The machine's register file.
///
/// `ip` is the instruction pointer (address of the next byte to fetch),
/// `rp` the return pointer captured by call-like instructions. Both are
/// free-running 16-bit counters with wraparound arithmetic. The four
/// general registers are reached through a selector in `0..=3`.
#[derive(Clone, Copy, Debug, PartialEq, Eq, Structural)]
pub struct Registers {
    pub ip: u16,
    pub rp: u16,
    pub r0: u8,
    pub r1: u8,
    pub r2: u8,
    pub r3: u8,
}

impl Registers {
    /// The value of the general register that selector `r` picks.
    /// Only selectors below 4 are meaningful.
    pub open spec fn spec_get(self, r: u8) -> u8
        recommends
            r < 4,
    {
        if r == 0 {
            self.r0
        } else if r == 1 {
            self.r1
        } else if r == 2 {
            self.r2
        } else {
            self.r3
        }
    }

    /// The register file after writing `value` into the general register
    /// that selector `r` picks. Only selectors below 4 are meaningful.
    pub open spec fn spec_set(self, r: u8, value: u8) -> Registers
        recommends
            r < 4,
    {
        if r == 0 {
            Registers { r0: value, ..self }
        } else if r == 1 {
            Registers { r1: value, ..self }
        } else if r == 2 {
            Registers { r2: value, ..self }
        } else {
            Registers { r3: value, ..self }
        }
    }

    /// A fresh register file, every register zero.
    pub fn new() -> (regs: Registers)
        ensures
            regs == (Registers { ip: 0, rp: 0, r0: 0, r1: 0, r2: 0, r3: 0 }),
    {
        Registers { ip: 0, rp: 0, r0: 0, r1: 0, r2: 0, r3: 0 }
    }

    /// Read the general register that selector `r` picks.
    /// A selector outside `0..=3` is refused with `RegisterError`.
    pub fn get(&self, r: u8) -> (res: Result<u8, VmError>)
        ensures
            r < 4 ==> res == Ok::<u8, VmError>(self.spec_get(r)),
            r >= 4 ==> res == Err::<u8, VmError>(VmError::RegisterError),
    {
        match r {
            0 => Ok(self.r0),
            1 => Ok(self.r1),
            2 => Ok(self.r2),
            3 => Ok(self.r3),
            _ => Err(VmError::RegisterError),
        }
    }

    /// Overwrite the general register that selector `r` picks.
    /// A selector outside `0..=3` is refused with `RegisterError` and
    /// leaves the register file unchanged.
    pub fn set(&mut self, r: u8, value: u8) -> (res: Result<(), VmError>)
        ensures
            r < 4 ==> res == Ok::<(), VmError>(()) && *final(self) == old(self).spec_set(r, value),
            r >= 4 ==> res == Err::<(), VmError>(VmError::RegisterError) && *final(self) == *old(self),
    {
        match r {
            0 => {
                self.r0 = value;
                Ok(())
            }
            1 => {
                self.r1 = value;
                Ok(())
            }
            2 => {
                self.r2 = value;
                Ok(())
            }
            3 => {
                self.r3 = value;
                Ok(())
            }
            _ => Err(VmError::RegisterError),
        }
    }
}

} // verus!
