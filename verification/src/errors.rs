//! Failure conditions of the virtual machine.
//!
//! Every error here is fatal to a run: the machine models bare hardware,
//! so nothing is retried or rolled back. The instruction set assigns all
//! sixteen opcode values and every byte is a valid output character, so
//! decode and device-output failures cannot arise in this variant; an
//! end-of-input abort on the device is the driver's own fatal path.

use vstd::prelude::*;

verus! {

/// A fatal condition detected by the core.
#[derive(Clone, Copy, Debug, PartialEq, Eq, Structural)]
pub enum VmError {
    /// A program image longer than the memory was handed to `load`.
    LoadError,
    /// A register selector outside `0..=3` was handed to the register file.
    /// Unreachable under correct decoding, where the selector field is two
    /// bits wide; kept as a defensive contract for wider callers.
    RegisterError,
}

} // verus!
