use vstd::prelude::*;

verus! {

/// Number of general purpose registers of the virtual machine.
pub const REGISTER_COUNT: usize = 16;

/// Index of the stack pointer register.
pub const SP: usize = 14;

/// Index of the base pointer register.
pub const BP: usize = 15;

} // verus!
