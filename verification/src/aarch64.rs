//! 64-bit ARM: every processor has the NEON registers.

use crate::dispatch::{Routine, VTable, VectorBank};
use crate::platform::Arch;
use vstd::prelude::*;

verus! {

/// The dispatch table of 64-bit ARM. Its routine saves the link register and
/// declares the NEON registers as clobbered, and no other vector bank.
pub fn vtable() -> (table: VTable)
    ensures
        table.switch == Routine::Aarch64,
        table.switch.arch() == Arch::Aarch64,
        table.switch.link_register_saved(),
        forall|bank: VectorBank| table.switch.clobbers(bank) == (bank is Neon),
{
    VTable { switch: Routine::Aarch64 }
}

} // verus!
