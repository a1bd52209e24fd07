//! 32-bit x86: the switch routine covers `xmm0` to `xmm7`.

use crate::dispatch::{Routine, VTable, VectorBank};
use crate::platform::Arch;
use vstd::prelude::*;

verus! {

/// The dispatch table of 32-bit x86. Its routine declares the SSE registers
/// as clobbered, and no other vector bank.
pub fn vtable() -> (table: VTable)
    ensures
        table.switch == Routine::X86Basic,
        table.switch.arch() == Arch::X86,
        !table.switch.link_register_saved(),
        forall|bank: VectorBank| table.switch.clobbers(bank) == (bank is Sse),
{
    VTable { switch: Routine::X86Basic }
}

} // verus!
