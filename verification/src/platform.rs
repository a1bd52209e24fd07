//! The operating systems and processor architectures that the library tells
//! apart.

use vstd::prelude::*;

verus! {

/// The operating systems that the library tells apart.
#[derive(Clone, Copy, PartialEq, Eq, Structural, Debug)]
pub enum Os {
    Android,
    Darwin,
    DragonFly,
    FreeBsd,
    Linux,
    NetBsd,
    OpenBsd,
    /// A Unix that is none of the others.
    OtherUnix,
    Windows,
}

/// The processor architectures that have a switch routine.
#[derive(Clone, Copy, PartialEq, Eq, Structural, Debug)]
pub enum Arch {
    Aarch64,
    Arm,
    X86,
    X86_64,
}

impl Arch {
    /// Whether calls on this architecture leave their return address in a
    /// register of its own rather than on the stack.
    pub open spec fn has_link_register(self) -> bool {
        self is Aarch64 || self is Arm
    }
}

} // verus!
