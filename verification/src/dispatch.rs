//! The switch routines, one for each architecture and register set, and the
//! table through which a caller reaches the one that was selected.

use crate::platform::Arch;
use vstd::prelude::*;

verus! {

/// A bank of vector registers that a compiler may keep live values in.
#[derive(Clone, Copy, PartialEq, Eq, Structural, Debug)]
pub enum VectorBank {
    /// `xmm0` to `xmm15` (to `xmm7` on 32-bit x86).
    Sse,
    /// `xmm16` to `xmm31` and the mask registers `k0` to `k7`.
    Avx512,
    /// The NEON registers, `d0` to `d31` or `v0` to `v31`.
    Neon,
}

/// Why the register set of the processor could not be determined.
#[derive(PartialEq, Eq, Debug)]
pub enum DetectError {
    /// The architecture has no switch routine for this operating system.
    Unsupported,
    /// The processor's features could not be queried.
    QueryFailed,
    /// The processor names a vendor that the library does not know.
    UnknownVendor(String),
}

/// A machine-code routine that suspends one context and resumes another.
///
/// Each routine stores the stack pointer, and the link register where the
/// architecture has one, and declares every other register that a call does
/// not preserve as clobbered, so that the compiler saves what is live around
/// the call. The routines differ in the vector banks that they declare.
#[derive(Clone, Copy, PartialEq, Eq, Structural, Debug)]
pub enum Routine {
    Aarch64,
    ArmBasic,
    ArmNeon,
    X86Basic,
    X86_64Basic,
    X86_64Avx512,
}

impl Routine {
    /// The architecture whose instructions the routine is made of.
    pub open spec fn arch(self) -> Arch {
        match self {
            Routine::Aarch64 => Arch::Aarch64,
            Routine::ArmBasic => Arch::Arm,
            Routine::ArmNeon => Arch::Arm,
            Routine::X86Basic => Arch::X86,
            Routine::X86_64Basic => Arch::X86_64,
            Routine::X86_64Avx512 => Arch::X86_64,
        }
    }

    /// Whether the routine declares the registers of `bank` as clobbered.
    pub open spec fn clobbers(self, bank: VectorBank) -> bool {
        match self {
            Routine::Aarch64 => bank is Neon,
            Routine::ArmBasic => false,
            Routine::ArmNeon => bank is Neon,
            Routine::X86Basic => bank is Sse,
            Routine::X86_64Basic => bank is Sse,
            Routine::X86_64Avx512 => bank is Sse || bank is Avx512,
        }
    }

    /// Whether the routine saves and restores a link register by hand, next
    /// to the stack pointer: it does where the architecture has one.
    pub open spec fn link_register_saved(self) -> bool {
        self.arch().has_link_register()
    }

    /// The architecture whose instructions the routine is made of.
    pub fn architecture(&self) -> (arch: Arch)
        ensures
            arch == self.arch(),
    {
        match self {
            Routine::Aarch64 => Arch::Aarch64,
            Routine::ArmBasic => Arch::Arm,
            Routine::ArmNeon => Arch::Arm,
            Routine::X86Basic => Arch::X86,
            Routine::X86_64Basic => Arch::X86_64,
            Routine::X86_64Avx512 => Arch::X86_64,
        }
    }

    /// Whether the routine saves and restores a link register by hand.
    pub fn saves_link_register(&self) -> (saved: bool)
        ensures
            saved == self.link_register_saved(),
    {
        match self {
            Routine::Aarch64 => true,
            Routine::ArmBasic => true,
            Routine::ArmNeon => true,
            Routine::X86Basic => false,
            Routine::X86_64Basic => false,
            Routine::X86_64Avx512 => false,
        }
    }

    /// Whether the routine declares the registers of `bank` as clobbered.
    pub fn declares_clobbered(&self, bank: VectorBank) -> (declared: bool)
        ensures
            declared == self.clobbers(bank),
    {
        match self {
            Routine::Aarch64 => matches!(bank, VectorBank::Neon),
            Routine::ArmBasic => false,
            Routine::ArmNeon => matches!(bank, VectorBank::Neon),
            Routine::X86Basic => matches!(bank, VectorBank::Sse),
            Routine::X86_64Basic => matches!(bank, VectorBank::Sse),
            Routine::X86_64Avx512 => matches!(bank, VectorBank::Sse | VectorBank::Avx512),
        }
    }
}

/// The dispatch table: the one switch routine that fits the running process.
#[derive(Clone, Copy, PartialEq, Eq, Structural, Debug)]
pub struct VTable {
    pub switch: Routine,
}

} // verus!
