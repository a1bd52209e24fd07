//! 32-bit ARM: the processor may or may not have NEON registers.

use crate::dispatch::{DetectError, Routine, VTable, VectorBank};
use crate::platform::{Arch, Os};
use vstd::prelude::*;

verus! {

/// The bit of the hardware capabilities that announces NEON.
pub const HWCAP_NEON: u64 = 0x1000;

/// The register sets that a 32-bit ARM processor can have.
#[derive(Clone, Copy, PartialEq, Eq, Structural, Debug)]
pub enum Variant {
    /// The core registers only.
    Basic,
    /// The core registers and the NEON registers.
    Neon,
}

impl Variant {
    /// Whether the variant can occur under `os`: Windows runs on processors
    /// with NEON only, and OpenBSD keeps NEON switched off.
    pub open spec fn available(self, os: Os) -> bool {
        match self {
            Variant::Basic => !(os is Windows),
            Variant::Neon => !(os is OpenBsd),
        }
    }

    /// Whether code for this variant may hold live values in `bank`.
    pub open spec fn exposes(self, bank: VectorBank) -> bool {
        self is Neon && bank is Neon
    }

    /// The variant of a process under `os` whose hardware capabilities were
    /// queried with the outcome `hwcap` (`None`: the query failed).
    ///
    /// Windows and OpenBSD settle the variant by themselves. Android, FreeBSD
    /// and Linux report it in the capabilities, and a failed query leaves it
    /// unknown. No other system is supported.
    pub open spec fn detected(os: Os, hwcap: Option<u64>) -> Result<Variant, DetectError> {
        match os {
            Os::Windows => Ok(Variant::Neon),
            Os::OpenBsd => Ok(Variant::Basic),
            Os::Android | Os::FreeBsd | Os::Linux => match hwcap {
                None => Err(DetectError::QueryFailed),
                Some(bits) => if bits & HWCAP_NEON == HWCAP_NEON {
                    Ok(Variant::Neon)
                } else {
                    Ok(Variant::Basic)
                },
            },
            _ => Err(DetectError::Unsupported),
        }
    }

    /// Determines the variant from the operating system and the hardware
    /// capabilities that it reported.
    pub fn detect(os: Os, hwcap: Option<u64>) -> (result: Result<Variant, DetectError>)
        ensures
            result == Self::detected(os, hwcap),
            result matches Ok(variant) ==> variant.available(os),
    {
        match os {
            Os::Windows => Ok(Variant::Neon),
            Os::OpenBsd => Ok(Variant::Basic),
            Os::Android | Os::FreeBsd | Os::Linux => match hwcap {
                None => Err(DetectError::QueryFailed),
                Some(bits) => if bits & HWCAP_NEON == HWCAP_NEON {
                    Ok(Variant::Neon)
                } else {
                    Ok(Variant::Basic)
                },
            },
            _ => Err(DetectError::Unsupported),
        }
    }

    /// The variant depends on the operating system and on the NEON bit of
    /// the capabilities alone: reports that agree in this bit give the same
    /// variant, whatever else they hold.
    pub proof fn lemma_detection_is_stable(os: Os, first: u64, second: u64)
        requires
            first & HWCAP_NEON == second & HWCAP_NEON,
        ensures
            Self::detected(os, Some(first)) == Self::detected(os, Some(second)),
    {
    }

    /// The dispatch table for this variant: its routine is made for ARM and
    /// declares as clobbered exactly the vector banks that the variant
    /// exposes.
    pub fn vtable(self) -> (table: VTable)
        ensures
            table.switch == match self {
                Variant::Basic => Routine::ArmBasic,
                Variant::Neon => Routine::ArmNeon,
            },
            table.switch.arch() == Arch::Arm,
            table.switch.link_register_saved(),
            forall|bank: VectorBank| table.switch.clobbers(bank) == self.exposes(bank),
    {
        match self {
            Variant::Basic => VTable { switch: Routine::ArmBasic },
            Variant::Neon => VTable { switch: Routine::ArmNeon },
        }
    }
}

} // verus!
