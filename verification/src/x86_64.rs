//! x86-64: the processor may or may not have the AVX-512 registers.

use crate::dispatch::{DetectError, Routine, VTable, VectorBank};
use crate::platform::Arch;
use vstd::prelude::*;

verus! {

/// The register sets that an x86-64 processor can have.
#[derive(Clone, Copy, PartialEq, Eq, Structural, Debug)]
pub enum Profile {
    /// The general registers and `xmm0` to `xmm15`.
    Basic,
    /// In addition `xmm16` to `xmm31` and the mask registers.
    Avx512,
}

/// The AVX-512 feature flags of a processor.
#[derive(Clone, Copy, PartialEq, Eq, Structural, Debug)]
pub struct Avx512Features {
    pub ifma: bool,
    pub bw: bool,
    pub cd: bool,
    pub dq: bool,
    pub er: bool,
    pub f: bool,
    pub pf: bool,
    pub vl: bool,
    pub vnni: bool,
}

impl Avx512Features {
    /// Whether any of the flags is set.
    pub open spec fn any(self) -> bool {
        self.ifma || self.bw || self.cd || self.dq || self.er || self.f || self.pf || self.vl
            || self.vnni
    }
}

/// Whether the processor has any part of AVX-512, and with it the registers
/// that AVX-512 adds.
pub fn has_avx512(ef: Avx512Features) -> (present: bool)
    ensures
        present == ef.any(),
{
    ef.ifma || ef.bw || ef.cd || ef.dq || ef.er || ef.f || ef.pf || ef.vl || ef.vnni
}

/// The vendor name of AMD processors.
pub open spec fn amd() -> Seq<char> {
    "AuthenticAMD"@
}

/// The vendor name of Intel processors.
pub open spec fn intel() -> Seq<char> {
    "GenuineIntel"@
}

/// The characters of a vendor name, where there is one.
pub open spec fn name_of(vendor: Option<String>) -> Option<Seq<char>> {
    match vendor {
        Some(name) => Some(name@),
        None => None,
    }
}

/// The vendor name that the processor reports, if it reports one.
///
/// Calls `raw_cpuid::CpuId::new`, `get_vendor_info` and `VendorInfo::as_str`.
/// What comes back is a fact about the machine, so nothing is claimed of it.
#[verifier::external_body]
fn cpu_vendor() -> Option<String> {
    let vendor = raw_cpuid::CpuId::new().get_vendor_info()?;
    Some(vendor.as_str().to_owned())
}

/// The AVX-512 flags among the processor's extended features, if it reports
/// extended features.
///
/// Calls `raw_cpuid::CpuId::new`, `get_extended_feature_info` and the
/// `has_avx512*` accessors of `ExtendedFeatures`, one for each field. What
/// comes back is a fact about the machine, so nothing is claimed of it.
#[verifier::external_body]
fn cpu_avx512_features() -> Option<Avx512Features> {
    let ef = raw_cpuid::CpuId::new().get_extended_feature_info()?;
    Some(
        Avx512Features {
            ifma: ef.has_avx512_ifma(),
            bw: ef.has_avx512bw(),
            cd: ef.has_avx512cd(),
            dq: ef.has_avx512dq(),
            er: ef.has_avx512er(),
            f: ef.has_avx512f(),
            pf: ef.has_avx512pf(),
            vl: ef.has_avx512vl(),
            vnni: ef.has_avx512vnni(),
        },
    )
}

impl Profile {
    /// Whether code for this profile may hold live values in `bank`.
    pub open spec fn exposes(self, bank: VectorBank) -> bool {
        bank is Sse || (self is Avx512 && bank is Avx512)
    }

    /// Whether `result` is the profile of a processor that reports `vendor`
    /// and `features` (`None`: it does not report them).
    ///
    /// AMD processors are run with the basic profile. Intel processors are
    /// run with the AVX-512 profile exactly if they report any AVX-512
    /// feature. A processor of any other vendor, or one that does not report
    /// what is needed, is not run at all.
    pub open spec fn classifies(
        vendor: Option<Seq<char>>,
        features: Option<Avx512Features>,
        result: Result<Profile, DetectError>,
    ) -> bool {
        match vendor {
            None => result == Err::<Profile, DetectError>(DetectError::QueryFailed),
            Some(name) => if name == amd() {
                result == Ok::<Profile, DetectError>(Profile::Basic)
            } else if name == intel() {
                match features {
                    None => result == Err::<Profile, DetectError>(DetectError::QueryFailed),
                    Some(ef) => result == Ok::<Profile, DetectError>(
                        if ef.any() {
                            Profile::Avx512
                        } else {
                            Profile::Basic
                        },
                    ),
                }
            } else {
                result matches Err(DetectError::UnknownVendor(unknown)) && unknown@ == name
            },
        }
    }

    /// Whether the profile of a processor of this vendor depends on its
    /// extended features.
    fn needs_features(vendor: &Option<String>) -> (needed: bool)
        ensures
            needed == (vendor matches Some(name) && name@ == intel()),
    {
        match vendor {
            None => false,
            Some(name) => {
                let intel: String = "GenuineIntel".to_owned();
                *name == intel
            },
        }
    }

    /// Determines the profile from what the processor reported.
    pub fn classify(vendor: Option<String>, features: Option<Avx512Features>) -> (result: Result<
        Profile,
        DetectError,
    >)
        ensures
            Self::classifies(name_of(vendor), features, result),
    {
        let name: String = match vendor {
            None => {
                return Err(DetectError::QueryFailed);
            },
            Some(name) => name,
        };
        let amd: String = "AuthenticAMD".to_owned();
        let intel: String = "GenuineIntel".to_owned();
        if name == amd {
            Ok(Profile::Basic)
        } else if name == intel {
            match features {
                None => Err(DetectError::QueryFailed),
                Some(ef) => if has_avx512(ef) {
                    Ok(Profile::Avx512)
                } else {
                    Ok(Profile::Basic)
                },
            }
        } else {
            Err(DetectError::UnknownVendor(name))
        }
    }

    /// What a processor reports settles its profile: two classifications of
    /// the same report agree, in the profile and in the failure.
    pub proof fn lemma_classification_is_stable(
        vendor: Option<Seq<char>>,
        features: Option<Avx512Features>,
        first: Result<Profile, DetectError>,
        second: Result<Profile, DetectError>,
    )
        requires
            Self::classifies(vendor, features, first),
            Self::classifies(vendor, features, second),
        ensures
            first matches Ok(profile) ==> second == Ok::<Profile, DetectError>(profile),
            first matches Err(DetectError::QueryFailed) ==> second matches Err(
                DetectError::QueryFailed,
            ),
            first matches Err(DetectError::UnknownVendor(name)) ==> (second matches Err(
                DetectError::UnknownVendor(other),
            ) && other@ == name@),
            !(first matches Err(DetectError::Unsupported)),
    {
    }

    /// Queries the processor and determines its profile.
    ///
    /// The extended features are queried only where the vendor makes the
    /// profile depend on them.
    pub fn detect() -> (result: Result<Profile, DetectError>)
        ensures
            exists|vendor: Option<Seq<char>>, features: Option<Avx512Features>|
                Self::classifies(vendor, features, result),
    {
        let vendor: Option<String> = cpu_vendor();
        let features: Option<Avx512Features> = if Self::needs_features(&vendor) {
            cpu_avx512_features()
        } else {
            None
        };
        let ghost reported: Option<Seq<char>> = name_of(vendor);
        let result = Self::classify(vendor, features);
        assert(Self::classifies(reported, features, result));
        result
    }

    /// The dispatch table for a profile: its routine is made for x86-64 and
    /// declares as clobbered exactly the vector banks that the profile
    /// exposes.
    pub fn vtable(variant: Profile) -> (table: VTable)
        ensures
            table.switch == match variant {
                Profile::Basic => Routine::X86_64Basic,
                Profile::Avx512 => Routine::X86_64Avx512,
            },
            table.switch.arch() == Arch::X86_64,
            !table.switch.link_register_saved(),
            forall|bank: VectorBank| table.switch.clobbers(bank) == variant.exposes(bank),
    {
        match variant {
            Profile::Basic => VTable { switch: Routine::X86_64Basic },
            Profile::Avx512 => VTable { switch: Routine::X86_64Avx512 },
        }
    }
}

/// A memory mapping of `mmap_rs` with read and write access. It is given
/// back to the system when it is dropped.
#[verifier::external_type_specification]
#[verifier::external_body]
pub struct ExMmapMut(mmap_rs::MmapMut);

/// The error type of `mmap_rs`.
#[verifier::external_type_specification]
#[verifier::external_body]
pub struct ExMmapError(mmap_rs::Error);

/// Why no stack was allocated.
#[derive(PartialEq, Eq, Debug)]
pub enum StackError {
    /// The mapping was refused; carries the reason in words.
    Refused(String),
    /// The mapping that was made runs past the end of the address space.
    OutOfRange,
}

/// A stack of its own mapping. The memory is given back to the system when
/// the value is dropped.
pub struct Stack {
    #[allow(dead_code)]
    mapping: mmap_rs::MmapMut,
    start: usize,
    size: usize,
}

impl Stack {
    /// The lowest address of the stack.
    pub closed spec fn base(&self) -> usize {
        self.start
    }

    /// The number of bytes of the stack.
    pub closed spec fn len(&self) -> usize {
        self.size
    }

    /// A stack begins above the null address and ends inside the address
    /// space.
    #[verifier::type_invariant]
    pub open spec fn wf(&self) -> bool {
        self.base() != 0 && self.base() + self.len() <= usize::MAX
    }

    /// Makes a stack of a mapping of `size` bytes at the address `start`,
    /// unless the mapping does not lie in the address space.
    pub fn new(mapping: mmap_rs::MmapMut, start: usize, size: usize) -> (result: Result<
        Stack,
        StackError,
    >)
        ensures
            if start != 0 && start + size <= usize::MAX {
                result matches Ok(stack) && stack.base() == start && stack.len() == size
            } else {
                result matches Err(StackError::OutOfRange)
            },
    {
        if start == 0 || start.checked_add(size).is_none() {
            Err(StackError::OutOfRange)
        } else {
            Ok(Stack { mapping, start, size })
        }
    }

    /// The lowest address of the stack.
    pub fn start(&self) -> (address: usize)
        ensures
            address == self.base(),
    {
        self.start
    }

    /// The number of bytes of the stack.
    pub fn size(&self) -> (bytes: usize)
        ensures
            bytes == self.len(),
    {
        self.size
    }

    /// The highest address of the stack, where a stack that grows downwards
    /// begins.
    pub fn top(&self) -> (address: usize)
        ensures
            address == self.base() + self.len(),
    {
        proof {
            use_type_invariant(self);
        }
        self.start + self.size
    }
}

/// Maps `size` bytes of anonymous memory with read and write access, asking
/// the system for a stack, and gives the mapping with its start address and
/// its size.
///
/// Calls `mmap_rs::MmapOptions::new`, `with_flags` with `MmapFlags::STACK`
/// and `map_mut`, then `MmapMut::start` and `MmapMut::size`. A mapping that
/// was made has the size that was asked for and does not start at the null
/// address. Whether one is made is up to the system.
#[verifier::external_body]
fn map_stack(size: usize) -> (result: Result<(mmap_rs::MmapMut, usize, usize), mmap_rs::Error>)
    ensures
        result matches Ok(made) ==> (made.1 != 0 && made.2 == size),
{
    let mapping = mmap_rs::MmapOptions::new(size)?.with_flags(mmap_rs::MmapFlags::STACK).map_mut()?;
    let start = mapping.start();
    let len = mapping.size();
    Ok((mapping, start, len))
}

/// The message of an error of `mmap_rs`, as its `Display` writes it.
#[verifier::external_body]
fn refusal(error: &mmap_rs::Error) -> String {
    format!("{}", error)
}

/// Allocates memory for a stack of `size` bytes.
///
/// The system is unlikely to grant a size that is not a multiple of its page
/// size.
pub fn allocate_stack(size: usize) -> (result: Result<Stack, StackError>)
    ensures
        result matches Ok(stack) ==> (stack.len() == size && stack.base() != 0 && stack.base()
            + size <= usize::MAX),
{
    Stack::from_mapping(map_stack(size))
}

impl Stack {
    /// What becomes of the outcome of a mapping call. A mapping that was made
    /// becomes a stack of its span, the size and the start address that the
    /// call reported, unless that span does not lie in the address space. A
    /// mapping that was refused is an error that carries the reason in words.
    pub fn from_mapping(
        outcome: Result<(mmap_rs::MmapMut, usize, usize), mmap_rs::Error>,
    ) -> (result: Result<Stack, StackError>)
        ensures
            match outcome {
                Ok(made) => if made.1 != 0 && made.1 + made.2 <= usize::MAX {
                    result matches Ok(stack) && stack.base() == made.1 && stack.len() == made.2
                } else {
                    result matches Err(StackError::OutOfRange)
                },
                Err(_) => result matches Err(StackError::Refused(_)),
            },
    {
        match outcome {
            Ok((mapping, start, size)) => Stack::new(mapping, start, size),
            Err(error) => Err(StackError::Refused(refusal(&error))),
        }
    }
}

} // verus!
