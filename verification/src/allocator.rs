//! Guarded stacks: the page size, the rounding of sizes to whole pages, and
//! the steps by which a stack is mapped with an inaccessible page below it
//! and given back.
//!
//! An allocation is a short exchange. `map` names the first mapping call;
//! the caller performs it and passes what it returned to
//! `MapState::advance`, which names the next call or ends the allocation.

use crate::platform::Os;
use vstd::arithmetic::power::pow;
use vstd::arithmetic::power2::{is_pow2, is_pow2_equiv, lemma2_to64, lemma_pow2_strictly_increases};
use vstd::bits::lemma_usize_low_bits_mask_is_mod;
use vstd::prelude::*;

verus! {

/// The smallest positive multiple of `page` that is at least `size`.
///
/// A request of zero bytes still occupies one page.
pub open spec fn round_up(size: nat, page: nat) -> nat {
    if size == 0 {
        page
    } else {
        ((((size - 1) / (page as int)) + 1) * page) as nat
    }
}

/// `round_up` is a positive multiple of the page size, reaches the requested
/// size, and overshoots it by less than one page.
pub proof fn lemma_round_up_bounds(size: nat, page: nat)
    requires
        page > 0,
    ensures
        round_up(size, page) % page == 0,
        round_up(size, page) >= size,
        round_up(size, page) >= page,
        size > 0 ==> round_up(size, page) < size + page,
{
    if size > 0 {
        let q: int = (size - 1) / (page as int);
        let p: int = page as int;
        let s: int = size as int;
        assert(q >= 0 && q * p <= s - 1 && s - 1 < q * p + p && ((q + 1) * p) % p == 0 && (q + 1)
            * p == q * p + p) by (nonlinear_arith)
            requires
                p > 0,
                s >= 1,
                q == (s - 1) / p,
        ;
    } else {
        assert(page % page == 0) by (nonlinear_arith)
            requires
                page > 0,
        ;
    }
}

/// No positive multiple of the page size that reaches `size` is smaller than
/// `round_up(size, page)`.
pub proof fn lemma_round_up_least(size: nat, page: nat, multiple: nat)
    requires
        page > 0,
        multiple > 0,
        multiple % page == 0,
        multiple >= size,
    ensures
        round_up(size, page) <= multiple,
{
    let p: int = page as int;
    let m: int = multiple as int;
    if size > 0 {
        let s: int = size as int;
        let q: int = (s - 1) / p;
        assert((q + 1) * p <= m) by (nonlinear_arith)
            requires
                p > 0,
                s >= 1,
                m >= s,
                m % p == 0,
                q == (s - 1) / p,
        ;
    } else {
        assert(p <= m) by (nonlinear_arith)
            requires
                p > 0,
                m > 0,
                m % p == 0,
        ;
    }
}

/// How `round_up` is reached from the remainder of `size` by the page size.
proof fn lemma_round_up_by_remainder(size: nat, page: nat)
    requires
        size > 0,
        page > 0,
    ensures
        size % page <= size,
        size % page == 0 ==> round_up(size, page) == size,
        size % page != 0 ==> round_up(size, page) == size - size % page + page,
{
    let p: int = page as int;
    let s: int = size as int;
    let q: int = (s - 1) / p;
    let r: int = s % p;
    assert(r <= s && (r == 0 ==> (q + 1) * p == s) && (r != 0 ==> (q + 1) * p == s - r + p))
        by (nonlinear_arith)
        requires
            p > 0,
            s >= 1,
            q == (s - 1) / p,
            r == s % p,
    ;
}

/// Why a request to the allocator did not produce what was asked for.
#[derive(Clone, Copy, PartialEq, Eq, Structural, Debug)]
pub enum AllocError {
    /// The operating system refused the request; carries its error code.
    Os(i32),
    /// The request is larger than the address space can hold.
    OutOfMemory,
    /// The operating system reported a page size that is not a power of two
    /// below 2^32.
    PageSize,
    /// A mapping call reported success and returned the null address.
    NullMapping,
    /// The operating system refused to turn the first page into a guard page.
    GuardFailed,
    /// Guarding the first page reported success and returned the null address.
    GuardNull,
    /// The guard page was placed somewhere else than on the first page.
    GuardMoved,
    /// A mapping call reported success with an address that is not
    /// page-aligned, or with a range that runs past the end of the address
    /// space.
    BadAddress,
}

impl AllocError {
    /// Only a refusal by the operating system, or a request that cannot be
    /// expressed, leaves the process in a state it can continue from.
    pub open spec fn fatal(self) -> bool {
        !(self is Os || self is OutOfMemory)
    }

    /// Whether the process has to stop.
    pub fn is_fatal(&self) -> (fatal: bool)
        ensures
            fatal == self.fatal(),
    {
        match self {
            AllocError::Os(_) => false,
            AllocError::OutOfMemory => false,
            _ => true,
        }
    }
}

/// For a 32-bit number, being a power of two is having exactly one bit set.
proof fn lemma_single_bit(n: u32)
    ensures
        is_pow2(n as int) <==> (n != 0 && n & ((n - 1) as u32) == 0),
    decreases n,
{
    reveal(is_pow2);
    if n == 0 {
    } else if n == 1 {
        assert(1u32 & ((1u32 - 1) as u32) == 0) by (bit_vector);
    } else {
        let half: u32 = n / 2;
        lemma_single_bit(half);
        assert((n % 2 == 0 && half != 0 && half & ((half - 1) as u32) == 0) <==> n & ((n - 1) as u32)
            == 0) by (bit_vector)
            requires
                n > 1,
                half == n / 2,
        ;
    }
}

/// Masking with a power of two less one takes the remainder.
proof fn lemma_mask_is_remainder(size: usize, page: usize)
    requires
        is_pow2(page as int),
        page <= u32::MAX,
    ensures
        size & ((page - 1) as usize) == size % page,
{
    is_pow2_equiv(page as int);
    let exponent: nat = choose|i: nat| pow(2, i) == page as int;
    lemma2_to64();
    if exponent > 32 {
        lemma_pow2_strictly_increases(32, exponent);
    }
    lemma_usize_low_bits_mask_is_mod(size, exponent);
}

/// The page size of the running system: a power of two that fits in 32 bits.
#[derive(Clone, Copy)]
pub struct PageSize(u32);

impl View for PageSize {
    type V = nat;

    closed spec fn view(&self) -> nat {
        self.0 as nat
    }
}

impl PageSize {
    /// Every page size is a power of two.
    #[verifier::type_invariant]
    pub open spec fn wf(self) -> bool {
        is_pow2(self@ as int) && self@ <= u32::MAX
    }

    /// What a page-size query that returned `report` amounts to.
    ///
    /// A report of -1 means that the query failed, and `errno` says why. Any
    /// other report is the page size, and is accepted when it is a power of
    /// two that fits in 32 bits.
    pub open spec fn reported(report: int, errno: i32) -> Result<nat, AllocError> {
        if report == -1 {
            Err(AllocError::Os(errno))
        } else if is_pow2(report) && report <= u32::MAX {
            Ok(report as nat)
        } else {
            Err(AllocError::PageSize)
        }
    }

    /// Interprets the outcome of the system's page-size query: the value it
    /// returned and the error code that was current when it returned.
    pub fn get(report: i64, errno: i32) -> (result: Result<PageSize, AllocError>)
        ensures
            match Self::reported(report as int, errno) {
                Ok(bytes) => result matches Ok(page) && page@ == bytes,
                Err(error) => result == Err::<PageSize, AllocError>(error),
            },
    {
        if report == -1 {
            return Err(AllocError::Os(errno));
        }
        proof {
            reveal(is_pow2);
        }
        if report <= 0 || report > 0xffff_ffff {
            return Err(AllocError::PageSize);
        }
        let bytes: u32 = report as u32;
        proof {
            lemma_single_bit(bytes);
        }
        if bytes & (bytes - 1) == 0 {
            Ok(PageSize(bytes))
        } else {
            Err(AllocError::PageSize)
        }
    }

    /// The page size in bytes.
    pub fn size(self) -> (bytes: usize)
        ensures
            bytes == self@,
    {
        self.0 as usize
    }

    /// Splits the rounded size in two: what `size` holds in whole pages, and
    /// the page that makes up for the rest.
    fn split(self, size: usize) -> (parts: (usize, usize))
        ensures
            parts.0 + parts.1 == round_up(size as nat, self@),
    {
        proof {
            use_type_invariant(self);
            reveal(is_pow2);
        }
        let page: usize = self.0 as usize;
        if size == 0 {
            return (0, page);
        }
        let remainder: usize = size & (page - 1);
        proof {
            lemma_mask_is_remainder(size, page);
            lemma_round_up_by_remainder(size as nat, page as nat);
        }
        if remainder == 0 {
            (size, 0)
        } else {
            (size - remainder, page)
        }
    }

    /// Rounds `size` up to whole pages; a request of zero bytes takes one page.
    pub fn round(self, size: usize) -> (rounded: usize)
        requires
            round_up(size as nat, self@) <= usize::MAX,
        ensures
            rounded == round_up(size as nat, self@),
    {
        let (whole, extra) = self.split(size);
        whole + extra
    }

    /// Rounds `size` up to whole pages, or tells that the result does not fit
    /// in the address space.
    pub fn checked_round(self, size: usize) -> (rounded: Option<usize>)
        ensures
            rounded == if round_up(size as nat, self@) <= usize::MAX {
                Some(round_up(size as nat, self@) as usize)
            } else {
                None::<usize>
            },
    {
        let (whole, extra) = self.split(size);
        whole.checked_add(extra)
    }
}

/// One allocated stack: `size` usable bytes from the address `start` upwards.
#[derive(Clone, Copy, PartialEq, Eq, Structural, Debug)]
pub struct MappedRegion {
    pub start: usize,
    pub size: usize,
}

impl MappedRegion {
    /// The region is made of whole pages, starts on a page boundary above the
    /// first page of the address space, and ends inside the address space.
    pub open spec fn wf(self, page: nat) -> bool {
        &&& page > 0
        &&& self.start as nat % page == 0
        &&& self.start >= page
        &&& self.size as nat % page == 0
        &&& self.size >= page
        &&& self.start + self.size <= usize::MAX
    }

    /// The address of the page directly below the region: its guard page.
    pub open spec fn guard_start(self, page: nat) -> int {
        self.start - page
    }

    /// The highest address of the region, where a stack that grows downwards
    /// begins.
    pub fn top(&self) -> (address: usize)
        requires
            self.start + self.size <= usize::MAX,
        ensures
            address == self.start + self.size,
    {
        self.start + self.size
    }
}

/// How the page below a stack is made inaccessible.
#[derive(Clone, Copy, PartialEq, Eq, Structural, Debug)]
pub enum GuardStrategy {
    /// The operating system guards a mapping that is requested as a stack.
    Native,
    /// One page more is reserved, and the first page is mapped again without
    /// any access.
    Manual,
}

impl GuardStrategy {
    /// The strategy under `os`, where the allocator works under it: the BSDs
    /// and Linux guard a stack mapping themselves; on every other Unix the
    /// library places the guard page. Windows has no such mappings.
    pub open spec fn of(os: Os) -> Option<GuardStrategy> {
        match os {
            Os::DragonFly | Os::FreeBsd | Os::Linux | Os::NetBsd | Os::OpenBsd => Some(
                GuardStrategy::Native,
            ),
            Os::Android | Os::Darwin | Os::OtherUnix => Some(GuardStrategy::Manual),
            Os::Windows => None,
        }
    }

    /// Selects the strategy for an operating system.
    pub fn for_os(os: Os) -> (strategy: Option<GuardStrategy>)
        ensures
            strategy == Self::of(os),
    {
        match os {
            Os::DragonFly | Os::FreeBsd | Os::Linux | Os::NetBsd | Os::OpenBsd => Some(
                GuardStrategy::Native,
            ),
            Os::Android | Os::Darwin | Os::OtherUnix => Some(GuardStrategy::Manual),
            Os::Windows => None,
        }
    }
}

/// The access that a mapping allows.
#[derive(Clone, Copy, PartialEq, Eq, Structural, Debug)]
pub enum Protection {
    ReadWrite,
    NoAccess,
}

/// An anonymous shared mapping for the caller to request.
#[derive(Clone, Copy, PartialEq, Eq, Structural, Debug)]
pub struct MapCall {
    /// Where the mapping is wanted; zero leaves the choice to the system.
    pub addr: usize,
    /// The length of the mapping in bytes.
    pub len: usize,
    pub prot: Protection,
    /// Whether the mapping is requested as a stack.
    pub stack: bool,
}

/// What a mapping call came back with.
#[derive(Clone, Copy, PartialEq, Eq, Structural, Debug)]
pub enum MapReturn {
    /// The call failed; carries the system's error code.
    Failed(i32),
    /// The call reported success and returned this address.
    Address(usize),
}

/// Where an allocation stands while one of its mapping calls is under way.
#[derive(Clone, Copy, PartialEq, Eq, Structural, Debug)]
pub enum MapState {
    /// The reservation has been requested; `usable` bytes of it are the stack.
    Reserving { usable: usize, strategy: GuardStrategy },
    /// The page at `base` is being turned into the guard page.
    Guarding { base: usize, usable: usize },
}

/// What the caller does next.
#[derive(Clone, Copy, PartialEq, Eq, Debug)]
pub enum MapAction {
    /// Perform the call, then hand what it returned to `MapState::advance`.
    Call(MapCall, MapState),
    /// The allocation has ended.
    Done(Result<MappedRegion, AllocError>),
}

/// The number of bytes that are reserved for a stack of `usable` bytes.
pub open spec fn reservation(usable: nat, page: nat, strategy: GuardStrategy) -> nat {
    match strategy {
        GuardStrategy::Native => usable,
        GuardStrategy::Manual => usable + page,
    }
}

/// How an allocation of `size` bytes begins.
pub open spec fn map_begins(size: nat, page: nat, strategy: GuardStrategy) -> MapAction {
    let usable = round_up(size, page);
    let len = reservation(usable, page, strategy);
    if len > usize::MAX {
        MapAction::Done(Err(AllocError::OutOfMemory))
    } else {
        MapAction::Call(
            MapCall {
                addr: 0,
                len: len as usize,
                prot: Protection::ReadWrite,
                stack: strategy is Native,
            },
            MapState::Reserving { usable: usable as usize, strategy },
        )
    }
}

/// Begins the allocation of a guarded stack of at least `size` bytes.
///
/// The size is rounded up to whole pages. The reservation is requested with
/// read and write access, as a stack where the system guards stacks itself,
/// and one page longer where it does not. A size that cannot be rounded
/// within the address space is reported as out of memory.
pub fn map(size: usize, page_size: PageSize, strategy: GuardStrategy) -> (action: MapAction)
    ensures
        action == map_begins(size as nat, page_size@, strategy),
{
    let usable: usize = match page_size.checked_round(size) {
        Some(usable) => usable,
        None => {
            return MapAction::Done(Err(AllocError::OutOfMemory));
        },
    };
    let len: usize = match strategy {
        GuardStrategy::Native => usable,
        GuardStrategy::Manual => match usable.checked_add(page_size.size()) {
            Some(len) => len,
            None => {
                return MapAction::Done(Err(AllocError::OutOfMemory));
            },
        },
    };
    let stack: bool = match strategy {
        GuardStrategy::Native => true,
        GuardStrategy::Manual => false,
    };
    MapAction::Call(
        MapCall { addr: 0, len, prot: Protection::ReadWrite, stack },
        MapState::Reserving { usable, strategy },
    )
}

impl MapState {
    /// How an allocation goes on when the call it waited for has returned.
    pub open spec fn advances(self, ret: MapReturn, page: nat) -> MapAction {
        match self {
            MapState::Reserving { usable, strategy } => match ret {
                MapReturn::Failed(errno) => MapAction::Done(Err(AllocError::Os(errno))),
                MapReturn::Address(addr) => if addr == 0 {
                    MapAction::Done(Err(AllocError::NullMapping))
                } else if addr as nat % page != 0 || addr + reservation(
                    usable as nat,
                    page,
                    strategy,
                ) > usize::MAX {
                    MapAction::Done(Err(AllocError::BadAddress))
                } else {
                    match strategy {
                        GuardStrategy::Native => MapAction::Done(
                            Ok(MappedRegion { start: addr, size: usable }),
                        ),
                        GuardStrategy::Manual => MapAction::Call(
                            MapCall {
                                addr,
                                len: page as usize,
                                prot: Protection::NoAccess,
                                stack: false,
                            },
                            MapState::Guarding { base: addr, usable },
                        ),
                    }
                },
            },
            MapState::Guarding { base, usable } => match ret {
                MapReturn::Failed(_) => MapAction::Done(Err(AllocError::GuardFailed)),
                MapReturn::Address(addr) => if addr == 0 {
                    MapAction::Done(Err(AllocError::GuardNull))
                } else if addr != base {
                    MapAction::Done(Err(AllocError::GuardMoved))
                } else if base + page > usize::MAX {
                    MapAction::Done(Err(AllocError::BadAddress))
                } else {
                    MapAction::Done(
                        Ok(MappedRegion { start: (base + page) as usize, size: usable }),
                    )
                },
            },
        }
    }

    /// Takes what the pending mapping call returned and says how the
    /// allocation goes on.
    ///
    /// A failed reservation is an ordinary error with the system's code. A
    /// null address, an address off the page grid or out of range, and any
    /// failure to place the guard page on the first page of the reservation
    /// end the allocation with a fatal error.
    pub fn advance(self, ret: MapReturn, page_size: PageSize) -> (action: MapAction)
        ensures
            action == self.advances(ret, page_size@),
    {
        proof {
            use_type_invariant(page_size);
            reveal(is_pow2);
        }
        let page: usize = page_size.size();
        match self {
            MapState::Reserving { usable, strategy } => {
                let addr: usize = match ret {
                    MapReturn::Failed(errno) => {
                        return MapAction::Done(Err(AllocError::Os(errno)));
                    },
                    MapReturn::Address(addr) => addr,
                };
                if addr == 0 {
                    return MapAction::Done(Err(AllocError::NullMapping));
                }
                proof {
                    lemma_mask_is_remainder(addr, page);
                }
                if addr & (page - 1) != 0 {
                    return MapAction::Done(Err(AllocError::BadAddress));
                }
                let len: Option<usize> = match strategy {
                    GuardStrategy::Native => Some(usable),
                    GuardStrategy::Manual => usable.checked_add(page),
                };
                let fits: bool = match len {
                    Some(len) => addr.checked_add(len).is_some(),
                    None => false,
                };
                if !fits {
                    return MapAction::Done(Err(AllocError::BadAddress));
                }
                match strategy {
                    GuardStrategy::Native => MapAction::Done(
                        Ok(MappedRegion { start: addr, size: usable }),
                    ),
                    GuardStrategy::Manual => MapAction::Call(
                        MapCall { addr, len: page, prot: Protection::NoAccess, stack: false },
                        MapState::Guarding { base: addr, usable },
                    ),
                }
            },
            MapState::Guarding { base, usable } => {
                let addr: usize = match ret {
                    MapReturn::Failed(_) => {
                        return MapAction::Done(Err(AllocError::GuardFailed));
                    },
                    MapReturn::Address(addr) => addr,
                };
                if addr == 0 {
                    return MapAction::Done(Err(AllocError::GuardNull));
                }
                if addr != base {
                    return MapAction::Done(Err(AllocError::GuardMoved));
                }
                match base.checked_add(page) {
                    Some(start) => MapAction::Done(Ok(MappedRegion { start, size: usable })),
                    None => MapAction::Done(Err(AllocError::BadAddress)),
                }
            },
        }
    }
}

/// The span of addresses for the caller to release.
#[derive(Clone, Copy, PartialEq, Eq, Structural, Debug)]
pub struct UnmapCall {
    pub addr: usize,
    pub len: usize,
}

/// Whether `region` can have been reserved under `strategy`: with a guard
/// page of the library's own making, that page lies below the region and
/// both together fit in the address space.
pub open spec fn releasable(region: MappedRegion, page: nat, strategy: GuardStrategy) -> bool {
    strategy is Manual ==> region.start >= page && region.size + page <= usize::MAX
}

/// The span that was reserved for `region`: the region itself, and with it
/// the guard page below where the library placed that page.
pub open spec fn reserved_span(
    region: MappedRegion,
    page: nat,
    strategy: GuardStrategy,
) -> UnmapCall {
    match strategy {
        GuardStrategy::Native => UnmapCall { addr: region.start, len: region.size },
        GuardStrategy::Manual => UnmapCall {
            addr: (region.start - page) as usize,
            len: (region.size + page) as usize,
        },
    }
}

/// Says which span to release in order to give `region` back.
///
/// The region, the page size and the strategy are those of the allocation.
pub fn unmap(region: MappedRegion, page_size: PageSize, strategy: GuardStrategy) -> (call:
    UnmapCall)
    requires
        releasable(region, page_size@, strategy),
    ensures
        call == reserved_span(region, page_size@, strategy),
{
    match strategy {
        GuardStrategy::Native => UnmapCall { addr: region.start, len: region.size },
        GuardStrategy::Manual => {
            let page: usize = page_size.size();
            UnmapCall { addr: region.start - page, len: region.size + page }
        },
    }
}

/// Interprets what the release of a span returned: zero is success, anything
/// else an error with the system's code `errno`.
pub fn unmapped(status: i32, errno: i32) -> (result: Result<(), AllocError>)
    ensures
        result == if status == 0 {
            Ok::<(), AllocError>(())
        } else {
            Err::<(), AllocError>(AllocError::Os(errno))
        },
{
    if status == 0 {
        Ok(())
    } else {
        Err(AllocError::Os(errno))
    }
}

/// The first call of an allocation, where it makes one.
pub open spec fn first_call(size: nat, page: nat, strategy: GuardStrategy) -> Option<MapCall> {
    match map_begins(size, page, strategy) {
        MapAction::Call(call, _) => Some(call),
        MapAction::Done(_) => None,
    }
}

/// The second call of an allocation whose first call returned `first`, where
/// it makes one.
pub open spec fn second_call(
    size: nat,
    page: nat,
    strategy: GuardStrategy,
    first: MapReturn,
) -> Option<MapCall> {
    match map_begins(size, page, strategy) {
        MapAction::Call(_, state) => match state.advances(first, page) {
            MapAction::Call(call, _) => Some(call),
            MapAction::Done(_) => None,
        },
        MapAction::Done(_) => None,
    }
}

/// How an allocation ends whose calls return `first` and then `second`; a
/// return that the allocation does not wait for is not looked at.
pub open spec fn allocation(
    size: nat,
    page: nat,
    strategy: GuardStrategy,
    first: MapReturn,
    second: MapReturn,
) -> Result<MappedRegion, AllocError> {
    match map_begins(size, page, strategy) {
        MapAction::Done(result) => result,
        MapAction::Call(_, state) => match state.advances(first, page) {
            MapAction::Done(result) => result,
            MapAction::Call(_, state) => match state.advances(second, page) {
                MapAction::Done(result) => result,
                MapAction::Call(_, _) => Err(AllocError::BadAddress),
            },
        },
    }
}

/// An allocation makes one call where the system guards stacks and two where
/// it does not; after that it has ended.
pub proof fn lemma_allocation_ends(
    size: nat,
    page: nat,
    strategy: GuardStrategy,
    first: MapReturn,
    second: MapReturn,
)
    requires
        page > 0,
    ensures
        match map_begins(size, page, strategy) {
            MapAction::Done(_) => true,
            MapAction::Call(_, state) => match state.advances(first, page) {
                MapAction::Done(_) => true,
                MapAction::Call(_, state) => strategy is Manual && state.advances(second, page)
                    is Done,
            },
        },
{
}

/// A region that an allocation ends with has the size that was asked for,
/// rounded up to the smallest multiple of the page size that holds it, starts
/// on a page boundary and lies inside the address space.
pub proof fn lemma_allocation_is_page_granular(
    size: nat,
    page: nat,
    strategy: GuardStrategy,
    first: MapReturn,
    second: MapReturn,
)
    requires
        page > 0,
    ensures
        allocation(size, page, strategy, first, second) matches Ok(region) ==> {
            &&& region.size == round_up(size, page)
            &&& region.wf(page)
            &&& forall|multiple: nat|
                multiple > 0 && #[trigger] (multiple % page) == 0 && multiple >= size
                    ==> region.size <= multiple
        },
{
    lemma_round_up_bounds(size, page);
    if let Ok(region) = allocation(size, page, strategy, first, second) {
        assert forall|multiple: nat|
            multiple > 0 && #[trigger] (multiple % page) == 0 && multiple >= size implies region.size
            <= multiple by {
            lemma_round_up_least(size, page, multiple);
        }
        let addr = first->Address_0;
        assert(addr as nat % page == 0);
        assert(addr >= page) by (nonlinear_arith)
            requires
                addr != 0,
                page > 0,
                addr as nat % page == 0,
        ;
        if strategy is Manual {
            assert((addr + page) as nat % page == 0) by (nonlinear_arith)
                requires
                    page > 0,
                    addr as nat % page == 0,
            ;
        }
    }
}

/// Where the library places the guard page itself, a successful allocation
/// has reserved the region together with the page below it in one mapping,
/// and has then asked for exactly that page, at its own address, without any
/// access.
pub proof fn lemma_guard_page_precedes_region(
    size: nat,
    page: nat,
    first: MapReturn,
    second: MapReturn,
)
    requires
        page > 0,
    ensures
        allocation(size, page, GuardStrategy::Manual, first, second) matches Ok(region) ==> {
            &&& first == MapReturn::Address(region.guard_start(page) as usize)
            &&& first_call(size, page, GuardStrategy::Manual) matches Some(call) && call.len
                == page + region.size
            &&& second_call(size, page, GuardStrategy::Manual, first) == Some(
                (MapCall {
                    addr: region.guard_start(page) as usize,
                    len: page as usize,
                    prot: Protection::NoAccess,
                    stack: false,
                }),
            )
            &&& second == first
        },
{
}

/// Giving back a region that an allocation ended with releases exactly the
/// span that the allocation reserved: the address that its first call
/// returned, in the length that this call asked for.
pub proof fn lemma_unmap_releases_reservation(
    size: nat,
    page: nat,
    strategy: GuardStrategy,
    first: MapReturn,
    second: MapReturn,
)
    requires
        page > 0,
    ensures
        allocation(size, page, strategy, first, second) matches Ok(region) ==> {
            &&& releasable(region, page, strategy)
            &&& first_call(size, page, strategy) matches Some(call) && first
                == MapReturn::Address(reserved_span(region, page, strategy).addr)
                && reserved_span(region, page, strategy).len == call.len
        },
{
}

/// Giving back one region leaves every other allocation as it is: where two
/// allocations have reserved spans apart from each other, as a system hands
/// them out, the span that is released for the first holds no byte of what
/// was reserved for the second, its region and its guard page.
pub proof fn lemma_unmap_spares_other_regions(
    page: nat,
    strategy: GuardStrategy,
    size: nat,
    first: MapReturn,
    second: MapReturn,
    other_size: nat,
    other_first: MapReturn,
    other_second: MapReturn,
)
    requires
        page > 0,
        allocation(size, page, strategy, first, second) is Ok,
        allocation(other_size, page, strategy, other_first, other_second) is Ok,
        first->Address_0 + first_call(size, page, strategy)->Some_0.len
            <= other_first->Address_0 || other_first->Address_0 + first_call(
            other_size,
            page,
            strategy,
        )->Some_0.len <= first->Address_0,
    ensures
        ({
            let region = allocation(size, page, strategy, first, second)->Ok_0;
            let other = allocation(other_size, page, strategy, other_first, other_second)->Ok_0;
            let released = reserved_span(region, page, strategy);
            let kept = reserved_span(other, page, strategy);
            &&& released.addr + released.len <= kept.addr || kept.addr + kept.len <= released.addr
            &&& kept.addr <= other.start && other.start + other.size == kept.addr + kept.len
            &&& strategy is Manual ==> kept.addr == other.guard_start(page)
        }),
{
    lemma_unmap_releases_reservation(size, page, strategy, first, second);
    lemma_unmap_releases_reservation(other_size, page, strategy, other_first, other_second);
}

} // verus!
