//! Where a thread's stack guard lies.
//!
//! At the low end of a thread's stack lies a region that faults when the
//! stack grows into it. This module computes, from what the platform reports
//! of the stack, where that region is, whether a page has to be mapped for
//! it, and the bound that is handed to the runtime. The platform is asked,
//! and the page is mapped, by the caller.
//!
//! A running thread whose attributes show no guard, and a guard page that
//! was not mapped where it was asked for, leave the thread without the
//! protection it relies on: it must not go on. `has_guard` and
//! `mapped_in_place` tell these cases apart, and `current` and `finish` take
//! only what passed them.

use crate::target::Target;
use vstd::arithmetic::div_mod::{lemma_fundamental_div_mod, lemma_mod_multiples_basic};
use vstd::prelude::*;

verus! {

/// The facility by which a platform tells a thread of its own stack.
#[derive(Clone, Copy, Debug, PartialEq, Eq, Structural)]
pub enum Probe {
    /// The platform tells nothing of the stack, or guards are not kept on it.
    Unsupported,
    /// The thread's attributes: the lowest address of the stack, its size and
    /// the size of its guard.
    Attributes,
    /// The thread's stack segment: the top of the stack and its size.
    Segment,
    /// The bounds of the stack: its base.
    Bounds,
}

/// What the platform reported of the calling thread's stack.
#[derive(Clone, Copy, Debug, PartialEq, Eq, Structural)]
pub enum StackInfo {
    /// The platform could not tell of this thread's stack.
    Unavailable,
    /// The lowest address of the stack and its size, and the size of its
    /// guard where that was asked for.
    Attributes { addr: usize, size: usize, guard_size: Option<usize> },
    Segment { top: usize, size: usize, main_thread: bool },
    Base(usize),
}

/// Why no guard bound can be computed from what the platform reported.
#[derive(Clone, Copy, Debug, PartialEq, Eq, Structural)]
pub enum GuardFault {
    /// The page size is zero, or an address computed from what the platform
    /// reported does not fit the machine word.
    OutOfRange,
}

/// The page that is to be mapped as a guard: `len` bytes at exactly `addr`,
/// with no permission to read, write or execute, private to the process and
/// backed by no file.
#[derive(Clone, Copy, Debug, PartialEq, Eq, Structural)]
pub struct MapRequest {
    pub addr: usize,
    pub len: usize,
    pub readable: bool,
    pub writable: bool,
    pub executable: bool,
    pub private: bool,
    pub anonymous: bool,
    pub fixed: bool,
}

/// What came of mapping the guard page.
#[derive(Clone, Copy, Debug, PartialEq, Eq, Structural)]
pub enum MapOutcome {
    Failed,
    /// The page was mapped at this address.
    At(usize),
}

/// What is to be done for a thread's guard at its start.
#[derive(Clone, Copy, Debug, PartialEq, Eq, Structural)]
pub enum GuardPlan {
    /// The thread has no guard that this layer knows of.
    NoGuard,
    /// Nothing is mapped: the kernel keeps its own guard, and this is the
    /// address at which growth of the stack is expected to fault.
    Record(usize),
    /// This page is to be mapped.
    MapPage(MapRequest),
}

/// The facility that `target` offers. Guards are kept on Linux with the GNU C
/// library, FreeBSD, macOS, Bitrig, NetBSD, OpenBSD and Solaris.
pub open spec fn spec_probe(target: Target) -> Probe {
    match target {
        Target::Linux | Target::FreeBsd | Target::NetBsd => Probe::Attributes,
        Target::MacOs | Target::OpenBsd | Target::Bitrig => Probe::Segment,
        Target::Solaris => Probe::Bounds,
        _ => Probe::Unsupported,
    }
}

/// The facility by which the calling thread's stack is to be looked up on
/// `target`.
pub fn probe(target: Target) -> (p: Probe)
    ensures
        p == spec_probe(target),
{
    match target {
        Target::Linux | Target::FreeBsd | Target::NetBsd => Probe::Attributes,
        Target::MacOs | Target::OpenBsd | Target::Bitrig => Probe::Segment,
        Target::Solaris => Probe::Bounds,
        _ => Probe::Unsupported,
    }
}

/// Whether asking for the thread's attributes, which returned `status`, gave
/// them. Where it did not, the platform cannot tell of this thread's stack,
/// and the report is `Unavailable`.
pub fn attributes_available(status: i32) -> (available: bool)
    ensures
        available == (status == 0),
{
    status == 0
}

/// Whether the report tells of a guard: a report from the thread's
/// attributes does so where it holds the size of the guard and that size is
/// not zero; any other report does. A running thread whose attributes show no
/// guard has lost the protection it relies on and must not go on.
pub open spec fn spec_has_guard(target: Target, info: StackInfo) -> bool {
    match (spec_probe(target), info) {
        (Probe::Attributes, StackInfo::Attributes { addr, size, guard_size }) => guard_size
            matches Some(guard) && guard != 0,
        _ => true,
    }
}

/// Tests whether the report tells of a guard, which `current` asks for.
pub fn has_guard(target: Target, info: StackInfo) -> (r: bool)
    ensures
        r == spec_has_guard(target, info),
{
    match (probe(target), info) {
        (Probe::Attributes, StackInfo::Attributes { addr, size, guard_size }) => match guard_size {
            Some(guard) => guard != 0,
            None => false,
        },
        _ => true,
    }
}

/// An address, where it fits the machine word.
pub open spec fn address(x: int) -> Result<Option<usize>, GuardFault> {
    if 0 <= x <= usize::MAX {
        Ok(Some(x as usize))
    } else {
        Err(GuardFault::OutOfRange)
    }
}

/// The number of pages that lie between the low end of the main thread's
/// stack segment and its guard.
pub open spec fn spec_main_thread_pages(target: Target) -> int {
    if target == Target::Bitrig {
        3
    } else {
        1
    }
}

/// The guard bound of a running thread.
///
/// From the thread's attributes, which tell of a guard: the guard lies below
/// the stack on FreeBSD, at its lowest address on NetBSD, and above its
/// lowest address on Linux. From the stack segment: the low
/// end of the segment, which is its top less its size, and for the main
/// thread of OpenBSD and Bitrig that address raised by the pages the
/// platform keeps there. From the stack bounds: the base. A report that does
/// not come from the platform's own facility tells nothing, and an
/// unsupported platform has no guard.
pub open spec fn spec_current(target: Target, info: StackInfo, page_size: usize) -> Result<
    Option<usize>,
    GuardFault,
> {
    match (spec_probe(target), info) {
        (Probe::Attributes, StackInfo::Attributes { addr, size, guard_size: Some(guard) }) => {
            if target == Target::FreeBsd {
                address(addr - guard)
            } else if target == Target::NetBsd {
                address(addr as int)
            } else {
                address(addr + guard)
            }
        },
        (Probe::Segment, StackInfo::Segment { top, size, main_thread }) => {
            if target == Target::MacOs {
                address(top - size)
            } else if spec_main_thread_pages(target) * page_size > usize::MAX || top < size {
                Err(GuardFault::OutOfRange)
            } else if main_thread {
                address(top - size + spec_main_thread_pages(target) * page_size)
            } else {
                address(top - size)
            }
        },
        (Probe::Bounds, StackInfo::Base(base)) => Ok(Some(base)),
        _ => Ok(None),
    }
}

/// The guard bound of the calling thread, from what the platform reported of
/// its stack: `None` where the thread has no guard that can be known.
pub fn current(target: Target, info: StackInfo, page_size: usize) -> (r: Result<
    Option<usize>,
    GuardFault,
>)
    requires
        spec_has_guard(target, info),
    ensures
        r == spec_current(target, info, page_size),
{
    match (probe(target), info) {
        (Probe::Attributes, StackInfo::Attributes { addr, size, guard_size: Some(guard) }) => {
            if target == Target::FreeBsd {
                located(addr.checked_sub(guard))
            } else if target == Target::NetBsd {
                Ok(Some(addr))
            } else {
                located(addr.checked_add(guard))
            }
        },
        (Probe::Segment, StackInfo::Segment { top, size, main_thread }) => {
            if target == Target::MacOs {
                located(top.checked_sub(size))
            } else {
                let pages: usize = if target == Target::Bitrig {
                    3
                } else {
                    1
                };
                match (pages.checked_mul(page_size), top.checked_sub(size)) {
                    (Some(extra), Some(low)) => {
                        if main_thread {
                            located(low.checked_add(extra))
                        } else {
                            Ok(Some(low))
                        }
                    },
                    _ => Err(GuardFault::OutOfRange),
                }
            }
        },
        (Probe::Bounds, StackInfo::Base(base)) => Ok(Some(base)),
        _ => Ok(None),
    }
}

fn located(addr: Option<usize>) -> (r: Result<Option<usize>, GuardFault>)
    ensures
        r == (match addr {
            Some(a) => Ok::<Option<usize>, GuardFault>(Some(a)),
            None => Err::<Option<usize>, GuardFault>(GuardFault::OutOfRange),
        }),
{
    match addr {
        Some(a) => Ok(Some(a)),
        None => Err(GuardFault::OutOfRange),
    }
}

/// The lowest address of the calling thread's stack. Where the platform
/// tells of the stack by the thread's attributes this is the address they
/// hold, whatever the size of the guard; elsewhere it is the guard bound of
/// the running thread.
pub open spec fn spec_get_stack_start(target: Target, info: StackInfo, page_size: usize) -> Result<
    Option<usize>,
    GuardFault,
> {
    match (spec_probe(target), info) {
        (Probe::Attributes, StackInfo::Attributes { addr, size, guard_size }) => Ok(Some(addr)),
        (Probe::Attributes, _) => Ok(None),
        _ => spec_current(target, info, page_size),
    }
}

/// The lowest address of the calling thread's stack, from what the platform
/// reported of it.
pub fn get_stack_start(target: Target, info: StackInfo, page_size: usize) -> (r: Result<
    Option<usize>,
    GuardFault,
>)
    ensures
        r == spec_get_stack_start(target, info, page_size),
{
    match probe(target) {
        Probe::Attributes => match info {
            StackInfo::Attributes { addr, size, guard_size } => Ok(Some(addr)),
            _ => Ok(None),
        },
        _ => current(target, info, page_size),
    }
}

/// The least multiple of `page` that is not below `addr`.
pub open spec fn spec_align_up(addr: int, page: int) -> int
    recommends
        page > 0,
{
    if addr % page == 0 {
        addr
    } else {
        addr + page - addr % page
    }
}

/// Rounding up to a page gives a multiple of the page, not below the address
/// and less than a page above it.
pub proof fn lemma_align_up(addr: int, page: int)
    requires
        0 <= addr,
        0 < page,
    ensures
        spec_align_up(addr, page) % page == 0,
        addr <= spec_align_up(addr, page) < addr + page,
{
    let up = spec_align_up(addr, page);
    lemma_fundamental_div_mod(addr, page);
    let q = addr / page;
    if addr % page != 0 {
        assert(up == (q + 1) * page) by (nonlinear_arith)
            requires
                up == addr + page - addr % page,
                addr == page * q + addr % page,
        ;
        lemma_mod_multiples_basic(q + 1, page);
    }
}

/// Rounding up goes no further than it must: every multiple of the page that
/// is not below the address is not below the rounded address either.
pub proof fn law_align_up_least(addr: int, page: int, m: int)
    requires
        0 <= addr,
        0 < page,
        addr <= m,
        m % page == 0,
    ensures
        spec_align_up(addr, page) <= m,
{
    let up = spec_align_up(addr, page);
    lemma_align_up(addr, page);
    lemma_fundamental_div_mod(up, page);
    lemma_fundamental_div_mod(m, page);
    let k = m / page;
    let q = up / page;
    if up > m {
        assert(k < q) by (nonlinear_arith)
            requires
                page * k < page * q,
                0 < page,
        ;
        assert(page * k <= page * q - page) by (nonlinear_arith)
            requires
                k < q,
                0 < page,
        ;
    }
}

/// Rounds `addr` up to the next boundary of a page of `page` bytes. A parent
/// process may have changed the limits of the stack so that its lowest
/// address is on no such boundary.
pub fn align_up(addr: usize, page: usize) -> (r: Option<usize>)
    requires
        page > 0,
    ensures
        r == (if spec_align_up(addr as int, page as int) <= usize::MAX {
            Some(spec_align_up(addr as int, page as int) as usize)
        } else {
            None::<usize>
        }),
{
    let remainder = addr % page;
    if remainder == 0 {
        Some(addr)
    } else {
        addr.checked_add(page - remainder)
    }
}

/// The page that guards a stack: one page at `addr`, at that address and no
/// other, with no access at all, private and backed by no file.
pub open spec fn guard_page(addr: usize, page_size: usize) -> MapRequest {
    MapRequest {
        addr,
        len: page_size,
        readable: false,
        writable: false,
        executable: false,
        private: true,
        anonymous: true,
        fixed: true,
    }
}

/// What is to be done for the guard of a thread that starts.
///
/// A thread whose stack start cannot be known has no guard. Else the stack
/// start is rounded up to a page boundary. On Linux nothing is mapped and the
/// rounded address is recorded as the bound: the kernel keeps a guard of its
/// own, and would enforce a large unusable gap above a mapped page. On every
/// other platform one page is to be mapped at the rounded address.
pub open spec fn spec_init(target: Target, info: StackInfo, page_size: usize) -> Result<
    GuardPlan,
    GuardFault,
> {
    match spec_get_stack_start(target, info, page_size) {
        Err(fault) => Err(fault),
        Ok(None) => Ok(GuardPlan::NoGuard),
        Ok(Some(start)) => {
            if page_size == 0 || spec_align_up(start as int, page_size as int) > usize::MAX {
                Err(GuardFault::OutOfRange)
            } else if target == Target::Linux {
                Ok(GuardPlan::Record(spec_align_up(start as int, page_size as int) as usize))
            } else {
                Ok(
                    GuardPlan::MapPage(
                        guard_page(
                            spec_align_up(start as int, page_size as int) as usize,
                            page_size,
                        ),
                    ),
                )
            }
        },
    }
}

/// Plans the guard of the calling thread at its start, from what the
/// platform reported of its stack and the size of a page.
pub fn init(target: Target, info: StackInfo, page_size: usize) -> (r: Result<GuardPlan, GuardFault>)
    ensures
        r == spec_init(target, info, page_size),
{
    match get_stack_start(target, info, page_size) {
        Err(fault) => Err(fault),
        Ok(None) => Ok(GuardPlan::NoGuard),
        Ok(Some(start)) => {
            if page_size == 0 {
                return Err(GuardFault::OutOfRange);
            }
            match align_up(start, page_size) {
                None => Err(GuardFault::OutOfRange),
                Some(addr) => {
                    if target == Target::Linux {
                        Ok(GuardPlan::Record(addr))
                    } else {
                        Ok(
                            GuardPlan::MapPage(
                                MapRequest {
                                    addr,
                                    len: page_size,
                                    readable: false,
                                    writable: false,
                                    executable: false,
                                    private: true,
                                    anonymous: true,
                                    fixed: true,
                                },
                            ),
                        )
                    }
                },
            }
        },
    }
}

/// The number of pages between a mapped guard and the bound handed to the
/// runtime: two on FreeBSD, which keeps a page of its own there, one
/// elsewhere.
pub open spec fn spec_bound_pages(target: Target) -> int {
    if target == Target::FreeBsd {
        2
    } else {
        1
    }
}

/// Whether the guard page was mapped, and at the address asked for. A
/// mapping that failed, or that was placed anywhere else, guards nothing: the
/// thread must not go on.
pub fn mapped_in_place(request: &MapRequest, outcome: MapOutcome) -> (ok: bool)
    ensures
        ok == (outcome == MapOutcome::At(request.addr)),
{
    match outcome {
        MapOutcome::Failed => false,
        MapOutcome::At(at) => at == request.addr,
    }
}

/// The bound once the guard page is mapped in place: it lies the platform's
/// number of pages above the guard.
pub open spec fn spec_finish(target: Target, request: MapRequest) -> Result<usize, GuardFault> {
    if request.addr + spec_bound_pages(target) * request.len > usize::MAX {
        Err(GuardFault::OutOfRange)
    } else {
        Ok((request.addr + spec_bound_pages(target) * request.len) as usize)
    }
}

/// Gives the bound that is handed to the runtime once the guard page
/// `request` is mapped in place.
pub fn finish(target: Target, request: &MapRequest, outcome: MapOutcome) -> (r: Result<
    usize,
    GuardFault,
>)
    requires
        outcome == MapOutcome::At(request.addr),
    ensures
        r == spec_finish(target, *request),
{
    let pages: usize = if target == Target::FreeBsd {
        2
    } else {
        1
    };
    match pages.checked_mul(request.len) {
        None => Err(GuardFault::OutOfRange),
        Some(above) => match request.addr.checked_add(above) {
            None => Err(GuardFault::OutOfRange),
            Some(bound) => Ok(bound),
        },
    }
}

/// A guard page is only ever asked for on a page boundary, it is one page
/// long, and the bound that follows from it lies on a page boundary too. The
/// bound recorded on Linux, where nothing is mapped, lies on one as well.
pub proof fn law_guard_aligned(target: Target, info: StackInfo, page_size: usize)
    ensures
        spec_init(target, info, page_size) matches Ok(GuardPlan::MapPage(request)) ==> {
            &&& page_size > 0
            &&& request == guard_page(request.addr, page_size)
            &&& request.addr as int % page_size as int == 0
            &&& (spec_finish(target, request) matches Ok(bound) ==> bound as int
                % page_size as int == 0 && bound > request.addr)
        },
        spec_init(target, info, page_size) matches Ok(GuardPlan::Record(bound)) ==> page_size > 0
            && target == Target::Linux && bound as int % page_size as int == 0,
{
    match spec_get_stack_start(target, info, page_size) {
        Ok(Some(start)) => {
            if page_size > 0 {
                lemma_align_up(start as int, page_size as int);
                let addr = spec_align_up(start as int, page_size as int);
                let p = page_size as int;
                assert((addr + p) % p == 0 && (addr + 2 * p) % p == 0) by {
                    lemma_fundamental_div_mod(addr, p);
                    let q = addr / p;
                    assert(addr + p == (q + 1) * p && addr + 2 * p == (q + 2) * p)
                        by (nonlinear_arith)
                        requires
                            addr == p * q,
                    ;
                    lemma_mod_multiples_basic(q + 1, p);
                    lemma_mod_multiples_basic(q + 2, p);
                }
            }
        },
        _ => {},
    }
}

} // verus!
